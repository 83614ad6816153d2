use tee_ell_ess::wire::{
    tls13::ext::{KeyShare, NamedGroup},
    EncBuf, TryEncode, TryParse,
};

fn hex(s: &str) -> Vec<u8> {
    (0..s.len())
        .step_by(2)
        .map(|i| u8::from_str_radix(&s[i..i + 2], 16).unwrap())
        .collect()
}

fn hexs(parts: &[&str]) -> Vec<u8> {
    hex(&parts.concat())
}

#[test]
fn test_key_share_entry() {
    let x25519_pk = hexs(&[
        "358072d6365880d1aeea329adf912138",
        "3851ed21a28e3b75e965d0d2cd166254"
    ]);
    let tests: Vec<(Vec<u8>, NamedGroup, Vec<u8>)> = vec![
        (
            hexs(&[
                "001d",
                "0020",
                "358072d6365880d1aeea329adf912138",
                "3851ed21a28e3b75e965d0d2cd166254"
            ]),
            NamedGroup::X25519,
            x25519_pk.clone(),
        ),
        (
            hexs(&[
                "0017",
                "0041",
                "04",
                "11111111111111111111111111111111",
                "11111111111111111111111111111111",
                "22222222222222222222222222222222",
                "22222222222222222222222222222222"
            ]),
            NamedGroup::Secp256r1,
            [&[4u8][..], &[0x11; 32][..], &[0x22; 32][..]].concat(),
        ),
    ];
    for (i, (data, group, want)) in tests.iter().enumerate() {
        let got = KeyShare::try_parse_all(data).unwrap();
        assert_eq!(got.group(), *group, "#{i}");
        assert_eq!(got.data(), &want[..], "#{i}");
    }
    // The parts of the points.
    let got = KeyShare::try_parse_all(&tests[0].0).unwrap();
    match got {
        KeyShare::X25519(share) => assert_eq!(share.pk(), &x25519_pk[..]),
        _ => panic!("want X25519"),
    }
    let got = KeyShare::try_parse_all(&tests[1].0).unwrap();
    match got {
        KeyShare::Secp256r1(share) => {
            let (x, y) = share.pk();
            assert_eq!(x, &[0x11; 32]);
            assert_eq!(y, &[0x22; 32]);
        }
        _ => panic!("want Secp256r1"),
    }
}

#[test]
fn key_share_point_of_wrong_size_is_refused() {
    // An X25519 key of 31 bytes.
    let data = hexs(&[
        "001d",
        "001f",
        "358072d6365880d1aeea329adf912138",
        "3851ed21a28e3b75e965d0d2cd1662"
    ]);
    assert!(KeyShare::try_parse_all(&data).is_err());
}

#[test]
fn key_share_of_unknown_group_keeps_its_bytes() {
    let data = hex("abcd0003010203");
    let got = KeyShare::try_parse_all(&data).unwrap();
    assert_eq!(got.group(), NamedGroup::Unknown(0xabcd));
    assert_eq!(got.data(), &[1, 2, 3]);
}

#[test]
fn key_share_encodes_what_it_parsed() {
    let data = hexs(&[
        "001d",
        "0020",
        "358072d6365880d1aeea329adf912138",
        "3851ed21a28e3b75e965d0d2cd166254"
    ]);
    let got = KeyShare::try_parse_all(&data).unwrap();
    let mut out = [0u8; 64];
    let mut buf = EncBuf::new(&mut out);
    got.try_encode(&mut buf).unwrap();
    assert_eq!(&out[..data.len()], &data[..]);
}
