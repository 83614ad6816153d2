use tee_ell_ess::wire::client::tls13::ClientHello as FieldHello;
use tee_ell_ess::{
    client::msgs::{ClientHello, Extension},
    tls::ext::{ExtMask, CH, SERVER_NAME, SUPPORTED_VERSIONS},
    wire::{
        alert::AlertDesc,
        tls13::{CipherSuiteId, ClientHello as WireClientHello, Extension2, Handshake, Record},
        ContentType, ExtensionType, HandshakeHeader, HandshakeType, ProtocolVersion, TLSPlaintext,
        TryParse,
    },
};

fn hex(s: &str) -> Vec<u8> {
    (0..s.len())
        .step_by(2)
        .map(|i| u8::from_str_radix(&s[i..i + 2], 16).unwrap())
        .collect()
}

fn hexs(parts: &[&str]) -> Vec<u8> {
    hex(&parts.concat())
}

const CLIENT_HELLO: &[&str] = &[
    "03030001020304",
    "05060708090a0b0c0d0e0f1011121314",
    "15161718191a1b1c1d1e1f20e0e1e2e3",
    "e4e5e6e7e8e9eaebecedeeeff0f1f2f3",
    "f4f5f6f7f8f9fafbfcfdfeff00081302",
    "1303130100ff010000a3000000180016",
    "0000136578616d706c652e756c666865",
    "696d2e6e6574000b000403000102000a",
    "00160014001d0017001e001900180100",
    "01010102010301040023000000160000",
    "00170000000d001e001c040305030603",
    "080708080809080a080b080408050806",
    "040105010601002b0003020304002d00",
    "020101003300260024001d0020358072",
    "d6365880d1aeea329adf9121383851ed",
    "21a28e3b75e965d0d2cd166254",
];

fn parse_err(data: &[u8]) -> tee_ell_ess::wire::Error {
    match ClientHello::try_parse_all(data) {
        Ok(_) => panic!("want an error"),
        Err(e) => e,
    }
}

/// A `ClientHello` with no session ID, one cipher suite and the given
/// extensions.
fn hello_with(exts: &str) -> Vec<u8> {
    let exts = hex(exts);
    let mut data = hex("0303");
    data.extend_from_slice(&[7u8; 32]);
    data.extend_from_slice(&hex("00000213010100"));
    data.extend_from_slice(&(exts.len() as u16).to_be_bytes());
    data.extend_from_slice(&exts);
    data
}

#[test]
fn msgs_test_client_hello() {
    let data = hexs(CLIENT_HELLO);
    let got = ClientHello::try_parse_all(&data).unwrap();
    let want_random = hexs(&[
        "000102030405060708090a0b0c0d0e0f",
        "101112131415161718191a1b1c1d1e1f"
    ]);
    assert_eq!(&got.random()[..], &want_random[..]);
}

#[test]
fn client_hello_fields() {
    let data = hexs(CLIENT_HELLO);
    let got = ClientHello::try_parse_all(&data).unwrap();
    assert_eq!(got.version(), ProtocolVersion::Tls12);
    let want_id: Vec<u8> = (0xe0..=0xffu8).collect();
    assert_eq!(got.legacy_session_id(), &want_id[..]);

    let mut suites = got.suites();
    assert_eq!(suites.next(), Some(CipherSuiteId::TlsAes256GcmSha384));
    assert_eq!(suites.next(), Some(CipherSuiteId::TlsChaCha20Poly1305));
    assert_eq!(suites.next(), Some(CipherSuiteId::TlsAes128GcmSha256));
    assert_eq!(suites.next(), Some(CipherSuiteId::Unknown(0x00ff)));
    assert_eq!(suites.next(), None);

    let exts = got.extensions();
    assert_eq!(exts.len(), 10);
    assert!(exts.server_name().is_some());
    assert!(exts.supported_versions().is_some());
    assert!(exts.psk_kex_modes().is_some());
    assert!(exts.key_share().is_some());
    assert!(exts.alpn().is_none());
    assert!(exts.cookie().is_none());
    assert!(exts.pre_shared_key().is_none());
    assert!(exts.max_fragment_length().is_none());
    assert!(!exts.early_data());
    assert!(exts.mask().contains(ExtMask::from_bits_retain(SERVER_NAME)));
    assert!(exts.mask().contains(ExtMask::from_bits_retain(SUPPORTED_VERSIONS)));

    let mut it = exts.iter();
    match it.next() {
        Some(Extension::ServerName(_)) => {}
        _ => panic!("want `server_name` first"),
    }
    match it.next() {
        Some(Extension::Unknown(ext)) => {
            assert_eq!(ext.ty(), ExtensionType::Unknown(11));
            assert_eq!(ext.data(), &[3, 0, 1, 2]);
        }
        _ => panic!("want an unknown extension second"),
    }
}

#[test]
fn client_hello_duplicate_extension_is_refused() {
    let data = hello_with("002b0003020304002b0003020304");
    let err = parse_err(&data);
    assert_eq!(err.alert().desc, AlertDesc::IllegalParameter);
}

#[test]
fn client_hello_extension_not_for_client_hello_is_refused() {
    // `oid_filters` only appears in `CertificateRequest`.
    let data = hello_with("002b000302030400300000");
    let err = parse_err(&data);
    assert_eq!(err.alert().desc, AlertDesc::IllegalParameter);
}

#[test]
fn client_hello_unknown_extensions_are_ignored() {
    let data = hello_with("ff000000ff000000002b0003020304");
    let got = ClientHello::try_parse_all(&data).unwrap();
    assert_eq!(got.extensions().len(), 3);
    assert!(got.extensions().supported_versions().is_some());
}

#[test]
fn client_hello_with_compression_is_refused() {
    let mut data = hello_with("ff000000002b0003020304");
    // The compression method follows the version, the random, the
    // empty session ID and the cipher suites.
    let at = 2 + 32 + 1 + 4 + 1;
    data[at] = 1;
    let err = parse_err(&data);
    assert_eq!(err.alert().desc, AlertDesc::IllegalParameter);
}

#[test]
fn client_hello_with_old_version_is_refused() {
    let mut data = hello_with("ff000000002b0003020304");
    data[1] = 0x01;
    assert!(ClientHello::try_parse_all(&data).is_err());
}

#[test]
fn ext_mask_detects_duplicates() {
    let mut mask = ExtMask::empty();
    assert!(!mask.contains(ExtensionType::ServerName.flag()));
    mask.bitor_assign(ExtensionType::ServerName);
    assert!(mask.contains(ExtensionType::ServerName.flag()));
    assert!(!mask.contains(ExtensionType::Alpn.flag()));
    assert!(!mask.contains(ExtensionType::MaxFragmentLength.flag()));
    assert!(ExtensionType::KeyShare.flag().contains(ExtMask::from_bits_retain(CH)));
    assert!(!ExtensionType::OidFilters.flag().contains(ExtMask::from_bits_retain(CH)));
    assert_eq!(ExtensionType::Unknown(1234).flag().bits(), 0);
    assert_eq!(ExtensionType::ServerName.flag().bits(), (1 << 7) | 1 | 4);
}

#[test]
fn mod_test_client_hello() {
    let data = hexs(&[
        "16030100f8010000f40303000102030405060708090a0b0c0d",
        "0e0f101112131415161718191a1b1c1d1e1f20e0e1e2e3e4e5",
        "e6e7e8e9eaebecedeeeff0f1f2f3f4f5f6f7f8f9fafbfcfdfe",
        "ff000813021303130100ff010000a300000018001600001365",
        "78616d706c652e756c666865696d2e6e6574000b0004030001",
        "02000a00160014001d0017001e001900180100010101020103",
        "0104002300000016000000170000000d001e001c0403050306",
        "03080708080809080a080b080408050806040105010601002b",
        "0003020304002d00020101003300260024001d0020358072d6",
        "365880d1aeea329adf9121383851ed21a28e3b75e965d0d2cd",
        "166254",
    ]);
    let (record, rest) = TLSPlaintext::try_parse(&data).unwrap();
    assert_eq!(record.type_, ContentType::Handshake);
    assert_eq!(record.legacy_record_version, ProtocolVersion::Tls10);
    assert_eq!(record.length, 0xf8);
    assert_eq!(rest.len(), 0xf8);

    let (hs, body) = HandshakeHeader::try_parse(rest).unwrap();
    assert_eq!(hs.msg_type, HandshakeType::ClientHello);
    assert_eq!(hs.length.to_usize(), 0xf4);
    assert_eq!(body.len(), 0xf4);

    let hello = WireClientHello::try_parse_all(body).unwrap();
    let want_random: Vec<u8> = (0u8..32).collect();
    assert_eq!(&hello.random[..], &want_random[..]);
    assert_eq!(hello.legacy_session_id.as_slice(), &hex("e0e1e2e3e4e5e6e7e8e9eaebecedeeeff0f1f2f3f4f5f6f7f8f9fafbfcfdfeff")[..]);
    assert_eq!(hello.cipher_suites.as_slice(), &hex("13021303130100ff")[..]);
    assert_eq!(hello.legacy_compression_methods.as_slice(), &[0u8][..]);
    assert_eq!(hello.extensions.as_slice().len(), 0xa3);

    // The same through `Record` and `Handshake`.
    let (record, rest) = Record::try_parse(&data).unwrap();
    assert!(rest.is_empty());
    assert_eq!(record.content_type(), ContentType::Handshake);
    assert_eq!(record.version(), ProtocolVersion::Tls10);
    assert_eq!(record.length(), 0xf8);
    let (hs, rest) = Handshake::try_parse(record.data()).unwrap();
    assert!(rest.is_empty());
    match hs {
        Handshake::ClientHello(h) => assert_eq!(&h.random[..], &want_random[..]),
        _ => panic!("want a ClientHello"),
    }
}

#[test]
fn record_refuses_overflow_and_short_fragments() {
    let d55 = hex("1603034001");
    let err = Record::try_parse(&d55).unwrap_err();
    assert_eq!(err.alert().desc, AlertDesc::RecordOverflow);
    let bytes1 = hex("160303000301");
    let err = Record::try_parse(&bytes1).unwrap_err();
    assert_eq!(err.alert().desc, AlertDesc::DecodeDrror);
    let bytes2 = hex("14030300010199");
    let (rec, rest) = Record::try_parse(&bytes2).unwrap();
    assert_eq!(rec.content_type(), ContentType::ChangeCipherSpec);
    assert_eq!(rec.data(), &[1]);
    assert_eq!(rest, &[0x99]);
}

#[test]
fn handshake_takes_bodies_it_does_not_read() {
    let bytes3 = hex("1400000201020a");
    let (hs, rest) = Handshake::try_parse(&bytes3).unwrap();
    assert!(matches!(hs, Handshake::Finished));
    assert_eq!(rest, &[0x0a]);
    let bytes4 = hex("1800000100");
    let err = Handshake::try_parse(&bytes4).unwrap_err();
    assert_eq!(err.alert().desc, AlertDesc::UnexpectedMessage);
    assert!(Handshake::try_parse(&hex("14000003")).is_err());
}

#[test]
fn extensions_by_type_code() {
    let bytes5 = hex("002b04030403030a");
    let (ext, rest) = Extension2::try_parse_client(&bytes5).unwrap();
    match ext {
        Extension2::SupportedVersions(list) => {
            let mut it = list.iter();
            assert_eq!(it.next(), Some(ProtocolVersion::Tls13));
            assert_eq!(it.next(), Some(ProtocolVersion::Tls12));
            assert_eq!(it.next(), None);
        }
        _ => panic!("want supported_versions"),
    }
    assert_eq!(rest, &hex("04030403030a")[..]);
    let bytes6 = hex("002b0304");
    let (ext, rest) = Extension2::try_parse_server(&bytes6).unwrap();
    assert!(matches!(ext, Extension2::SupportedVersion(0x0304)));
    assert_eq!(rest, &[3, 4]);
    let bytes7 = hex("0033");
    let (ext, _) = Extension2::try_parse_client(&bytes7).unwrap();
    assert!(matches!(ext, Extension2::KeyShare));
    let bytes8 = hex("fe0d");
    let (ext, _) = Extension2::try_parse_server(&bytes8).unwrap();
    assert!(matches!(ext, Extension2::Unknown(0xfe0d)));
    assert!(Extension2::try_parse_client(&hex("00")).is_err());
    assert!(Extension2::try_parse_server(&hex("002b03")).is_err());
}

#[test]
fn extension_list_len_is_the_count_of_its_iterator() {
    let data = hexs(CLIENT_HELLO);
    let got = ClientHello::try_parse_all(&data).unwrap();
    let exts = got.extensions();
    assert_eq!(exts.len(), exts.iter().count());
    let mut it = exts.iter();
    let mut n = 0;
    while it.next().is_some() {
        n += 1;
    }
    assert_eq!(n, exts.len());
}

#[test]
fn tls13_test_client_hello() {
    let data = hexs(&[
        "010000c00303cb34ecb1e78163",
        "ba1c38c6dacb196a6dffa21a8d9912ec18a2ef6283",
        "024dece7000006130113031302010000910000000b",
        "0009000006736572766572ff01000100000a001400",
        "12001d001700180019010001010102010301040023",
        "0000003300260024001d002099381de560e4bd43d2",
        "3d8e435a7dbafeb3c06e51c13cae4d5413691e529a",
        "af2c002b0003020304000d0020001e040305030603",
        "020308040805080604010501060102010402050206",
        "020202002d00020101001c00024001",
    ]);
    let (hs, rest) = Handshake::try_parse(&data).unwrap();
    assert!(rest.is_empty());
    match hs {
        Handshake::ClientHello(h) => {
            assert_eq!(h.legacy_session_id.as_slice().len(), 0);
            assert_eq!(h.cipher_suites.as_slice(), &hex("130113031302")[..]);
        }
        _ => panic!("want a ClientHello"),
    }
}

#[test]
fn client_hello_read_field_by_field() {
    let data = hexs(CLIENT_HELLO);
    let (hello, rest) = FieldHello::try_parse(&data).unwrap();
    assert!(rest.is_empty());
    assert_eq!(hello.version(), 0x0303);
    let want_random: Vec<u8> = (0u8..32).collect();
    assert_eq!(&hello.random()[..], &want_random[..]);
    assert_eq!(hello.legacy_session_id().as_slice().len(), 32);
    assert_eq!(hello.legacy_compression_methods().as_slice(), &[0]);
    let mut suites = hello.suites();
    assert_eq!(suites.len(), 4);
    assert_eq!(suites.next(), Some(CipherSuiteId::TlsAes256GcmSha384));
    assert_eq!(suites.count(), 3);
    let mut exts = hello.extensions();
    let mut n = 0;
    while exts.next().is_some() {
        n += 1;
    }
    assert_eq!(n, 10);
    // A second `supported_versions` is refused.
    let twice = hello_with("002b00030203040000002b0003020304");
    assert!(FieldHello::try_parse(&twice).is_err());
    let once = hello_with("002b0003020304ff01000100");
    assert!(FieldHello::try_parse(&once).is_ok());
}
