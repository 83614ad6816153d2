use tee_ell_ess::wire::{
    alert::{Alert, AlertDesc, AlertLevel},
    tls13::ext::{
        KeyShare, KeyShareEntry, NamedGroup, NamedGroupList, PskKexMode, PskKexModesList,
        SupportedVersionsList,
    },
    u24, HandshakeHeader, HandshakeType,
    vec::Vector,
    ContentType, EncBuf, Extension, ExtensionType, ProtocolVersion, TLSPlaintext, TryEncode,
    TryParse,
};

fn encoded<T: TryEncode>(v: &T, room: usize) -> Vec<u8> {
    let mut out = vec![0xeeu8; room];
    {
        let mut buf = EncBuf::new(&mut out);
        v.try_encode(&mut buf).unwrap();
    }
    out
}

#[test]
fn integers_come_back() {
    let out = encoded(&0xabcdu16, 4);
    assert_eq!(&out[..2], &[0xab, 0xcd]);
    let (v, rest) = u16::try_parse(&out).unwrap();
    assert_eq!(v, 0xabcd);
    assert_eq!(rest, &[0xee, 0xee]);

    let out = encoded(&0x0102_0304_0506_0708u64, 9);
    let (v, rest) = u64::try_parse(&out).unwrap();
    assert_eq!(v, 0x0102_0304_0506_0708);
    assert_eq!(rest, &[0xee]);

    let out = encoded(&0xdead_beefu32, 4);
    assert_eq!(u32::try_parse_all(&out).unwrap(), 0xdead_beef);

    let out = encoded(&7u8, 1);
    assert_eq!(u8::try_parse_all(&out).unwrap(), 7);
}

#[test]
fn u24_comes_back() {
    let v = u24::try_from_usize(0x12_3456).unwrap();
    let out = encoded(&v, 3);
    assert_eq!(out, vec![0x12, 0x34, 0x56]);
    assert_eq!(u24::try_parse_all(&out).unwrap().to_usize(), 0x12_3456);
}

#[test]
fn vector_comes_back() {
    let data = [1u8, 2, 3, 4, 5];
    let (v, _) = Vector::<u8, 0, 255>::try_parse(&[5, 1, 2, 3, 4, 5]).unwrap();
    assert_eq!(v.as_slice(), &data);
    let out = encoded(&v, 8);
    assert_eq!(&out[..6], &[5, 1, 2, 3, 4, 5]);
    let (w, rest) = Vector::<u8, 0, 255>::try_parse(&out).unwrap();
    assert_eq!(w.as_slice(), &data);
    assert_eq!(rest, &[0xee, 0xee]);

    let (v, _) = Vector::<u8, 0, 65535>::try_parse(&[0, 2, 9, 9]).unwrap();
    let out = encoded(&v, 4);
    assert_eq!(out, vec![0, 2, 9, 9]);
}

#[test]
fn extension_comes_back() {
    let data = [0x00, 0x2b, 0x00, 0x03, 0x02, 0x03, 0x04];
    let ext = Extension::try_parse_all(&data).unwrap();
    assert_eq!(ext.ty(), ExtensionType::SupportedVersions);
    let out = encoded(&ext, 9);
    assert_eq!(&out[..7], &data);
    let (back, rest) = Extension::try_parse(&out).unwrap();
    assert_eq!(back.ty(), ExtensionType::SupportedVersions);
    assert_eq!(back.data(), &[2, 3, 4]);
    assert_eq!(rest, &[0xee, 0xee]);
}

#[test]
fn alert_comes_back() {
    let alert = Alert::new(AlertDesc::IllegalParameter);
    assert_eq!(alert.level, AlertLevel::Fatal);
    let out = encoded(&alert, 2);
    assert_eq!(out, vec![2, 47]);
    let back = Alert::try_parse_all(&out).unwrap();
    assert_eq!(back, alert);
}

#[test]
fn extension_types_come_back_from_their_values() {
    for ty in [
        ExtensionType::ServerName,
        ExtensionType::KeyShare,
        ExtensionType::SignatureAlgorithmsCert,
        ExtensionType::Unknown(0x1234),
    ] {
        assert_eq!(ExtensionType::try_from_repr(ty.to_repr()).unwrap(), ty);
    }
    assert_eq!(ExtensionType::try_from_repr(51).unwrap(), ExtensionType::KeyShare);
}

#[test]
fn record_header_comes_back() {
    let hdr = TLSPlaintext {
        type_: ContentType::Handshake,
        legacy_record_version: ProtocolVersion::Tls12,
        length: 0x1234,
    };
    let out = encoded(&hdr, 6);
    assert_eq!(&out[..5], &[22, 3, 3, 0x12, 0x34]);
    let (back, rest) = TLSPlaintext::try_parse(&out).unwrap();
    assert_eq!(back.type_, ContentType::Handshake);
    assert_eq!(back.legacy_record_version, ProtocolVersion::Tls12);
    assert_eq!(back.length, 0x1234);
    assert_eq!(rest, &[0xee]);
}

#[test]
fn server_hello_comes_back() {
    let mut data = vec![3u8, 3];
    data.extend_from_slice(&[0x42; 32]);
    data.push(4);
    data.extend_from_slice(&[1, 2, 3, 4]);
    data.extend_from_slice(&[0x13, 0x01, 0]);
    let hello = tee_ell_ess::wire::tls13::ServerHello::try_parse_all(&data).unwrap();
    let out = encoded(&hello, data.len() + 1);
    assert_eq!(&out[..data.len()], &data[..]);
    let (back, rest) = tee_ell_ess::wire::tls13::ServerHello::try_parse(&out).unwrap();
    assert_eq!(back.legacy_session_id_echo.as_slice(), &[1, 2, 3, 4]);
    assert_eq!(rest, &[0xee]);
}

#[test]
fn client_hello_comes_back() {
    let mut data = vec![3u8, 3];
    data.extend_from_slice(&[0x42; 32]);
    data.push(0);
    data.extend_from_slice(&[0, 2, 0x13, 0x01]);
    data.extend_from_slice(&[1, 0]);
    data.extend_from_slice(&[0, 11, 0x00, 0x2b, 0x00, 0x03, 0x02, 0x03, 0x04, 0xff, 0x00, 0x00, 0x00]);
    let hello = tee_ell_ess::wire::tls13::ClientHello::try_parse_all(&data).unwrap();
    let out = encoded(&hello, data.len() + 2);
    assert_eq!(&out[..data.len()], &data[..]);
    let (back, rest) = tee_ell_ess::wire::tls13::ClientHello::try_parse(&out).unwrap();
    assert_eq!(back.random, [0x42; 32]);
    assert_eq!(rest, &[0xee, 0xee]);
    // The server's reading of it.
    let read = tee_ell_ess::client::msgs::ClientHello::try_parse_all(&data).unwrap();
    assert_eq!(read.extensions().len(), 2);
}

#[test]
fn count_matches_what_next_yields() {
    // Three host names, each a vector of bytes.
    let data = [0u8, 9, 1, 0x61, 2, 0x62, 0x63, 3, 0x64, 0x65, 0x66];
    let v = Vector::<Vector<u8, 1, 255>, 0, 65535>::try_parse_all(&data).unwrap();
    assert_eq!(v.iter().count(), 3);
    let mut it = v.iter();
    let mut n = 0;
    while it.next().is_some() {
        n += 1;
    }
    assert_eq!(n, 3);
}

#[test]
fn handshake_header_comes_back() {
    let hdr = HandshakeHeader {
        msg_type: HandshakeType::Finished,
        length: u24::from_be_bytes([0x01, 0x02, 0x03]),
    };
    let out = encoded(&hdr, 5);
    assert_eq!(&out[..4], &[20, 0x01, 0x02, 0x03]);
    let (back, rest) = HandshakeHeader::try_parse(&out).unwrap();
    assert_eq!(back.msg_type, HandshakeType::Finished);
    assert_eq!(back.length.to_usize(), 0x010203);
    assert_eq!(rest, &[0xee]);
}

#[test]
fn item_lists_come_back() {
    let versions = [4u8, 0x03, 0x04, 0x03, 0x03];
    let list = SupportedVersionsList::try_parse_all(&versions).unwrap();
    let out = encoded(&list, versions.len() + 1);
    assert_eq!(&out[..versions.len()], &versions[..]);
    let (back, rest) = SupportedVersionsList::try_parse(&out).unwrap();
    let mut it = back.iter();
    let mut got: Vec<ProtocolVersion> = Vec::new();
    while let Some(x) = it.next() {
        got.push(x);
    }
    assert_eq!(got, vec![ProtocolVersion::Tls13, ProtocolVersion::Tls12]);
    assert_eq!(rest, &[0xee]);

    let groups = [0u8, 4, 0x00, 0x1d, 0x00, 0x17];
    let list = NamedGroupList::try_parse_all(&groups).unwrap();
    let out = encoded(&list, groups.len() + 1);
    assert_eq!(&out[..groups.len()], &groups[..]);
    let (back, rest) = NamedGroupList::try_parse(&out).unwrap();
    let mut it = back.iter();
    let mut got: Vec<NamedGroup> = Vec::new();
    while let Some(x) = it.next() {
        got.push(x);
    }
    assert_eq!(got, vec![NamedGroup::X25519, NamedGroup::Secp256r1]);
    assert_eq!(rest, &[0xee]);

    let modes = [1u8, 1];
    let list = PskKexModesList::try_parse_all(&modes).unwrap();
    let out = encoded(&list, modes.len() + 1);
    assert_eq!(&out[..modes.len()], &modes[..]);
    let (back, rest) = PskKexModesList::try_parse(&out).unwrap();
    let mut it = back.iter();
    let mut got: Vec<PskKexMode> = Vec::new();
    while let Some(x) = it.next() {
        got.push(x);
    }
    assert_eq!(got, vec![PskKexMode::DhePsk]);
    assert_eq!(rest, &[0xee]);
}

#[test]
fn key_shares_come_back() {
    let mut data = vec![0x00, 0x1d, 0x00, 0x20];
    data.extend_from_slice(&[0x5a; 32]);
    let entry = KeyShareEntry::try_parse_all(&data).unwrap();
    let out = encoded(&entry, data.len() + 1);
    assert_eq!(&out[..data.len()], &data[..]);
    let (back, rest) = KeyShare::try_parse(&out).unwrap();
    assert_eq!(back.group(), NamedGroup::X25519);
    assert_eq!(back.data(), &[0x5a; 32]);
    assert_eq!(rest, &[0xee]);
    let out = encoded(&back, data.len() + 1);
    assert_eq!(&out[..data.len()], &data[..]);
}

#[test]
fn write_that_does_not_fit_changes_nothing() {
    let mut b = [0u8; 3];
    {
        let mut e = EncBuf::new(&mut b);
        e.write(&[1, 2]).unwrap();
        let err = e.write(&[3, 4]).unwrap_err();
        assert_eq!(err.alert().desc, AlertDesc::InternalError);
        assert_eq!(err.context(), "buffer too short");
        e.write_fixed(&[5]).unwrap();
        assert!(e.write_fixed(&[6]).is_err());
    }
    assert_eq!(b, [1, 2, 5]);
}
