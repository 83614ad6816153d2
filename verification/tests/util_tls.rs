use tee_ell_ess::{
    crypto::{HkdfError, Prk},
    error::ErrorKind,
    io::IoError,
    tls::{
        ext::{psk::Binder, psk::Identity, sni::HostName},
        msgs::{HandshakeHeader, RecordHeader},
        MaxFragmentLength, Version,
    },
    util::{enc_nibble, Buffer, Hex, OutOfSpace, Sensitive},
    wire::{
        alert::AlertDesc,
        tls13::ext::{PskBinderEntry, PskIdentity},
        ContentType, HandshakeType, ProtocolVersion, TryParse,
    },
};

fn hex(s: &str) -> Vec<u8> {
    (0..s.len())
        .step_by(2)
        .map(|i| u8::from_str_radix(&s[i..i + 2], 16).unwrap())
        .collect()
}

fn hexs(parts: &[&str]) -> Vec<u8> {
    hex(&parts.concat())
}

#[test]
fn buffer_write_then_read() {
    let mut buf = Buffer::<8>::new();
    assert!(buf.is_empty());
    buf.write(&[0x12, 0x34, 0x56]).unwrap();
    assert_eq!(buf.len(), 3);
    assert_eq!(buf.as_bytes(), &[0x12, 0x34, 0x56]);
    let v: u16 = buf.peek_type().unwrap();
    assert_eq!(v, 0x1234);
    assert_eq!(buf.len(), 3);
    let v: u16 = buf.read_type().unwrap();
    assert_eq!(v, 0x1234);
    assert_eq!(buf.as_bytes(), &[0x56]);
    let v: u8 = buf.read_type().unwrap();
    assert_eq!(v, 0x56);
    assert!(buf.is_empty());
    assert!(buf.read_type::<u8>().is_err());
}

#[test]
fn buffer_refuses_what_does_not_fit() {
    let mut buf = Buffer::<4>::new();
    buf.write(&[1, 2, 3]).unwrap();
    assert_eq!(buf.write(&[4, 5]), Err(OutOfSpace));
    assert_eq!(buf.as_bytes(), &[1, 2, 3]);
    buf.write_fixed(&[4]).unwrap();
    assert_eq!(buf.write_fixed(&[5]), Err(OutOfSpace));
    assert_eq!(buf.as_bytes(), &[1, 2, 3, 4]);
}

#[test]
fn buffer_write_type_and_clear() {
    let mut buf = Buffer::<4>::new();
    buf.write_type(0xabcdu16).unwrap();
    assert_eq!(buf.as_bytes(), &[0xab, 0xcd]);
    let err = buf.write_type(0x0102_0304u32).unwrap_err();
    assert_eq!(err.kind(), ErrorKind::Wire);
    assert_eq!(buf.as_bytes(), &[0xab, 0xcd]);
    buf.clear();
    assert!(buf.is_empty());
    buf.write(&[9, 9, 9, 9]).unwrap();
    assert_eq!(buf.len(), 4);
}

#[test]
fn hex_encodes_bytes() {
    assert_eq!(Hex(&[0x01, 0xab, 0xff, 0x90]).encode(), b"01abff90".to_vec());
    assert_eq!(Hex(&[]).encode(), Vec::<u8>::new());
    let digits: Vec<u8> = (0..16).map(enc_nibble).collect();
    assert_eq!(digits, b"0123456789abcdef".to_vec());
}

#[test]
fn max_fragment_length_takes_powers_of_two() {
    for (size, ok) in [(512, true), (1024, true), (2048, true), (4096, true), (1, false), (4, false), (8192, false), (0, false)] {
        let got = MaxFragmentLength::new(size);
        assert_eq!(got.is_some(), ok, "{size}");
        if let Some(len) = got {
            assert_eq!(len.length(), size);
        }
    }
}

#[test]
fn host_name_checks() {
    let name = HostName::new("example.ulfheim.net").unwrap();
    assert_eq!(name.as_str(), "example.ulfheim.net");
    assert!(name.eq_str("example.ulfheim.net"));
    assert!(!name.eq_str("example.com"));
    assert_eq!(name.to_wire().as_slice(), b"example.ulfheim.net");
    assert!(HostName::new("").is_none());
    assert!(HostName::new("example.com.").is_none());
    assert!(HostName::new("exämple.com").is_none());
    let long = "a".repeat(65536);
    assert!(HostName::new(&long).is_none());
    assert!(HostName::new(&long[1..]).is_some());
}

#[test]
fn version_wire_form() {
    assert_eq!(Version::Tls13.to_wire(), ProtocolVersion::Tls13);
    assert_eq!(Version::from_wire(ProtocolVersion::Tls13), Some(Version::Tls13));
    assert_eq!(Version::from_wire(ProtocolVersion::Tls12), None);
}

#[test]
fn prk_zeroize_erases_the_key() {
    let mut prk = Prk::new([0x5a; 32]);
    assert_eq!(prk.as_bytes(), &[0x5a; 32]);
    prk.zeroize();
    assert_eq!(prk.as_bytes(), &[0; 32]);
    assert_eq!(HkdfError, HkdfError);
}

#[test]
fn sensitive_compares_in_constant_time() {
    let data = hex("000361626300000007000361626400000007");
    let (a, rest) = PskIdentity::try_parse(&data[..]).unwrap();
    let (b, _) = PskIdentity::try_parse(rest).unwrap();
    let (x, y): (Sensitive<'_>, Sensitive<'_>) = (a.identity(), b.identity());
    assert!(x.ct_eq(&a.identity()));
    assert!(!x.ct_eq(&y));
    assert!(x == a.identity());
    assert!(x != y);
}

#[test]
fn psk_identity_compares_identity_and_age() {
    let data = hexs(&["000361626300000007", "000361626300000008", "000361626400000007"]);
    let (a, rest) = PskIdentity::try_parse(&data[..]).unwrap();
    let (b, rest) = PskIdentity::try_parse(rest).unwrap();
    let (c, _) = PskIdentity::try_parse(rest).unwrap();
    assert_eq!(a.obfuscated_ticket_age(), 7);
    assert!(a.ct_eq(&a));
    assert!(!a.ct_eq(&b));
    assert!(!a.ct_eq(&c));
    assert!(a == a && a != b);
    let id = Identity::new(a);
    assert_eq!(id.identity().as_slice(), b"abc");
    assert_eq!(id.obfuscated_ticket_age(), 7);
}

#[test]
fn binders_compare_in_constant_time() {
    let mut data = vec![32u8];
    data.extend_from_slice(&[0x11; 32]);
    let mut other = vec![32u8];
    other.extend_from_slice(&[0x12; 32]);
    let a = Binder::new(PskBinderEntry::try_parse_all(&data).unwrap());
    let b = Binder::new(PskBinderEntry::try_parse_all(&other).unwrap());
    assert!(a.ct_eq(&a));
    assert!(!a.ct_eq(&b));
}

#[test]
fn record_header_limits_the_length() {
    let data = hex("1603010005");
    let (hdr, rest) = RecordHeader::try_parse(&data).unwrap();
    assert_eq!(hdr.content_type, ContentType::Handshake);
    assert_eq!(hdr.legacy_record_version, ProtocolVersion::Tls10);
    assert_eq!(hdr.length, 5);
    assert!(rest.is_empty());
    let (hdr, _) = RecordHeader::try_parse(&hex("1703034000")).unwrap();
    assert_eq!(hdr.length, 1 << 14);
    let err = RecordHeader::try_parse(&hex("1703034001")).unwrap_err();
    assert_eq!(err.alert().desc, AlertDesc::RecordOverflow);
    assert!(RecordHeader::try_parse(&hex("16030100")).is_err());
    assert!(RecordHeader::try_parse(&hex("160301000500")).is_err());
}

#[test]
fn handshake_header_reads_the_length() {
    let (hdr, _) = HandshakeHeader::try_parse(&hex("02000102")).unwrap();
    assert_eq!(hdr.msg_type, HandshakeType::ServerHello);
    assert_eq!(hdr.length, 0x102);
}

#[test]
fn error_kinds_describe_themselves() {
    assert_eq!(ErrorKind::Io.to_str(), "I/O error");
    assert_eq!(ErrorKind::Wire.to_str(), "wire error");
    let err: tee_ell_ess::Error = IoError::unexpected_eof().into();
    assert_eq!(err.kind(), ErrorKind::Io);
    let wire_err = tee_ell_ess::wire::vec::Vector::<u8, 1, 2>::try_parse(&[]).unwrap_err();
    let err: tee_ell_ess::Error = wire_err.into();
    assert_eq!(err.kind(), ErrorKind::Wire);
}

#[test]
fn buffer_unread_bytes_are_written_bytes_less_read_ones() {
    let mut buf = Buffer::<16>::new();
    buf.write(&[1, 2, 3]).unwrap();
    let a: u8 = buf.read_type().unwrap();
    assert_eq!(a, 1);
    buf.write_fixed(&[4, 5]).unwrap();
    buf.write_type(0x0607u16).unwrap();
    assert_eq!(buf.as_bytes(), &[2, 3, 4, 5, 6, 7]);
    assert_eq!(buf.len(), 6);
    let b: u16 = buf.read_type().unwrap();
    assert_eq!(b, 0x0203);
    assert_eq!(buf.as_bytes(), &[4, 5, 6, 7]);
    assert_eq!(buf.len(), buf.as_bytes().len());
    // Peeking reads nothing, and gives the same twice.
    let p: u32 = buf.peek_type().unwrap();
    let q: u32 = buf.peek_type().unwrap();
    assert_eq!(p, 0x0405_0607);
    assert_eq!(p, q);
    assert_eq!(buf.as_bytes(), &[4, 5, 6, 7]);
}
