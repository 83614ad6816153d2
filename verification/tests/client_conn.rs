use tee_ell_ess::{
    client::{
        conn::{check_server_hello_with, select_version, Conn, SendBuf, SentClientHello},
        ClientConfig,
    },
    crypto::{Aead, Hkdf, HkdfError, Prk},
    error::ErrorKind,
    server::msgs::{ServerHello, ServerHelloExtensions},
    tls::{ext::sni::HostName, CipherSuite, Version},
    tls13,
    wire::{
        alert::{Alert, AlertDesc},
        tls13::CipherSuiteId,
        ContentType, HandshakeType, ProtocolVersion, TryParse,
    },
};

fn hex(s: &str) -> Vec<u8> {
    (0..s.len())
        .step_by(2)
        .map(|i| u8::from_str_radix(&s[i..i + 2], 16).unwrap())
        .collect()
}

#[derive(Debug)]
struct NoAead;
impl Aead for NoAead {}

#[derive(Debug)]
struct NoHkdf;
impl Hkdf for NoHkdf {
    fn extract(&self, _ikm: &[u8], _salt: &[u8]) -> Prk {
        Prk::new([0; 32])
    }
    fn expand(&self, _out: &mut [u8], _prk: &Prk, _info: &[u8]) -> Result<(), HkdfError> {
        Err(HkdfError)
    }
}

fn suites() -> Vec<CipherSuite> {
    vec![CipherSuite::Tls13(tls13::CipherSuite {
        id: CipherSuiteId::TlsAes128GcmSha256,
        aead: Box::leak(Box::new(NoAead)),
        hkdf: Box::leak(Box::new(NoHkdf)),
    })]
}

struct Config {
    suites: Vec<CipherSuite>,
}

impl ClientConfig for Config {
    fn cipher_suites(&self) -> &[CipherSuite] {
        &self.suites
    }
    fn server_name(&self) -> HostName<'_> {
        HostName::new("example.com").unwrap()
    }
}

const HRR_RANDOM: &str = "cf21ad74e59a6111be1d8c021e65b891c2a211167abb8c5e079e09e2c8a8339c";

/// A `ServerHello` with the given random, session ID echo and suite.
fn server_hello(random: &str, echo: &[u8], suite: &str) -> Vec<u8> {
    let mut data = hex("0303");
    data.extend_from_slice(&hex(random));
    data.push(echo.len() as u8);
    data.extend_from_slice(echo);
    data.extend_from_slice(&hex(suite));
    data.push(0);
    data
}

#[test]
fn check_server_hello_accepts_what_was_offered() {
    let suites = suites();
    let id = [7u8; 32];
    let data = server_hello(&"11".repeat(32), &id, "1301");
    let hello = ServerHello::try_parse_all(&data).unwrap();
    assert!(check_server_hello_with(&suites, &id, &hello).is_ok());
    assert!(!hello.is_hello_retry_request());
    assert_eq!(hello.cipher_suite(), CipherSuiteId::TlsAes128GcmSha256);
}

#[test]
fn check_server_hello_refuses_a_suite_not_offered() {
    let suites = suites();
    let id = [7u8; 32];
    let data = server_hello(&"11".repeat(32), &id, "1302");
    let hello = ServerHello::try_parse_all(&data).unwrap();
    let err = check_server_hello_with(&suites, &id, &hello).unwrap_err();
    assert_eq!(err.alert().desc, AlertDesc::IllegalParameter);
}

#[test]
fn check_server_hello_refuses_another_session_id() {
    let suites = suites();
    let data = server_hello(&"11".repeat(32), &[8u8; 32], "1301");
    let hello = ServerHello::try_parse_all(&data).unwrap();
    let err = check_server_hello_with(&suites, &[7u8; 32], &hello).unwrap_err();
    assert_eq!(err.alert().desc, AlertDesc::IllegalParameter);
}

#[test]
fn server_hello_with_compression_is_refused() {
    let mut data = server_hello(&"11".repeat(32), &[], "1301");
    let last = data.len() - 1;
    data[last] = 1;
    assert!(ServerHello::try_parse_all(&data).is_err());
}

#[test]
fn select_version_cases() {
    let tls13 = [Version::Tls13];
    assert_eq!(select_version(None, Some(ProtocolVersion::Tls13), &tls13).unwrap(), Version::Tls13);
    assert_eq!(
        select_version(Some(ProtocolVersion::Tls13), Some(ProtocolVersion::Tls13), &tls13).unwrap(),
        Version::Tls13
    );
    let err = select_version(None, None, &tls13).unwrap_err();
    assert_eq!(err.alert().desc, AlertDesc::MissingExtension);
    let err = select_version(Some(ProtocolVersion::Tls13), Some(ProtocolVersion::Tls12), &tls13)
        .unwrap_err();
    assert_eq!(err.alert().desc, AlertDesc::IllegalParameter);
    let err = select_version(None, Some(ProtocolVersion::Tls12), &tls13).unwrap_err();
    assert_eq!(err.alert().desc, AlertDesc::IllegalParameter);
    let err = select_version(None, Some(ProtocolVersion::Tls13), &[]).unwrap_err();
    assert_eq!(err.alert().desc, AlertDesc::IllegalParameter);
}

#[test]
fn server_hello_extensions_select_a_version() {
    let data = hex("0006002b00020304");
    let exts = ServerHelloExtensions::try_parse_all(&data).unwrap();
    assert_eq!(exts.selected_version(), Some(ProtocolVersion::Tls13));
    assert!(exts.alpn().is_none());
    assert!(!exts.server_name());
    let data = hex("000a00000000002b00020304");
    let exts = ServerHelloExtensions::try_parse_all(&data).unwrap();
    assert!(exts.server_name());
}

#[test]
fn handshake_reads_records() {
    let cfg = Config { suites: suites() };
    let mut hs = Conn::new(&cfg);
    hs.begin_record().unwrap();
    let hdr = hs.record_header(&hex("1603030004")).unwrap();
    assert_eq!(hdr.content_type, ContentType::Handshake);
    assert_eq!(hs.handshake_record(&hdr).unwrap(), false);
    hs.record_fragment(&hex("02000010")).unwrap();
    assert_eq!(hs.buffered_len(), 4);
    let msg = hs.read_handshake_header().unwrap();
    assert_eq!(msg.msg_type, HandshakeType::ServerHello);
    assert_eq!(msg.length, 16);
    assert!(Conn::new(&cfg).client_hello([0; 32], &mut [0; 16]).is_err());
    assert!(tee_ell_ess::client::conn::NeedHandshake::expect_server_hello(&msg).is_ok());
}

#[test]
fn handshake_refuses_alerts_and_interleaving() {
    let cfg = Config { suites: suites() };
    let mut hs = Conn::new(&cfg);
    hs.begin_record().unwrap();
    let err = hs.record_header(&hex("1503030002")).unwrap_err();
    assert_eq!(err.kind(), ErrorKind::Wire);
    hs.begin_record().unwrap();
    let hdr = hs.record_header(&hex("1703030002")).unwrap();
    assert!(hs.handshake_record(&hdr).is_err());
    hs.begin_record().unwrap();
    let hdr = hs.record_header(&hex("1603030000")).unwrap();
    assert!(hs.handshake_record(&hdr).is_err());
    hs.begin_record().unwrap();
    assert_eq!(hs.record_header(&hex("160303000000")).unwrap_err().kind(), ErrorKind::Bug);
}

#[test]
fn handshake_drops_change_cipher_spec() {
    let cfg = Config { suites: suites() };
    let mut hs = Conn::new(&cfg);
    // Two bytes of a handshake header arrive first.
    hs.begin_record().unwrap();
    let hdr = hs.record_header(&hex("1603030002")).unwrap();
    assert_eq!(hs.handshake_record(&hdr).unwrap(), false);
    hs.record_fragment(&hex("0200")).unwrap();
    assert_eq!(hs.buffered_len(), 2);
    // The change_cipher_spec record is dropped: the buffer is unchanged.
    hs.begin_record().unwrap();
    let hdr = hs.record_header(&hex("1403030001")).unwrap();
    assert_eq!(hs.handshake_record(&hdr).unwrap(), true);
    hs.ccs_byte(&[1]).unwrap();
    assert_eq!(hs.buffered_len(), 2);
    assert!(hs.ccs_byte(&[2]).is_err());
    assert_eq!(hs.buffered_len(), 2);
    // The rest of the handshake header follows the first two bytes.
    hs.begin_record().unwrap();
    let hdr = hs.record_header(&hex("1603030002")).unwrap();
    assert_eq!(hs.handshake_record(&hdr).unwrap(), false);
    hs.record_fragment(&hex("0010")).unwrap();
    let msg = hs.read_handshake_header().unwrap();
    assert_eq!(msg.msg_type, HandshakeType::ServerHello);
    assert_eq!(msg.length, 16);
    // A change_cipher_spec record of another length is refused.
    let hdr = {
        hs.begin_record().unwrap();
        hs.record_header(&hex("1403030002")).unwrap()
    };
    assert!(hs.handshake_record(&hdr).is_err());
}

#[test]
fn handshake_gives_up_after_many_useless_records() {
    let cfg = Config { suites: suites() };
    let mut hs = Conn::new(&cfg);
    for _ in 0..17 {
        hs.begin_record().unwrap();
        let hdr = hs.record_header(&hex("1403030001")).unwrap();
        assert!(hs.handshake_record(&hdr).unwrap());
        hs.ccs_byte(&[1]).unwrap();
    }
    assert!(hs.begin_record().is_err());
}

#[test]
fn handshake_detects_hello_retry_request() {
    let cfg = Config { suites: suites() };
    let ctx = SentClientHello { session_id: [7u8; 32] };
    // A `HelloRetryRequest` whose echo is empty does not match the
    // session ID that was sent.
    let mut hs = Conn::new(&cfg);
    hs.record_fragment(&server_hello(HRR_RANDOM, &[], "1301")).unwrap();
    let err = hs.read_server_hello(&ctx, false).unwrap_err();
    assert_eq!(err.kind(), ErrorKind::Wire);
    // A second `HelloRetryRequest` is refused before anything else.
    let mut hs = Conn::new(&cfg);
    hs.record_fragment(&server_hello(HRR_RANDOM, &[], "1301")).unwrap();
    assert!(hs.read_server_hello(&ctx, true).is_err());
    // The extensions of a `HelloRetryRequest` must select a version.
    let mut hs = Conn::new(&cfg);
    hs.record_fragment(&hex("0006002b00020304")).unwrap();
    assert_eq!(hs.read_hrr_extensions().unwrap(), ProtocolVersion::Tls13);
    let mut hs = Conn::new(&cfg);
    hs.record_fragment(&hex("0006ff0000020304")).unwrap();
    assert!(hs.read_hrr_extensions().is_err());
    let mut hs = Conn::new(&cfg);
    hs.record_fragment(&hex("0006002b00020304")).unwrap();
    assert_eq!(hs.read_server_hello_extensions(None).unwrap(), Version::Tls13);
}

#[test]
fn send_buffer_starts_empty() {
    let mut send = SendBuf::new();
    assert!(send.is_empty());
    assert!(send.send_alert(Alert::new(AlertDesc::CloseNotify)).is_ok());
    assert!(send.is_empty());
    let cfg = Config { suites: suites() };
    let mut hs = Conn::new(&cfg);
    assert_eq!(hs.queue_dummy_ccs().unwrap(), &[] as &[u8]);
    hs.clear_sent();
    let _conn = hs.into_conn();
}
