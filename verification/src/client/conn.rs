//! The client side of a connection.
//!
//! The handshake alternates reads and writes with decisions on what was
//! read. This module holds the decisions and the buffers; the program
//! that owns the transport performs the reads and writes in between and
//! hands the bytes over.

use vstd::prelude::*;

use crate::{
    client::{config::ClientConfig, msgs::HelloBuilder},
    error::{Error, ErrorKind},
    server::msgs::{spec_selected_version, ServerHello, ServerHelloExtensions},
    tls::{
        msgs::{HandshakeHeader, RecordHeader},
        spec_version_from_wire, CipherSuite, Version, MAX_HANDSHAKE_SIZE,
    },
    tls13::CipherSuiteId,
    util::{ct_eq_bytes, Buffer},
    wire::{
        self,
        alert::{Alert, AlertDesc},
        encode::TryEncode,
        parse::TryParse,
        size::Object,
        ContentType, HandshakeType, ProtocolVersion,
    },
};

verus! {

/// The number of consecutive records that carry nothing that is
/// tolerated.
pub const MAX_USELESS_RECORDS: usize = 16;

/// A TLS connection.
pub struct Conn<'a> {
    cfg: &'a dyn ClientConfig,
}

impl<'a> Conn<'a> {
    /// Creates a TLS connection, which must first complete the
    /// handshake.
    pub fn new(cfg: &'a dyn ClientConfig) -> (r: NeedHandshake<'a>)
        ensures
            r.wf(),
            r.spec_recv() == RecvBuf::spec_empty(),
            r.spec_send() == (Seq::<u8>::empty(), 0nat),
    {
        NeedHandshake {
            cfg,
            suites: cfg.cipher_suites(),
            versions: cfg.supported_versions(),
            send: SendBuf::new(),
            recv: RecvBuf::new(),
        }
    }
}

/// What a client keeps of the `ClientHello` it sent.
#[derive(Copy, Clone, Debug)]
pub struct SentClientHello {
    /// The legacy session ID that was sent.
    pub session_id: [u8; 32],
}

/// A cipher suite among `suites` is the TLS 1.3 suite `id`.
pub open spec fn spec_suite_offered(suites: Seq<CipherSuite>, id: CipherSuiteId) -> bool {
    exists|i: int|
        0 <= i < suites.len() && (#[trigger] suites[i] matches CipherSuite::Tls13(cs) && cs.id
            == id)
}

/// The checks that a client makes of a `ServerHello` or
/// `HelloRetryRequest`, in order, given the suites it offered and the
/// session ID it sent.
pub open spec fn spec_check_server_hello(
    suites: Seq<CipherSuite>,
    session_id: Seq<u8>,
    hello: (u16, Seq<u8>, Seq<u8>, Seq<u8>, u8),
) -> Result<(), Alert> {
    if hello.0 != 0x0303 {
        Err(Alert::spec_new(AlertDesc::ProtocolVersion))
    } else if hello.4 != 0 {
        Err(Alert::spec_illegal_parameter())
    } else if !spec_suite_offered(suites, CipherSuiteId::spec_from_suite(hello.3)) {
        Err(Alert::spec_illegal_parameter())
    } else if hello.2 != session_id {
        Err(Alert::spec_illegal_parameter())
    } else {
        Ok(())
    }
}

/// A `ServerHello` or `HelloRetryRequest` is accepted exactly when it
/// has legacy version 0x0303, compression method 0, echoes the session ID
/// that was sent, and names a TLS 1.3 suite that the client offered, at
/// any place in the offered list; its order does not matter, so two lists
/// that offer the same suites accept the same hellos. A hello of another
/// legacy version is refused with `protocol_version`, any other with
/// `illegal_parameter`.
pub proof fn lemma_server_hello_accepted(
    suites: Seq<CipherSuite>,
    other: Seq<CipherSuite>,
    session_id: Seq<u8>,
    hello: (u16, Seq<u8>, Seq<u8>, Seq<u8>, u8),
)
    ensures
        spec_check_server_hello(suites, session_id, hello) is Ok <==> (hello.0 == 0x0303 && hello.4
            == 0 && hello.2 == session_id && exists|i: int|
            0 <= i < suites.len() && (#[trigger] suites[i] matches CipherSuite::Tls13(cs) && cs.id
                == CipherSuiteId::spec_from_suite(hello.3))),
        suites.to_set() == other.to_set() ==> spec_check_server_hello(suites, session_id, hello)
            == spec_check_server_hello(other, session_id, hello),
        spec_check_server_hello(suites, session_id, hello) matches Err(a) ==> a == (if hello.0
            != 0x0303 {
            Alert::spec_new(AlertDesc::ProtocolVersion)
        } else {
            Alert::spec_illegal_parameter()
        }),
{
    let id = CipherSuiteId::spec_from_suite(hello.3);
    if suites.to_set() == other.to_set() {
        if spec_suite_offered(suites, id) {
            let i = choose|i: int|
                0 <= i < suites.len() && (#[trigger] suites[i] matches CipherSuite::Tls13(cs) && cs.id
                    == id);
            assert(suites.to_set().contains(suites[i]));
            assert(other.to_set().contains(suites[i]));
            let j = choose|j: int| 0 <= j < other.len() && other[j] == suites[i];
            assert(other[j] matches CipherSuite::Tls13(cs) && cs.id == id);
        }
        if spec_suite_offered(other, id) {
            let j = choose|j: int|
                0 <= j < other.len() && (#[trigger] other[j] matches CipherSuite::Tls13(cs) && cs.id
                    == id);
            assert(other.to_set().contains(other[j]));
            assert(suites.to_set().contains(other[j]));
            let i = choose|i: int| 0 <= i < suites.len() && suites[i] == other[j];
            assert(suites[i] matches CipherSuite::Tls13(cs) && cs.id == id);
        }
    }
}

/// The version that a `ServerHello` selects, given the version that a
/// `HelloRetryRequest` selected, if there was one: it must not have
/// changed, it must be present, and this crate must know it.
pub open spec fn spec_pick_version(hrr: Option<ProtocolVersion>, selected: Option<ProtocolVersion>) -> Result<
    Version,
    Alert,
> {
    if hrr is Some && selected != hrr {
        Err(Alert::spec_illegal_parameter())
    } else {
        match selected {
            None => Err(Alert::spec_new(AlertDesc::MissingExtension)),
            Some(v) => match spec_version_from_wire(v) {
                None => Err(Alert::spec_illegal_parameter()),
                Some(version) => Ok(version),
            },
        }
    }
}

/// The version a client settles on, given the version that a
/// `HelloRetryRequest` selected, if there was one, the version that the
/// `ServerHello` selects and the versions the client supports.
pub open spec fn spec_select_version(
    hrr: Option<ProtocolVersion>,
    selected: Option<ProtocolVersion>,
    supported: Seq<Version>,
) -> Result<Version, Alert> {
    match spec_pick_version(hrr, selected) {
        Err(a) => Err(a),
        Ok(version) => if supported.contains(version) {
            Ok(version)
        } else {
            Err(Alert::spec_illegal_parameter())
        },
    }
}

/// Checks a `ServerHello` or `HelloRetryRequest` against the suites
/// that were offered and the session ID that was sent.
pub fn check_server_hello_with(suites: &[CipherSuite], session_id: &[u8; 32], hello: &ServerHello) -> (r:
    Result<(), wire::Error>)
    ensures
        match r {
            Ok(()) => spec_check_server_hello(suites@, session_id@, hello@) is Ok,
            Err(e) => spec_check_server_hello(suites@, session_id@, hello@) == Err::<(), Alert>(e@),
        },
{
    // RFC 8446: "In TLS 1.3, the TLS server indicates its version using
    // the "supported_versions" extension (Section 4.2.1), and the
    // legacy_version field MUST be set to 0x0303, which is the version
    // number for TLS 1.2."
    if hello.legacy_version != ProtocolVersion::Tls12.to_repr() {
        return Err(wire::Error::protocol_version("`legacy_version` must be TLS 1.2"));
    }
    // RFC 8446: "legacy_compression_method: A single byte which MUST
    // have the value 0."
    if hello.legacy_compression_method != 0 {
        return Err(wire::Error::illegal_parameter("`legacy_compression_method` must be `0`"));
    }
    // RFC 8446: "A client which receives a cipher suite that was not
    // offered MUST abort the handshake with an "illegal_parameter"
    // alert."
    let id = hello.cipher_suite();
    let mut found = false;
    let mut i: usize = 0;
    while i < suites.len()
        invariant
            i <= suites@.len(),
            id == CipherSuiteId::spec_from_suite(hello@.3),
            found <==> exists|j: int|
                0 <= j < i && (#[trigger] suites@[j] matches CipherSuite::Tls13(cs) && cs.id == id),
        decreases suites@.len() - i,
    {
        match &suites[i] {
            CipherSuite::Tls13(cs) => {
                if cs.id == id {
                    found = true;
                }
            },
        }
        i += 1;
    }
    if !found {
        return Err(wire::Error::illegal_parameter("invalid cipher suite"));
    }
    // RFC 8446: "A client which receives a legacy_session_id_echo field
    // that does not match what it sent in the ClientHello MUST abort
    // the handshake with an "illegal_parameter" alert."
    if !ct_eq_bytes(hello.legacy_session_id_echo.as_slice(), session_id.as_slice()) {
        return Err(wire::Error::illegal_parameter("invalid session id"));
    }
    Ok(())
}

/// Settles on the version of the connection.
pub fn select_version(
    hrr: Option<ProtocolVersion>,
    selected: Option<ProtocolVersion>,
    supported: &[Version],
) -> (r: Result<Version, wire::Error>)
    ensures
        match r {
            Ok(v) => spec_select_version(hrr, selected, supported@) == Ok::<Version, Alert>(v),
            Err(e) => spec_select_version(hrr, selected, supported@) == Err::<Version, Alert>(e@),
        },
{
    // RFC 8446: "The value of selected_version in the HelloRetryRequest
    // "supported_versions" extension MUST be retained in the
    // ServerHello, and a client MUST abort the handshake with an
    // "illegal_parameter" alert if the value changes."
    if let Some(h) = hrr {
        let same = match selected {
            Some(s) => s == h,
            None => false,
        };
        if !same {
            return Err(wire::Error::illegal_parameter("version changed after HRR"));
        }
    }
    let version = match selected {
        Some(v) => v,
        None => return Err(wire::Error::missing_extension("supported_versions")),
    };
    let version = match Version::from_wire(version) {
        Some(v) => v,
        None => return Err(wire::Error::illegal_parameter("unsupported version")),
    };
    // RFC 8446: "If the "supported_versions" extension in the
    // ServerHello contains a version not offered by the client or
    // contains a version prior to TLS 1.3, the client MUST abort the
    // handshake with an "illegal_parameter" alert."
    let mut i: usize = 0;
    while i < supported.len()
        invariant
            i <= supported@.len(),
            spec_pick_version(hrr, selected) == Ok::<Version, Alert>(version),
            forall|j: int| 0 <= j < i ==> supported@[j] != version,
        decreases supported@.len() - i,
    {
        if supported[i] == version {
            proof {
                assert(supported@[i as int] == version);
            }
            return Ok(version);
        }
        i += 1;
    }
    Err(wire::Error::illegal_parameter("server selected unsupported version"))
}

/// The buffer for records to send.
pub struct SendBuf {
    buf: Buffer<MAX_HANDSHAKE_SIZE>,
}

impl View for SendBuf {
    type V = (Seq<u8>, nat);

    closed spec fn view(&self) -> (Seq<u8>, nat) {
        self.buf@
    }
}

impl SendBuf {
    /// The buffer is well formed.
    pub closed spec fn wf(&self) -> bool {
        self.buf.wf()
    }

    /// Creates an empty buffer.
    pub fn new() -> (r: Self)
        ensures
            r.wf(),
            r@ == (Seq::<u8>::empty(), 0nat),
    {
        Self { buf: Buffer::new() }
    }

    /// Reports whether nothing is waiting to be sent.
    pub fn is_empty(&self) -> (r: bool)
        requires
            self.wf(),
        ensures
            r == (self@.0.skip(self@.1 as int).len() == 0),
    {
        self.buf.is_empty()
    }

    /// Returns the bytes waiting to be sent.
    pub fn as_bytes(&self) -> (r: &[u8])
        requires
            self.wf(),
        ensures
            r@ == self@.0.skip(self@.1 as int),
    {
        self.buf.as_bytes()
    }

    /// Forgets the bytes that were sent.
    pub fn clear(&mut self)
        requires
            old(self).wf(),
        ensures
            final(self).wf(),
            final(self)@ == (Seq::<u8>::empty(), 0nat),
    {
        self.buf.clear();
    }

    /// Sends an alert to the peer.
    ///
    /// Records are not framed yet, so nothing is queued.
    pub fn send_alert(&mut self, alert: Alert) -> (r: Result<(), Error>)
        ensures
            r is Ok,
            *final(self) == *old(self),
    {
        self.write_record(ContentType::Alert, None, alert)
    }

    /// Writes a record.
    ///
    /// Records are not framed yet, so nothing is queued.
    fn write_record<T: TryEncode>(&mut self, _ct: ContentType, vers: Option<ProtocolVersion>, _data: T) -> (r:
        Result<(), Error>)
        ensures
            r is Ok,
            *final(self) == *old(self),
    {
        // Some servers reject records with a version other than TLS 1.0
        // in the ClientHello.
        let _vers = match vers {
            Some(v) => v,
            None => ProtocolVersion::Tls10,
        };
        Ok(())
    }
}

/// The buffers for records received.
pub struct RecvBuf {
    /// Scratch space for reading record headers.
    hdr: Buffer<5>,
    /// Contains N record fragments.
    buf: Buffer<MAX_HANDSHAKE_SIZE>,
    /// The number of consecutive useless records read.
    useless: usize,
}

impl View for RecvBuf {
    /// The header buffer, the fragment buffer and the number of
    /// consecutive useless records.
    type V = ((Seq<u8>, nat), (Seq<u8>, nat), nat);

    closed spec fn view(&self) -> ((Seq<u8>, nat), (Seq<u8>, nat), nat) {
        (self.hdr@, self.buf@, self.useless as nat)
    }
}

/// The unread part of a buffer's view.
pub open spec fn spec_unread(b: (Seq<u8>, nat)) -> Seq<u8> {
    b.0.skip(b.1 as int)
}

/// The outcome of reading a `T` from the unread part of a buffer's
/// view: what was read, and the buffer after it.
pub open spec fn spec_read_type<'a, T: TryParse<'a>>(b: (Seq<u8>, nat)) -> Result<
    (<T as View>::V, (Seq<u8>, nat)),
    (),
> {
    let unread = spec_unread(b);
    let size = if T::spec_size().1 <= unread.len() {
        T::spec_size().1
    } else {
        unread.len()
    };
    match T::spec_parse(unread.take(size as int)) {
        Ok((v, n)) => Ok((v, (b.0, b.1 + n))),
        Err(_) => Err(()),
    }
}

impl RecvBuf {
    /// The buffers are well formed.
    pub closed spec fn wf(&self) -> bool {
        self.hdr.wf() && self.buf.wf()
    }

    /// The view of empty buffers.
    pub open spec fn spec_empty() -> ((Seq<u8>, nat), (Seq<u8>, nat), nat) {
        ((Seq::empty(), 0nat), (Seq::empty(), 0nat), 0nat)
    }

    /// Creates empty buffers.
    pub fn new() -> (r: Self)
        ensures
            r.wf(),
            r@ == Self::spec_empty(),
    {
        Self { hdr: Buffer::new(), buf: Buffer::new(), useless: 0 }
    }

    /// Returns the length of the unread portion of the buffer.
    pub fn len(&self) -> (r: usize)
        requires
            self.wf(),
        ensures
            r == spec_unread(self@.1).len(),
    {
        self.buf.len()
    }

    /// Returns the unread portion of the buffer.
    pub fn as_bytes(&self) -> (r: &[u8])
        requires
            self.wf(),
        ensures
            r@ == spec_unread(self@.1),
    {
        self.buf.as_bytes()
    }

    /// Reads a `T` from the buffer.
    pub fn read_type<'a, T: TryParse<'a>>(&'a mut self) -> (r: Result<T, Error>)
        requires
            old(self).wf(),
        ensures
            final(self).wf(),
            final(self)@.0 == old(self)@.0,
            final(self)@.2 == old(self)@.2,
            match spec_read_type::<T>(old(self)@.1) {
                Ok((v, b)) => r matches Ok(x) && x@ == v && final(self)@.1 == b,
                Err(()) => r matches Err(e) && (e@ == ErrorKind::Wire) && final(self)@.1 == old(self)@.1,
            },
    {
        self.buf.read_type::<T>()
    }

    /// Starts reading a record: fails if too many useless records came
    /// in a row, else empties the header buffer.
    pub fn start_record(&mut self) -> (r: Result<(), Error>)
        requires
            old(self).wf(),
        ensures
            final(self).wf(),
            r is Err <==> old(self)@.2 > MAX_USELESS_RECORDS,
            r matches Err(e) ==> (e@ == ErrorKind::Wire) && final(self)@ == old(self)@,
            r is Ok ==> final(self)@ == ((Seq::<u8>::empty(), 0nat), old(self)@.1, old(self)@.2),
    {
        if self.useless > MAX_USELESS_RECORDS {
            return Err(Error::wire(wire::Error::unexpected_message("too many useless records")));
        }
        self.hdr.clear();
        Ok(())
    }

    /// Takes the bytes of a record header.
    pub fn write_header(&mut self, bytes: &[u8]) -> (r: Result<(), Error>)
        requires
            old(self).wf(),
        ensures
            final(self).wf(),
            r is Ok <==> old(self)@.0.0.len() + bytes@.len() <= 5,
            r is Ok ==> final(self)@ == ((old(self)@.0.0 + bytes@, old(self)@.0.1), old(self)@.1, old(self)@.2),
            r matches Err(e) ==> (e@ == ErrorKind::Bug) && final(self)@ == old(self)@,
    {
        match self.hdr.write(bytes) {
            Ok(()) => Ok(()),
            Err(_) => Err(Error::new(ErrorKind::Bug)),
        }
    }

    /// Checks the record header that was taken: an alert is refused,
    /// a `change_cipher_spec` record may be useless, and any other
    /// record is not.
    pub fn finish_record_header(&mut self) -> (r: Result<RecordHeader, Error>)
        requires
            old(self).wf(),
        ensures
            final(self).wf(),
            final(self)@.0 == old(self)@.0,
            final(self)@.1 == old(self)@.1,
            match spec_read_type::<RecordHeader>(old(self)@.0) {
                Ok((hdr, _)) => match hdr.0 {
                    ContentType::Alert => r matches Err(e) && (e@ == ErrorKind::Wire) && final(self)@.2 == old(self)@.2,
                    ContentType::ChangeCipherSpec => r matches Ok(h) && h@ == hdr && final(self)@.2 == old(self)@.2,
                    _ => r matches Ok(h) && h@ == hdr && final(self)@.2 == 0,
                },
                Err(()) => r matches Err(e) && (e@ == ErrorKind::Wire) && final(self)@.2 == old(self)@.2,
            },
    {
        let hdr = match self.hdr.peek_type::<RecordHeader>() {
            Ok(h) => h,
            Err(e) => return Err(e),
        };
        match hdr.content_type {
            ContentType::Alert => {
                // RFC 8446: "Alert messages (Section 6) MUST NOT be
                // fragmented across records, and multiple alert
                // messages MUST NOT be coalesced into a single
                // TLSPlaintext record. In other words, a record with an
                // Alert type MUST contain exactly one message."
                return if hdr.length > Alert::SIZE {
                    Err(Error::wire(wire::Error::decode_error("alert larger than one alert")))
                } else {
                    Err(Error::wire(wire::Error::decode_error("alert must not be fragmented")))
                };
            },
            // A `change_cipher_spec` record might be useless during the
            // handshake.
            ContentType::ChangeCipherSpec => {},
            // Other record types aren't useless.
            _ => self.useless = 0,
        }
        Ok(hdr)
    }

    /// Takes the bytes of a record fragment.
    pub fn write_fragment(&mut self, bytes: &[u8]) -> (r: Result<(), Error>)
        requires
            old(self).wf(),
        ensures
            final(self).wf(),
            r is Ok <==> old(self)@.1.0.len() + bytes@.len() <= MAX_HANDSHAKE_SIZE,
            r is Ok ==> final(self)@ == (old(self)@.0, (old(self)@.1.0 + bytes@, old(self)@.1.1), old(self)@.2),
            r matches Err(e) ==> (e@ == ErrorKind::Bug) && final(self)@ == old(self)@,
    {
        match self.buf.write(bytes) {
            Ok(()) => Ok(()),
            Err(_) => Err(Error::new(ErrorKind::Bug)),
        }
    }
}

/// What the handshake does with a record that was read while it waits
/// for handshake bytes: take it as handshake data, or read the byte of
/// a `change_cipher_spec` record; anything else is an error.
pub open spec fn spec_handshake_record(hdr: (ContentType, ProtocolVersion, nat)) -> Result<
    bool,
    Alert,
> {
    match hdr.0 {
        ContentType::Handshake => if hdr.2 == 0 {
            Err(Alert::spec_decode_error())
        } else {
            Ok(false)
        },
        ContentType::ChangeCipherSpec => if hdr.2 == 1 {
            Ok(true)
        } else {
            Err(Alert::spec_new(AlertDesc::UnexpectedMessage))
        },
        _ => Err(Alert::spec_new(AlertDesc::UnexpectedMessage)),
    }
}

/// A TLS connection before the handshake has been completed.
pub struct NeedHandshake<'a> {
    cfg: &'a dyn ClientConfig,
    /// The cipher suites offered, as the configuration gave them.
    suites: &'a [CipherSuite],
    /// The versions supported, as the configuration gave them.
    versions: &'a [Version],
    send: SendBuf,
    recv: RecvBuf,
}

impl<'a> NeedHandshake<'a> {
    /// The buffers are well formed.
    pub closed spec fn wf(&self) -> bool {
        self.send.wf() && self.recv.wf()
    }

    /// The buffers for records received.
    pub closed spec fn spec_recv(&self) -> ((Seq<u8>, nat), (Seq<u8>, nat), nat) {
        self.recv@
    }

    /// The buffer for records to send.
    pub closed spec fn spec_send(&self) -> (Seq<u8>, nat) {
        self.send@
    }

    /// The cipher suites that the client offered and the versions it
    /// supports, as the configuration gave them when the connection was
    /// made.
    pub closed spec fn spec_config(&self) -> (Seq<CipherSuite>, Seq<Version>) {
        (self.suites@, self.versions@)
    }

    /// Builds the `ClientHello` to send, with `id` as its legacy session
    /// ID.
    pub fn client_hello<'b>(&self, id: [u8; 32], out: &'b mut [u8]) -> (r: Result<&'b [u8], Error>)
        ensures
            r matches Err(e) && e@ == ErrorKind::Wire,
    {
        let builder = HelloBuilder::new().with_alpn(self.cfg.alpn()).with_early_data(
            self.cfg.early_data(),
        ).with_legacy_session_id(id);
        let builder = match self.cfg.max_fragment_length() {
            Some(len) => builder.with_max_fragment_length(len),
            None => builder,
        };
        match builder.build(out) {
            Ok(hello) => Ok(hello),
            Err(e) => Err(Error::wire(e)),
        }
    }

    /// Starts reading a record.
    pub fn begin_record(&mut self) -> (r: Result<(), Error>)
        requires
            old(self).wf(),
        ensures
            final(self).wf(),
            final(self).spec_config() == old(self).spec_config(),
            final(self).spec_send() == old(self).spec_send(),
            r is Err <==> old(self).spec_recv().2 > MAX_USELESS_RECORDS,
            r matches Err(e) ==> (e@ == ErrorKind::Wire) && final(self).spec_recv() == old(self).spec_recv(),
            r is Ok ==> final(self).spec_recv() == (
                (Seq::<u8>::empty(), 0nat),
                old(self).spec_recv().1,
                old(self).spec_recv().2,
            ),
    {
        self.recv.start_record()
    }

    /// Takes the bytes of a record header and checks the header.
    pub fn record_header(&mut self, bytes: &[u8]) -> (r: Result<RecordHeader, Error>)
        requires
            old(self).wf(),
        ensures
            final(self).wf(),
            final(self).spec_config() == old(self).spec_config(),
            final(self).spec_send() == old(self).spec_send(),
            final(self).spec_recv().1 == old(self).spec_recv().1,
            old(self).spec_recv().0.0.len() + bytes@.len() > 5 ==> (r matches Err(e) && e@
                == ErrorKind::Bug),
            old(self).spec_recv().0.0.len() + bytes@.len() > 5 ==> final(self).spec_recv()
                == old(self).spec_recv(),
            old(self).spec_recv().0.0.len() + bytes@.len() <= 5 ==> ({
                let taken = (old(self).spec_recv().0.0 + bytes@, old(self).spec_recv().0.1);
                &&& final(self).spec_recv().0 == taken
                &&& match spec_read_type::<RecordHeader>(taken) {
                    Ok((v, _)) => match v.0 {
                        ContentType::Alert => r matches Err(e) && (e@ == ErrorKind::Wire)
                            && final(self).spec_recv().2 == old(self).spec_recv().2,
                        ContentType::ChangeCipherSpec => r matches Ok(h) && h@ == v
                            && final(self).spec_recv().2 == old(self).spec_recv().2,
                        _ => r matches Ok(h) && h@ == v && final(self).spec_recv().2 == 0,
                    },
                    Err(()) => r matches Err(e) && (e@ == ErrorKind::Wire)
                        && final(self).spec_recv().2 == old(self).spec_recv().2,
                }
            }),
    {
        match self.recv.write_header(bytes) {
            Ok(()) => {},
            Err(e) => return Err(e),
        }
        self.recv.finish_record_header()
    }

    /// Takes the fragment of a handshake record as handshake bytes.
    pub fn record_fragment(&mut self, bytes: &[u8]) -> (r: Result<(), Error>)
        requires
            old(self).wf(),
        ensures
            final(self).wf(),
            final(self).spec_config() == old(self).spec_config(),
            final(self).spec_send() == old(self).spec_send(),
            r is Ok <==> old(self).spec_recv().1.0.len() + bytes@.len() <= MAX_HANDSHAKE_SIZE,
            r is Ok ==> final(self).spec_recv() == (
                old(self).spec_recv().0,
                (old(self).spec_recv().1.0 + bytes@, old(self).spec_recv().1.1),
                old(self).spec_recv().2,
            ),
            r matches Err(e) ==> (e@ == ErrorKind::Bug) && final(self).spec_recv() == old(self).spec_recv(),
    {
        self.recv.write_fragment(bytes)
    }

    /// Decides what to do with a record read while waiting for
    /// handshake bytes: `Ok(false)` takes it as handshake data,
    /// `Ok(true)` asks for the byte of a `change_cipher_spec` record.
    pub fn handshake_record(&self, hdr: &RecordHeader) -> (r: Result<bool, Error>)
        ensures
            match spec_handshake_record(hdr@) {
                Ok(b) => r == Ok::<bool, Error>(b),
                Err(_) => r matches Err(e) && e@ == ErrorKind::Wire,
            },
    {
        match hdr.content_type {
            ContentType::Handshake => {},
            ContentType::ChangeCipherSpec => {
                // RFC 8446: "An implementation may receive an
                // unencrypted record of type change_cipher_spec
                // consisting of the single byte value 0x01 at any time
                // after the first ClientHello message has been sent or
                // received and before the peer's Finished message has
                // been received and MUST simply drop it without further
                // processing."
                if hdr.length == 1 {
                    return Ok(true);
                }
                // RFC 8446: "An implementation which receives any other
                // change_cipher_spec value or which receives a protected
                // change_cipher_spec record MUST abort the handshake
                // with an "unexpected_message" alert."
                return Err(Error::wire(wire::Error::unexpected_message("invalid `ChangeCipherSpec`")));
            },
            _ => {
                // RFC 8446: "Handshake messages MUST NOT be interleaved
                // with other record types. That is, if a handshake
                // message is split over two or more records, there MUST
                // NOT be any other records between them."
                return Err(
                    Error::wire(
                        wire::Error::unexpected_message("non-handshake message during handshake"),
                    ),
                );
            },
        }
        if hdr.length == 0 {
            // RFC 8446: "Implementations MUST NOT send zero-length
            // fragments of Handshake types, even if those fragments
            // contain padding."
            return Err(Error::wire(wire::Error::decode_error("zero-length handshake fragment")));
        }
        Ok(false)
    }

    /// Takes the body of a one-byte `change_cipher_spec` record. A body
    /// of 0x01 is dropped and the record counted as useless; any other
    /// body is refused. The handshake bytes stay as they were.
    pub fn ccs_byte(&mut self, byte: &[u8]) -> (r: Result<(), Error>)
        requires
            old(self).wf(),
            old(self).spec_recv().2 <= MAX_USELESS_RECORDS,
        ensures
            final(self).wf(),
            final(self).spec_config() == old(self).spec_config(),
            final(self).spec_send() == old(self).spec_send(),
            final(self).spec_recv().0 == old(self).spec_recv().0,
            final(self).spec_recv().1 == old(self).spec_recv().1,
            byte@ == seq![1u8] ==> r is Ok && final(self).spec_recv().2 == old(self).spec_recv().2
                + 1,
            byte@ != seq![1u8] ==> (r matches Err(e) && e@ == ErrorKind::Wire),
            byte@ != seq![1u8] ==> final(self).spec_recv().2 == old(self).spec_recv().2,
    {
        // RFC 8446: "An implementation may receive an unencrypted record
        // of type change_cipher_spec consisting of the single byte value
        // 0x01 [...] and MUST simply drop it without further
        // processing."
        if byte.len() == 1 && byte[0] == 1 {
            self.recv.useless = self.recv.useless + 1;
            proof {
                assert(byte@ =~= seq![1u8]);
            }
            Ok(())
        } else {
            // RFC 8446: "An implementation which receives any other
            // change_cipher_spec value [...] MUST abort the handshake
            // with an "unexpected_message" alert."
            proof {
                if byte@.len() == 1 {
                    assert(byte@[0] != 1);
                    assert(byte@ != seq![1u8]);
                }
            }
            Err(Error::wire(wire::Error::unexpected_message("invalid `ChangeCipherSpec`")))
        }
    }

    /// Reports whether fewer than `n` handshake bytes are buffered, so
    /// that another record must be read before `n` bytes can be.
    pub fn needs_bytes(&self, n: usize) -> (r: bool)
        requires
            self.wf(),
        ensures
            r == (spec_unread(self.spec_recv().1).len() < n),
    {
        self.recv.len() < n
    }

    /// Returns the number of handshake bytes received but not yet read.
    pub fn buffered_len(&self) -> (r: usize)
        requires
            self.wf(),
        ensures
            r == spec_unread(self.spec_recv().1).len(),
    {
        self.recv.len()
    }

    /// Reads the header of a handshake message.
    pub fn read_handshake_header(&mut self) -> (r: Result<HandshakeHeader, Error>)
        requires
            old(self).wf(),
        ensures
            final(self).wf(),
            final(self).spec_config() == old(self).spec_config(),
            final(self).spec_send() == old(self).spec_send(),
            final(self).spec_recv().0 == old(self).spec_recv().0,
            final(self).spec_recv().2 == old(self).spec_recv().2,
            match spec_read_type::<HandshakeHeader>(old(self).spec_recv().1) {
                Ok((v, b)) => r matches Ok(h) && h@ == v && final(self).spec_recv().1 == b,
                Err(()) => r matches Err(e) && (e@ == ErrorKind::Wire) && final(self).spec_recv().1
                    == old(self).spec_recv().1,
            },
    {
        self.recv.read_type::<HandshakeHeader>()
    }

    /// Checks that a handshake message is a `ServerHello`.
    pub fn expect_server_hello(hdr: &HandshakeHeader) -> (r: Result<(), Error>)
        ensures
            r is Ok <==> hdr.msg_type == HandshakeType::ServerHello,
            r matches Err(e) ==> e@ == ErrorKind::Wire,
    {
        if hdr.msg_type != HandshakeType::ServerHello {
            return Err(Error::wire(wire::Error::unexpected_message("expected `ServerHello`")));
        }
        Ok(())
    }

    /// Checks a `ServerHello` or `HelloRetryRequest` against the
    /// `ClientHello` that was sent.
    pub fn check_server_hello(&self, ctx: &SentClientHello, hello: &ServerHello) -> (r: Result<(), Error>)
        ensures
            r is Ok <==> spec_check_server_hello(self.spec_config().0, ctx.session_id@, hello@) is Ok,
            r is Ok ==> hello@.0 == 0x0303 && hello@.4 == 0 && hello@.2 == ctx.session_id@,
            r matches Err(e) ==> e@ == ErrorKind::Wire,
    {
        match check_server_hello_with(self.suites, &ctx.session_id, hello) {
            Ok(()) => Ok(()),
            Err(e) => Err(Error::wire(e)),
        }
    }

    /// Reads a `ServerHello` and checks it; returns whether it is a
    /// `HelloRetryRequest`. After a `HelloRetryRequest`, a second one is
    /// refused.
    pub fn read_server_hello(&mut self, ctx: &SentClientHello, after_hrr: bool) -> (r: Result<bool, Error>)
        requires
            old(self).wf(),
        ensures
            final(self).wf(),
            final(self).spec_config() == old(self).spec_config(),
            final(self).spec_send() == old(self).spec_send(),
            final(self).spec_recv().0 == old(self).spec_recv().0,
            final(self).spec_recv().2 == old(self).spec_recv().2,
            r matches Err(e) ==> e@ == ErrorKind::Wire,
            match spec_read_type::<ServerHello>(old(self).spec_recv().1) {
                Ok((hello, b)) => {
                    &&& final(self).spec_recv().1 == b
                    &&& r matches Ok(hrr) ==> hrr == (hello.1 == wire::tls13::spec_hrr_random())
                        && !(hrr && after_hrr) && hello.0 == 0x0303 && hello.4 == 0 && hello.2
                        == ctx.session_id@
                    &&& hello.1 == wire::tls13::spec_hrr_random() && after_hrr ==> r is Err
                    &&& !(hello.1 == wire::tls13::spec_hrr_random() && after_hrr) ==> (r is Ok
                        <==> spec_check_server_hello(old(self).spec_config().0, ctx.session_id@, hello)
                        is Ok)
                },
                Err(()) => r is Err && final(self).spec_recv().1 == old(self).spec_recv().1,
            },
    {
        let hello = match self.recv.read_type::<ServerHello>() {
            Ok(h) => h,
            Err(e) => return Err(e),
        };
        // RFC 8446: "Upon receiving a message with type server_hello,
        // implementations MUST first examine the Random value and, if it
        // matches [the HRR constant], process it as described in Section
        // 4.1.4)."
        let hrr = hello.is_hello_retry_request();
        if hrr && after_hrr {
            // RFC 8446: "If a client receives a second HelloRetryRequest
            // in the same connection (i.e., where the ClientHello was
            // itself in response to a HelloRetryRequest), it MUST abort
            // the handshake with an "unexpected_message" alert."
            return Err(
                Error::wire(wire::Error::unexpected_message("received multiple `HelloRetryRequest`")),
            );
        }
        // RFC 8446: "Upon receipt of a HelloRetryRequest, the client MUST
        // check the legacy_version, legacy_session_id_echo, cipher_suite,
        // and legacy_compression_method as specified in Section 4.1.3 and
        // then process the extensions, starting with determining the
        // version using "supported_versions"."
        match self.check_server_hello(ctx, &hello) {
            Ok(()) => {},
            Err(e) => return Err(e),
        }
        Ok(hrr)
    }

    /// Reads the extensions of a `HelloRetryRequest` and returns the
    /// version that it selects.
    pub fn read_hrr_extensions(&mut self) -> (r: Result<ProtocolVersion, Error>)
        requires
            old(self).wf(),
        ensures
            final(self).wf(),
            final(self).spec_config() == old(self).spec_config(),
            final(self).spec_send() == old(self).spec_send(),
            final(self).spec_recv().0 == old(self).spec_recv().0,
            final(self).spec_recv().2 == old(self).spec_recv().2,
            match spec_read_type::<ServerHelloExtensions<'static>>(old(self).spec_recv().1) {
                Ok((items, b)) => {
                    &&& final(self).spec_recv().1 == b
                    &&& match spec_selected_version(items) {
                        // RFC 8446: "The server's extensions MUST contain
                        // "supported_versions"."
                        Some(v) => r == Ok::<ProtocolVersion, Error>(v),
                        None => r matches Err(e) && e@ == ErrorKind::Wire,
                    }
                },
                Err(()) => r matches Err(e) && (e@ == ErrorKind::Wire) && final(self).spec_recv().1
                    == old(self).spec_recv().1,
            },
    {
        let exts = match self.recv.read_type::<ServerHelloExtensions<'_>>() {
            Ok(x) => x,
            Err(e) => return Err(e),
        };
        match exts.selected_version() {
            Some(v) => Ok(v),
            None => Err(Error::wire(wire::Error::missing_extension("supported_versions"))),
        }
    }

    /// Reads the extensions of a `ServerHello` and settles on the
    /// version of the connection, given the version that a
    /// `HelloRetryRequest` selected, if there was one.
    pub fn read_server_hello_extensions(&mut self, hrr: Option<ProtocolVersion>) -> (r: Result<
        Version,
        Error,
    >)
        requires
            old(self).wf(),
        ensures
            final(self).wf(),
            final(self).spec_config() == old(self).spec_config(),
            final(self).spec_send() == old(self).spec_send(),
            final(self).spec_recv().0 == old(self).spec_recv().0,
            final(self).spec_recv().2 == old(self).spec_recv().2,
            r matches Err(e) ==> e@ == ErrorKind::Wire,
            match spec_read_type::<ServerHelloExtensions<'static>>(old(self).spec_recv().1) {
                Ok((items, b)) => {
                    &&& final(self).spec_recv().1 == b
                    &&& r matches Ok(v) ==> spec_pick_version(hrr, spec_selected_version(items))
                        == Ok::<Version, Alert>(v)
                    &&& spec_pick_version(hrr, spec_selected_version(items)) is Err ==> r is Err
                    &&& match spec_select_version(hrr, spec_selected_version(items), old(self).spec_config().1) {
                        Ok(v) => r matches Ok(x) && x == v,
                        Err(_) => r is Err,
                    }
                },
                Err(()) => r is Err && final(self).spec_recv().1 == old(self).spec_recv().1,
            },
    {
        let selected = match self.recv.read_type::<ServerHelloExtensions<'_>>() {
            Ok(exts) => exts.selected_version(),
            Err(e) => return Err(e),
        };
        match select_version(hrr, selected, self.versions) {
            Ok(v) => Ok(v),
            Err(e) => Err(Error::wire(e)),
        }
    }

    /// Queues the dummy `change_cipher_spec` record of RFC 8446 Appendix
    /// D.4, and returns the bytes waiting to be sent.
    pub fn queue_dummy_ccs(&mut self) -> (r: Result<&[u8], Error>)
        requires
            old(self).wf(),
        ensures
            final(self).wf(),
            final(self).spec_config() == old(self).spec_config(),
            final(self).spec_recv() == old(self).spec_recv(),
            final(self).spec_send() == old(self).spec_send(),
            r matches Ok(b) && b@ == spec_unread(old(self).spec_send()),
    {
        let ccs: [u8; 1] = [1u8];
        match self.send.write_record(ContentType::ChangeCipherSpec, None, ccs) {
            Ok(()) => {},
            Err(e) => return Err(e),
        }
        Ok(self.send.as_bytes())
    }

    /// Forgets the bytes that were sent.
    pub fn clear_sent(&mut self)
        requires
            old(self).wf(),
        ensures
            final(self).wf(),
            final(self).spec_config() == old(self).spec_config(),
            final(self).spec_recv() == old(self).spec_recv(),
            final(self).spec_send() == (Seq::<u8>::empty(), 0nat),
    {
        self.send.clear();
    }

    /// Completes the handshake.
    pub fn into_conn(self) -> (r: Conn<'a>) {
        Conn { cfg: self.cfg }
    }
}

} // verus!
