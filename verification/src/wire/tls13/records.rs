//! Records and handshake messages.

use vstd::prelude::*;

use crate::wire::{
    alert::{Alert, AlertDesc},
    error::Error,
    parse::{parse_all_outcome, parsed_as, split_prefix, ParseOutcome, TryParse},
    tls13::ClientHello,
    ContentType, HandshakeHeader, HandshakeType, ProtocolVersion, TLSPlaintext,
};

verus! {

/// A TLS record: its header and its fragment.
#[derive(Copy, Clone, Debug)]
pub struct Record<'a> {
    ct: ContentType,
    version: ProtocolVersion,
    length: usize,
    data: &'a [u8],
}

impl<'a> View for Record<'a> {
    type V = (ContentType, ProtocolVersion, nat, Seq<u8>);

    closed spec fn view(&self) -> (ContentType, ProtocolVersion, nat, Seq<u8>) {
        (self.ct, self.version, self.length as nat, self.data@)
    }
}

/// What reading a record from `data` gives: its header, whose length
/// must not exceed 2^14 bytes, and the fragment of that length after it.
pub open spec fn spec_record_parse(data: Seq<u8>) -> ParseOutcome<
    (ContentType, ProtocolVersion, nat, Seq<u8>),
> {
    match <TLSPlaintext as TryParse<'static>>::spec_parse(data) {
        Ok(((ct, version, length), n)) => if length > 0x4000 {
            Err(Alert::spec_new(AlertDesc::RecordOverflow))
        } else if n + length > data.len() {
            Err(Alert::spec_decode_error())
        } else {
            Ok(((ct, version, length as nat, data.subrange(n as int, n + length)), (n + length) as nat))
        },
        Err(a) => Err(a),
    }
}

impl<'a> Record<'a> {
    /// Returns the content type.
    pub fn content_type(&self) -> (r: ContentType)
        ensures
            r == self@.0,
    {
        self.ct
    }

    /// Returns the legacy record version.
    pub fn version(&self) -> (r: ProtocolVersion)
        ensures
            r == self@.1,
    {
        self.version
    }

    /// Returns the length of the fragment.
    pub fn length(&self) -> (r: usize)
        ensures
            r == self@.2,
    {
        self.length
    }

    /// Returns the fragment.
    pub fn data(&self) -> (r: &'a [u8])
        ensures
            r@ == self@.3,
    {
        self.data
    }

    /// Reads a record from `data`, and returns it and the data after
    /// it.
    pub fn try_parse(data: &'a [u8]) -> (r: Result<(Record<'a>, &'a [u8]), Error>)
        ensures
            parsed_as::<Record<'a>>(spec_record_parse(data@), data@, r),
    {
        let (hdr, rest) = match TLSPlaintext::try_parse(data) {
            Ok(x) => x,
            Err(e) => return Err(e),
        };
        proof {
            <TLSPlaintext as TryParse<'a>>::lemma_parse_bounds(data@);
        }
        // RFC 8446: "The length MUST NOT exceed 2^14 bytes."
        if hdr.length > 0x4000 {
            return Err(Error::record_overflow("length not in [0, 2^14]"));
        }
        let length = hdr.length as usize;
        if rest.len() < length {
            return Err(Error::unexpected_eof());
        }
        let (fragment, rest) = split_prefix(rest, length);
        proof {
            let n = data@.len() - rest@.len() - length;
            assert(fragment@ =~= data@.subrange(n, n + length));
            assert(rest@ =~= data@.skip(n + length));
        }
        Ok((Record { ct: hdr.type_, version: hdr.legacy_record_version, length, data: fragment }, rest))
    }
}

/// A handshake message.
#[derive(Copy, Clone, Debug)]
pub enum Handshake<'a> {
    ClientHello(ClientHello<'a>),
    ServerHello,
    EncryptedExtensions,
    Certificate,
    CertificateRequest,
    Finished,
}

/// What a [`Handshake`] holds.
pub enum HandshakeView {
    ClientHello((u16, Seq<u8>, Seq<u8>, Seq<u8>, Seq<u8>, Seq<u8>)),
    ServerHello,
    EncryptedExtensions,
    Certificate,
    CertificateRequest,
    Finished,
}

impl<'a> View for Handshake<'a> {
    type V = HandshakeView;

    open spec fn view(&self) -> HandshakeView {
        match self {
            Handshake::ClientHello(h) => HandshakeView::ClientHello(h@),
            Handshake::ServerHello => HandshakeView::ServerHello,
            Handshake::EncryptedExtensions => HandshakeView::EncryptedExtensions,
            Handshake::Certificate => HandshakeView::Certificate,
            Handshake::CertificateRequest => HandshakeView::CertificateRequest,
            Handshake::Finished => HandshakeView::Finished,
        }
    }
}

/// What reading a handshake message from `data` gives: its header, and
/// the body of the length it gives after it. A `ClientHello` body must
/// parse as a whole; the bodies of the server's first messages are taken
/// but not read; other types are refused.
pub open spec fn spec_handshake_parse(data: Seq<u8>) -> ParseOutcome<HandshakeView> {
    match <HandshakeHeader as TryParse<'static>>::spec_parse(data) {
        Ok(((ty, length), n)) => if n + length > data.len() {
            Err(Alert::spec_decode_error())
        } else {
            let body = data.subrange(n as int, (n + length) as int);
            let taken = (n + length) as nat;
            match ty {
                HandshakeType::ClientHello => match parse_all_outcome(
                    <ClientHello<'static> as TryParse<'static>>::spec_parse(body),
                    body,
                ) {
                    Ok(v) => Ok((HandshakeView::ClientHello(v), taken)),
                    Err(a) => Err(a),
                },
                HandshakeType::ServerHello => Ok((HandshakeView::ServerHello, taken)),
                HandshakeType::EncryptedExtensions => Ok((HandshakeView::EncryptedExtensions, taken)),
                HandshakeType::Certificate => Ok((HandshakeView::Certificate, taken)),
                HandshakeType::CertificateRequest => Ok((HandshakeView::CertificateRequest, taken)),
                HandshakeType::Finished => Ok((HandshakeView::Finished, taken)),
                _ => Err(Alert::spec_new(AlertDesc::UnexpectedMessage)),
            }
        },
        Err(a) => Err(a),
    }
}

impl<'a> Handshake<'a> {
    /// Reads a handshake message from `data`, and returns it and the data
    /// after it.
    pub fn try_parse(data: &'a [u8]) -> (r: Result<(Handshake<'a>, &'a [u8]), Error>)
        ensures
            parsed_as::<Handshake<'a>>(spec_handshake_parse(data@), data@, r),
    {
        let (hdr, rest) = match HandshakeHeader::try_parse(data) {
            Ok(x) => x,
            Err(e) => return Err(e),
        };
        proof {
            <HandshakeHeader as TryParse<'a>>::lemma_parse_bounds(data@);
        }
        let length = hdr.length.to_usize();
        if rest.len() < length {
            return Err(Error::unexpected_eof());
        }
        let (body, rest) = split_prefix(rest, length);
        proof {
            let n = data@.len() - rest@.len() - length;
            assert(body@ =~= data@.subrange(n, n + length));
            assert(rest@ =~= data@.skip(n + length));
        }
        let msg = match hdr.msg_type {
            HandshakeType::ClientHello => match ClientHello::try_parse_all(body) {
                Ok(v) => Handshake::ClientHello(v),
                Err(e) => return Err(e),
            },
            HandshakeType::ServerHello => Handshake::ServerHello,
            HandshakeType::EncryptedExtensions => Handshake::EncryptedExtensions,
            HandshakeType::Certificate => Handshake::Certificate,
            HandshakeType::CertificateRequest => Handshake::CertificateRequest,
            HandshakeType::Finished => Handshake::Finished,
            _ => return Err(Error::unexpected_message("unexpected handshake type")),
        };
        Ok((msg, rest))
    }
}

} // verus!

verus! {

/// The wire code of the type of a handshake message (RFC 8446, section
/// 4): 1 for `client_hello`, 2 for `server_hello`, 8 for
/// `encrypted_extensions`, 11 for `certificate`, 13 for
/// `certificate_request` and 20 for `finished`.
pub open spec fn spec_handshake_code(v: HandshakeView) -> u8 {
    match v {
        HandshakeView::ClientHello(_) => 1,
        HandshakeView::ServerHello => 2,
        HandshakeView::EncryptedExtensions => 8,
        HandshakeView::Certificate => 11,
        HandshakeView::CertificateRequest => 13,
        HandshakeView::Finished => 20,
    }
}

/// A handshake message is read as the message of the type its first byte
/// names, and takes its four-byte header and the number of body bytes
/// the header gives. A message of one of the server's first types whose
/// body is all there is read as the message of that type.
pub proof fn lemma_handshake_type(data: Seq<u8>)
    ensures
        spec_handshake_parse(data) matches Ok((v, n)) ==> data.len() >= 4 && data[0]
            == spec_handshake_code(v) && n == 4 + crate::wire::parse::spec_be24(data.skip(1)),
        data.len() >= 4 && (data[0] == 2 || data[0] == 8 || data[0] == 11 || data[0] == 13
            || data[0] == 20) && 4 + crate::wire::parse::spec_be24(data.skip(1)) <= data.len()
            ==> (spec_handshake_parse(data) matches Ok((v, n)) && spec_handshake_code(v) == data[0]
            && n == 4 + crate::wire::parse::spec_be24(data.skip(1))),
{
    if data.len() >= 4 {
        assert(data.skip(1)[0] == data[1] && data.skip(1)[1] == data[2] && data.skip(1)[2]
            == data[3]);
    }
}

} // verus!

verus! {

/// A record is read as its five-byte header and the fragment after it,
/// whose length the header's last two bytes give (RFC 8446, section
/// 5.1): the record takes the header and the fragment, its content type
/// is the one the first byte names, and its length is at most 2^14; a
/// header that gives a longer length is refused with `record_overflow`.
pub proof fn lemma_record_layout(data: Seq<u8>)
    ensures
        spec_record_parse(data) matches Ok((v, n)) ==> {
            &&& data.len() >= 5
            &&& v.0.spec_to_repr() == data[0]
            &&& v.2 == data[3] * 0x100 + data[4]
            &&& v.2 <= 0x4000
            &&& n == 5 + v.2
            &&& v.3 == data.subrange(5, n as int)
        },
        data.len() >= 5 && <TLSPlaintext as TryParse<'static>>::spec_parse(data) is Ok && data[3]
            * 0x100 + data[4] > 0x4000 ==> (spec_record_parse(data) matches Err(a) && a
            == Alert::spec_new(AlertDesc::RecordOverflow)),
{
    if data.len() >= 5 {
        assert(data.skip(1)[0] == data[1] && data.skip(1)[1] == data[2]);
        assert(data.skip(3)[0] == data[3] && data.skip(3)[1] == data[4]);
        if let Ok((ct, _)) = <ContentType as TryParse<'static>>::spec_parse(data) {
            ContentType::lemma_repr_roundtrip(ct, data[0]);
        }
    }
}

} // verus!
