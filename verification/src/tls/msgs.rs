//! Record and handshake headers, checked against the limits of the
//! protocol.

use vstd::prelude::*;

use crate::wire::{
    self,
    alert::{Alert, AlertDesc},
    parse::{parse_all_outcome, ParseOutcome},
    size::{Object, Size},
    ContentType, Error, HandshakeType, ProtocolVersion, TLSPlaintext, TryParse,
};

verus! {

/// The largest record fragment: 2^14 bytes.
pub const MAX_FRAGMENT_SIZE: usize = 1 << 14;

/// The header of a record.
#[derive(Copy, Clone, Debug)]
pub struct RecordHeader {
    pub content_type: ContentType,
    pub legacy_record_version: ProtocolVersion,
    pub length: usize,
}

impl View for RecordHeader {
    type V = (ContentType, ProtocolVersion, nat);

    open spec fn view(&self) -> (ContentType, ProtocolVersion, nat) {
        (self.content_type, self.legacy_record_version, self.length as nat)
    }
}

impl RecordHeader {
    /// The size of a record header in bytes.
    pub const SIZE: usize = 5;
}

impl Object for RecordHeader {
    open spec fn spec_size() -> (nat, nat) {
        TLSPlaintext::spec_size()
    }

    fn size() -> (r: Size) {
        TLSPlaintext::size()
    }
}

impl<'de> TryParse<'de> for RecordHeader {
    /// A record header takes up all of `data`, and its length must not
    /// exceed 2^14 bytes.
    open spec fn spec_parse(data: Seq<u8>) -> ParseOutcome<(ContentType, ProtocolVersion, nat)> {
        match parse_all_outcome(<TLSPlaintext as TryParse<'de>>::spec_parse(data), data) {
            Ok((ct, version, length)) => if length > 0x4000 {
                Err(Alert::spec_new(AlertDesc::RecordOverflow))
            } else {
                Ok(((ct, version, length as nat), data.len()))
            },
            Err(a) => Err(a),
        }
    }

    open spec fn spec_skip(data: Seq<u8>) -> Result<nat, Alert> {
        match Self::spec_parse(data) {
            Ok((_, n)) => Ok(n),
            Err(a) => Err(a),
        }
    }

    proof fn lemma_parse_bounds(data: Seq<u8>) {
        <TLSPlaintext as TryParse<'de>>::lemma_parse_bounds(data);
    }

    fn try_parse(data: &'de [u8]) -> (r: Result<(RecordHeader, &'de [u8]), Error>) {
        let v = match TLSPlaintext::try_parse_all(data) {
            Ok(v) => v,
            Err(e) => return Err(e),
        };
        // RFC 8446: "length: The length (in bytes) of the following
        // TLSPlaintext.fragment. The length MUST NOT exceed 2^14
        // bytes. An endpoint that receives a record that exceeds this
        // length MUST terminate the connection with a "record_overflow"
        // alert."
        if v.length > 0x4000 {
            return Err(wire::Error::record_overflow("length not in [0, 2^14]"));
        }
        let hdr = RecordHeader {
            content_type: v.type_,
            legacy_record_version: v.legacy_record_version,
            length: v.length as usize,
        };
        let (_, rest) = wire::parse::split_prefix(data, data.len());
        Ok((hdr, rest))
    }

    fn try_skip(data: &'de [u8]) -> (r: Result<&'de [u8], Error>) {
        match Self::try_parse(data) {
            Ok((_, rest)) => Ok(rest),
            Err(e) => Err(e),
        }
    }
}

/// The header of a handshake message.
#[derive(Copy, Clone, Debug)]
pub struct HandshakeHeader {
    pub msg_type: HandshakeType,
    /// Is in [0, (2^24)-1].
    pub length: usize,
}

impl View for HandshakeHeader {
    type V = (HandshakeType, nat);

    open spec fn view(&self) -> (HandshakeType, nat) {
        (self.msg_type, self.length as nat)
    }
}

impl HandshakeHeader {
    /// The size of a handshake header in bytes.
    pub const SIZE: usize = 4;
}

impl Object for HandshakeHeader {
    open spec fn spec_size() -> (nat, nat) {
        wire::HandshakeHeader::spec_size()
    }

    fn size() -> (r: Size) {
        wire::HandshakeHeader::size()
    }
}

impl<'de> TryParse<'de> for HandshakeHeader {
    /// A handshake header takes up all of `data`.
    open spec fn spec_parse(data: Seq<u8>) -> ParseOutcome<(HandshakeType, nat)> {
        match parse_all_outcome(<wire::HandshakeHeader as TryParse<'de>>::spec_parse(data), data) {
            Ok(v) => Ok((v, data.len())),
            Err(a) => Err(a),
        }
    }

    open spec fn spec_skip(data: Seq<u8>) -> Result<nat, Alert> {
        match Self::spec_parse(data) {
            Ok((_, n)) => Ok(n),
            Err(a) => Err(a),
        }
    }

    proof fn lemma_parse_bounds(data: Seq<u8>) {
        <wire::HandshakeHeader as TryParse<'de>>::lemma_parse_bounds(data);
    }

    fn try_parse(data: &'de [u8]) -> (r: Result<(HandshakeHeader, &'de [u8]), Error>) {
        let v = match wire::HandshakeHeader::try_parse_all(data) {
            Ok(v) => v,
            Err(e) => return Err(e),
        };
        let hdr = HandshakeHeader { msg_type: v.msg_type, length: v.length.to_usize() };
        let (_, rest) = wire::parse::split_prefix(data, data.len());
        Ok((hdr, rest))
    }

    fn try_skip(data: &'de [u8]) -> (r: Result<&'de [u8], Error>) {
        match Self::try_parse(data) {
            Ok((_, rest)) => Ok(rest),
            Err(e) => Err(e),
        }
    }
}

/// A record header is five bytes (RFC 8446, section 5.1): a content type,
/// a legacy version and a length of at most 2^14, which its last two
/// bytes give; a header that gives a longer length is refused with
/// `record_overflow`.
pub proof fn lemma_record_header_layout(data: Seq<u8>)
    ensures
        <RecordHeader as TryParse<'static>>::spec_parse(data) matches Ok((v, n)) ==> {
            &&& data.len() == 5
            &&& n == 5
            &&& v.0.spec_to_repr() == data[0]
            &&& v.2 == data[3] * 0x100 + data[4]
            &&& v.2 <= 0x4000
        },
        data.len() == 5 && <TLSPlaintext as TryParse<'static>>::spec_parse(data) is Ok && data[3]
            * 0x100 + data[4] > 0x4000 ==> (<RecordHeader as TryParse<'static>>::spec_parse(data) matches Err(a)
            && a == Alert::spec_new(AlertDesc::RecordOverflow)),
{
    if data.len() >= 5 {
        assert(data.skip(1)[0] == data[1] && data.skip(1)[1] == data[2]);
        assert(data.skip(3)[0] == data[3] && data.skip(3)[1] == data[4]);
        if let Ok((ct, _)) = <ContentType as TryParse<'static>>::spec_parse(data) {
            ContentType::lemma_repr_roundtrip(ct, data[0]);
        }
    }
}

} // verus!
