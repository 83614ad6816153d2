//! The `server_name` extension per RFC 6066.

use vstd::prelude::*;
use vstd::string::*;

use crate::wire::{sni, size::Object, vec::slice_eq};

verus! {

/// `name` can be a host name: it is ASCII, between 1 and (2^16)-1
/// bytes long and does not end with a dot.
pub open spec fn spec_valid_host_name(name: Seq<u8>, ascii: bool) -> bool {
    &&& 1 <= name.len() <= 65535
    &&& ascii
    &&& name.last() != 0x2eu8
}

/// A fully qualified DNS name of a server.
#[derive(Copy, Clone, Debug)]
pub struct HostName<'a>(&'a str);

impl<'a> View for HostName<'a> {
    type V = Seq<u8>;

    closed spec fn view(&self) -> Seq<u8> {
        self.0.spec_bytes()
    }
}

impl<'a> HostName<'a> {
    /// A host name is valid.
    #[verifier::type_invariant]
    closed spec fn inv(self) -> bool {
        spec_valid_host_name(self.0.spec_bytes(), is_ascii(self.0))
    }

    /// Creates a `HostName`.
    ///
    /// It returns `None` if `name`
    ///
    /// - Is not valid ASCII.
    /// - Is not least 1 byte long.
    /// - Is not at most (2^16)-1 bytes long.
    /// - Ends with a dot (`.`).
    pub fn new(name: &'a str) -> (r: Option<HostName<'a>>)
        ensures
            r is Some <==> spec_valid_host_name(name.spec_bytes(), is_ascii(name)),
            r matches Some(h) ==> h@ == name.spec_bytes() && h.as_str_spec() == name,
    {
        let size = <sni::HostName<'a> as Object>::size();
        let bytes = name.as_bytes();
        if bytes.len() < size.min() || bytes.len() > size.max() || !name.is_ascii() || bytes[bytes.len()
            - 1] == 0x2e {
            None
        } else {
            Some(HostName(name))
        }
    }

    /// The host name as a string.
    pub closed spec fn as_str_spec(&self) -> &'a str {
        self.0
    }

    /// Returns the host name.
    pub fn as_str(&self) -> (r: &'a str)
        ensures
            r == self.as_str_spec(),
            r.spec_bytes() == self@,
    {
        self.0
    }

    /// Reports whether the host name is `other`.
    pub fn eq_str(&self, other: &str) -> (r: bool)
        ensures
            r == (self@ == other.spec_bytes()),
    {
        slice_eq(self.0.as_bytes(), other.as_bytes())
    }

    /// Converts the host name to its wire form.
    pub fn to_wire(self) -> (r: sni::HostName<'a>)
        ensures
            r@ == self@,
    {
        proof {
            use_type_invariant(self);
        }
        sni::HostName::new(self.0.as_bytes())
    }
}

} // verus!
