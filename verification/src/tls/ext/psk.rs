//! `pre_shared_key` and `psk_key_exchange_modes` extensions.

use vstd::prelude::*;

use crate::{
    util::{ct_eq_u32, Sensitive},
    wire::tls13::ext::{PskBinderEntry, PskIdentity},
};

verus! {

/// A preshared key identity.
#[derive(Copy, Clone, Debug)]
pub struct Identity<'a>(PskIdentity<'a>);

impl<'a> View for Identity<'a> {
    type V = (Seq<u8>, u32);

    closed spec fn view(&self) -> (Seq<u8>, u32) {
        self.0@
    }
}

impl<'a> Identity<'a> {
    /// Wraps an identity read off the wire.
    pub fn new(identity: PskIdentity<'a>) -> (r: Self)
        ensures
            r@ == identity@,
    {
        Identity(identity)
    }

    /// Returns the identity.
    pub fn identity(&self) -> (r: Sensitive<'_>)
        ensures
            r@ == self@.0,
    {
        // It isn't necessary to compare identities in constant time
        // since they are not secret. However, it can help prevent
        // clients from enumerating the PSK identities stored on a
        // server.
        Sensitive::new(self.0.identity.as_slice())
    }

    /// Returns the obfuscated ticket age.
    pub fn obfuscated_ticket_age(&self) -> (r: u32)
        ensures
            r == self@.1,
    {
        self.0.obfuscated_ticket_age
    }
}

impl<'a> PskIdentity<'a> {
    /// Reports in constant time whether both identities and both ticket
    /// ages are equal.
    pub fn ct_eq(&self, other: &Self) -> (r: bool)
        ensures
            r == (self@ == other@),
    {
        let ident = self.identity().ct_eq(&other.identity());
        let age = ct_eq_u32(self.obfuscated_ticket_age, other.obfuscated_ticket_age);
        ident && age
    }
}

impl<'a> PartialEq for PskIdentity<'a> {
    fn eq(&self, other: &Self) -> (r: bool) {
        self.ct_eq(other)
    }
}

impl<'a> vstd::std_specs::cmp::PartialEqSpecImpl for PskIdentity<'a> {
    open spec fn obeys_eq_spec() -> bool {
        true
    }

    open spec fn eq_spec(&self, other: &Self) -> bool {
        self@ == other@
    }
}

impl<'a> Eq for PskIdentity<'a> {

}

/// A preshared key binder (MAC).
#[derive(Copy, Clone, Debug)]
pub struct Binder<'a>(PskBinderEntry<'a>);

impl<'a> View for Binder<'a> {
    type V = Seq<u8>;

    closed spec fn view(&self) -> Seq<u8> {
        self.0@
    }
}

impl<'a> Binder<'a> {
    /// Wraps a binder read off the wire.
    pub fn new(binder: PskBinderEntry<'a>) -> (r: Self)
        ensures
            r@ == binder@,
    {
        Binder(binder)
    }

    /// Returns the MAC.
    fn tag(&self) -> (r: &[u8])
        ensures
            r@ == self@,
    {
        self.0.as_slice()
    }

    /// Reports in constant time whether two binders are equal.
    pub fn ct_eq(&self, other: &Self) -> (r: bool)
        ensures
            r == (self@ == other@),
    {
        crate::util::ct_eq_bytes(self.tag(), other.tag())
    }
}

} // verus!
