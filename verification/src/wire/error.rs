//! Errors.

use vstd::prelude::*;

use crate::{
    tls::ext::ExtMask,
    wire::alert::{Alert, AlertDesc},
};

verus! {

/// The result from parsing or encoding a type.
pub type Result<T, E = Error> = core::result::Result<T, E>;

/// An error from parsing or encoding the wire format: the alert that
/// it calls for and a note on what went wrong.
#[derive(Clone, Debug, PartialEq, Eq)]
pub struct Error {
    alert: Alert,
    context: &'static str,
}

impl View for Error {
    type V = Alert;

    closed spec fn view(&self) -> Alert {
        self.alert
    }
}

impl Error {
    pub(crate) fn new(alert: Alert, context: &'static str) -> (r: Self)
        ensures
            r@ == alert,
            r.spec_context() == context@,
    {
        Self { alert, context }
    }

    pub(crate) fn decode_error(context: &'static str) -> (r: Self)
        ensures
            r@ == Alert::spec_decode_error(),
            r.spec_context() == context@,
    {
        Self::new(Alert::decode_error(), context)
    }

    pub(crate) fn unsupported_type(context: &'static str) -> (r: Self)
        ensures
            r@ == Alert::spec_internal_error(),
            r.spec_context() == context@,
    {
        Self::internal_error(context)
    }

    pub(crate) fn protocol_version(context: &'static str) -> (r: Self)
        ensures
            r@ == Alert::spec_new(AlertDesc::ProtocolVersion),
            r.spec_context() == context@,
    {
        Self::new(Alert::protocol_version(), context)
    }

    pub(crate) fn unexpected_eof() -> (r: Self)
        ensures
            r@ == Alert::spec_decode_error(),
    {
        Self::decode_error("unexpected EOF")
    }

    pub(crate) fn buffer_too_short() -> (r: Self)
        ensures
            r@ == Alert::spec_internal_error(),
            r.spec_context() == "buffer too short"@,
    {
        Self::internal_error("buffer too short")
    }

    pub(crate) fn internal_error(context: &'static str) -> (r: Self)
        ensures
            r@ == Alert::spec_internal_error(),
            r.spec_context() == context@,
    {
        Self::new(Alert::internal_error(), context)
    }

    pub(crate) fn record_overflow(context: &'static str) -> (r: Self)
        ensures
            r@ == Alert::spec_new(AlertDesc::RecordOverflow),
            r.spec_context() == context@,
    {
        Self::new(Alert::record_overflow(), context)
    }

    pub(crate) fn illegal_parameter(context: &'static str) -> (r: Self)
        ensures
            r@ == Alert::spec_illegal_parameter(),
            r.spec_context() == context@,
    {
        Self::new(Alert::illegal_parameter(), context)
    }

    pub(crate) fn unexpected_message(context: &'static str) -> (r: Self)
        ensures
            r@ == Alert::spec_new(AlertDesc::UnexpectedMessage),
            r.spec_context() == context@,
    {
        Self::new(Alert::unexpected_message(), context)
    }

    pub(crate) fn missing_extension(context: &'static str) -> (r: Self)
        ensures
            r@ == Alert::spec_new(AlertDesc::MissingExtension),
            r.spec_context() == context@,
    {
        Self::new(Alert::missing_extension(), context)
    }

    pub(crate) fn unsupported_extension(_mask: ExtMask) -> (r: Self)
        ensures
            r@ == Alert::spec_new(AlertDesc::UnsupportedExtension),
    {
        Self::new(Alert::unsupported_extension(), "")
    }

    /// Returns the alert that the error calls for.
    pub fn alert(&self) -> (r: Alert)
        ensures
            r == self@,
    {
        self.alert
    }

    /// What went wrong, in words.
    pub closed spec fn spec_context(&self) -> Seq<char> {
        self.context@
    }

    /// Returns what went wrong, in words.
    pub fn context(&self) -> (r: &'static str)
        ensures
            r@ == self.spec_context(),
    {
        self.context
    }
}

} // verus!
