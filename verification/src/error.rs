//! The typed error this library returns: a message, built either from a
//! decode failure or from the errno a kernel error message carries.

use vstd::prelude::*;

verus! {

/// A netlink failure.
#[derive(Clone, Debug)]
pub struct NlError {
    /// Human-readable description of the failure.
    pub msg: String,
}

/// What `nix::errno::Errno`'s `Display` writes for a raw errno value: its
/// name and description from a fixed table.
pub uninterp spec fn errno_text(code: i32) -> Seq<char>;

/// Relies on nix::errno::Errno: `from_raw` is a total lookup and the
/// `Display` of the result writes the errno's name and description, a
/// fixed table depending on the value alone.
#[verifier::external_body]
fn errno_description(code: i32) -> (r: String)
    ensures
        r@ == errno_text(code),
{
    format!("{}", nix::errno::Errno::from_raw(code))
}

impl NlError {
    /// Wraps a message in an error value.
    pub fn new(msg: String) -> (r: NlError)
        ensures
            r.msg == msg,
    {
        NlError { msg }
    }

    /// Translates the raw errno of a kernel error message.  The kernel
    /// reports errors as negative errno values; the lookup uses the
    /// positive value.
    pub fn from_errno(raw: i32) -> (r: NlError)
        ensures
            r.msg@ == errno_text(raw),
    {
        NlError { msg: errno_description(raw) }
    }
}

} // verus!
