//! Internet address kinds.

use vstd::prelude::*;

verus! {

/// The kind of an internet address, together with its textual form.
pub enum IpAddrKind {
    V4(String),
    V6(String),
}

/// Accepts an address of either kind; it has no observable effect.
pub fn route(ip_kind: IpAddrKind) {
}

} // verus!
