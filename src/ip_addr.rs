use vstd::prelude::*;

verus! {

/// The version of an IP address.
#[derive(Clone, Copy, Debug, PartialEq, Eq, Structural)]
pub enum IpAddrKind {
    V4,
    V6,
}

/// Takes an address kind of either version and does nothing with it.
pub fn route(ip_kind: IpAddrKind) {
    let _ = ip_kind;
}

} // verus!
