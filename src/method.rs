use vstd::prelude::*;

use crate::handle::ResourceKind;

verus! {

/// An HTTP request method.
#[derive(PartialEq, Eq, Structural, Clone, Copy, Debug)]
pub enum Method {
    Acl,
    BaselineControl,
    Bind,
    Checkin,
    Checkout,
    Connect,
    Copy,
    Delete,
    Get,
    Head,
    Label,
    Link,
    Lock,
    Merge,
    MkActivity,
    MkCalendar,
    MkCol,
    MkRedirectRef,
    MkWorkspace,
    Move,
    Options,
    OrderPatch,
    Patch,
    Post,
    Pri,
    PropFind,
    PropPatch,
    Put,
    Rebind,
    Report,
    Search,
    Trace,
    Unbind,
    Uncheckout,
    Unlink,
    Unlock,
    Update,
    UpdateRedirectRef,
    VersionControl,
}

/// Whether a method only retrieves data, so that its request needs no
/// transaction.
pub open spec fn read_only(m: Method) -> bool {
    m == Method::Get || m == Method::Head
}

/// The resource a request with method `m` is given: a plain connection for
/// read-only methods, a transaction for all others.
pub open spec fn resource_for(m: Method) -> ResourceKind {
    if read_only(m) {
        ResourceKind::Plain
    } else {
        ResourceKind::Transaction
    }
}

impl Method {
    /// Whether this method only retrieves data.
    pub fn is_read_only(self) -> (r: bool)
        ensures
            r == read_only(self),
    {
        match self {
            Method::Get | Method::Head => true,
            _ => false,
        }
    }
}

/// Classifies a request by its method: the kind of resource it is given.
///
/// This is the one place where the policy lives, so that it can be replaced
/// without touching how resources are resolved.
pub fn classify(method: Method) -> (r: ResourceKind)
    ensures
        r == resource_for(method),
{
    if method.is_read_only() {
        ResourceKind::Plain
    } else {
        ResourceKind::Transaction
    }
}

} // verus!
