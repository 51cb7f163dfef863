use vstd::prelude::*;

verus! {

/// The kind of database resource handed to one request.
#[derive(PartialEq, Eq, Structural, Clone, Copy, Debug)]
pub enum ResourceKind {
    /// A plain connection taken from the pool.
    Plain,
    /// An open transaction.
    Transaction,
}

impl ResourceKind {
    /// Whether a resource of this kind is resolved by a commit.
    pub fn needs_commit(self) -> (r: bool)
        ensures
            r == (self == ResourceKind::Transaction),
    {
        match self {
            ResourceKind::Plain => false,
            ResourceKind::Transaction => true,
        }
    }
}

/// The resource held for one request: an open transaction `T`, or a pooled
/// connection `C`.
///
/// Both variants dereference to the same connection type, so callers issue
/// queries without branching on the variant. Nothing in this type decides
/// between commit and rollback: a transaction dropped without a commit rolls
/// back, and a pooled connection returns to its pool.
pub enum ConnectionWrapInner<T, C> {
    Transacting(T),
    Plain(C),
}

impl<T, C> ConnectionWrapInner<T, C> {
    /// The kind of resource a handle holds.
    pub open spec fn spec_kind(&self) -> ResourceKind {
        match self {
            ConnectionWrapInner::Transacting(_) => ResourceKind::Transaction,
            ConnectionWrapInner::Plain(_) => ResourceKind::Plain,
        }
    }

    /// The kind of resource this handle holds.
    pub fn kind(&self) -> (r: ResourceKind)
        ensures
            r == self.spec_kind(),
    {
        match self {
            ConnectionWrapInner::Transacting(_) => ResourceKind::Transaction,
            ConnectionWrapInner::Plain(_) => ResourceKind::Plain,
        }
    }

    /// Whether this handle holds an open transaction.
    pub fn is_transacting(&self) -> (r: bool)
        ensures
            r == (self.spec_kind() == ResourceKind::Transaction),
    {
        matches!(self, ConnectionWrapInner::Transacting(_))
    }

    /// Gives up the handle, returning the transaction if it holds one.
    ///
    /// A pooled connection is dropped here, which returns it to its pool.
    pub fn into_transaction(self) -> (r: Option<T>)
        ensures
            r == (match self {
                ConnectionWrapInner::Transacting(t) => Some(t),
                ConnectionWrapInner::Plain(_) => None::<T>,
            }),
    {
        match self {
            ConnectionWrapInner::Transacting(t) => Some(t),
            ConnectionWrapInner::Plain(_) => None,
        }
    }

    /// The name of the variant this handle holds, for diagnostics.
    pub fn variant_name(&self) -> (r: &'static str)
        ensures
            r@ == (match self {
                ConnectionWrapInner::Transacting(_) => "ConnectionWrapInner::Transacting"@,
                ConnectionWrapInner::Plain(_) => "ConnectionWrapInner::Plain"@,
            }),
    {
        match self {
            ConnectionWrapInner::Transacting(_) => "ConnectionWrapInner::Transacting",
            ConnectionWrapInner::Plain(_) => "ConnectionWrapInner::Plain",
        }
    }
}

impl<T, C> core::ops::Deref for ConnectionWrapInner<T, C> where
    T: core::ops::Deref,
    C: core::ops::Deref<Target = T::Target>,
 {
    type Target = T::Target;

    /// The live connection: the pooled connection itself, or the connection
    /// that the transaction runs on.
    fn deref(&self) -> (r: &T::Target)
        ensures
            match self {
                ConnectionWrapInner::Plain(c) => call_ensures(C::deref, (c,), r),
                ConnectionWrapInner::Transacting(t) => call_ensures(T::deref, (t,), r),
            },
    {
        match self {
            ConnectionWrapInner::Plain(c) => c.deref(),
            ConnectionWrapInner::Transacting(t) => t.deref(),
        }
    }
}

impl<T, C> core::ops::DerefMut for ConnectionWrapInner<T, C> where
    T: core::ops::DerefMut,
    C: core::ops::DerefMut<Target = T::Target>,
 {
    /// Mutable access to the live connection: what the pooled connection's
    /// or the transaction's own `deref_mut` returns. Afterwards the handle
    /// still wraps that same connection or transaction, in the same variant:
    /// nothing is committed, rolled back or released.
    fn deref_mut(&mut self) -> (r: &mut T::Target)
        ensures
            final(self).spec_kind() == old(self).spec_kind(),
            match *old(self) {
                ConnectionWrapInner::Plain(c) => exists|m: &mut C|
                    mut_ref_current(m) == c && #[trigger] call_ensures(C::deref_mut, (m,), r)
                        && *final(self) == ConnectionWrapInner::<T, C>::Plain(mut_ref_future(m)),
                ConnectionWrapInner::Transacting(t) => exists|m: &mut T|
                    mut_ref_current(m) == t && #[trigger] call_ensures(T::deref_mut, (m,), r)
                        && *final(self) == ConnectionWrapInner::<T, C>::Transacting(
                        mut_ref_future(m),
                    ),
            },
    {
        match self {
            ConnectionWrapInner::Plain(c) => c.deref_mut(),
            ConnectionWrapInner::Transacting(t) => t.deref_mut(),
        }
    }
}

} // verus!
