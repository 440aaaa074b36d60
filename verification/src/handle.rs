//! Native handles and their single-owner wrapper.
//!
//! A native resource is reference counted by the native layer. An
//! [`OwnedHandle`] stands for exactly one of those references. A
//! [`RefLedger`] is the account of one resource: how many references were
//! taken, how many were given back, and so how many owners are live.

use vstd::prelude::*;
use crate::error::SCError;

verus! {

/// An opaque, address-sized token naming one native resource instance.
#[derive(Debug, Clone, Copy, PartialEq, Eq, Structural, Hash)]
pub struct NativeHandle {
    pub addr: usize,
}

impl NativeHandle {
    /// The token with the given address.
    pub fn new(addr: usize) -> (h: Self)
        ensures
            h.addr == addr,
    {
        NativeHandle { addr }
    }

    /// The sentinel that names no resource.
    pub fn null() -> (h: Self)
        ensures
            h.addr == 0,
    {
        NativeHandle { addr: 0 }
    }

    /// Whether this is the sentinel.
    pub fn is_null(&self) -> (b: bool)
        ensures
            b == (self.addr == 0),
    {
        self.addr == 0
    }
}

/// The kinds of native resource. Each has its own acquire/release pair.
#[derive(Debug, Clone, Copy, PartialEq, Eq, Structural, Hash)]
pub enum ResourceKind {
    ContentSnapshot,
    Display,
    Window,
    Application,
    Configuration,
    Filter,
    Stream,
    Sample,
    PixelSurface,
    RecordingOutput,
    Image,
}

/// The two things an owner can do with its reference.
#[derive(Debug, Clone, Copy, PartialEq, Eq, Structural)]
pub enum OwnerOp {
    /// Take one more reference and hand it to a new owner.
    Clone,
    /// Give the reference back.
    Drop,
}

/// The account of one native resource, as numbers.
pub struct OwnershipCount {
    /// Owners that are live.
    pub owners: nat,
    /// References taken: the one the resource came with, and one per clone.
    pub acquires: nat,
    /// References given back.
    pub releases: nat,
}

impl OwnershipCount {
    /// The account of a resource that was just wrapped: the wrapper owns the
    /// one reference that the resource came with.
    pub open spec fn adopted() -> Self {
        OwnershipCount { owners: 1, acquires: 1, releases: 0 }
    }

    /// The account after one operation by a live owner. Without a live owner
    /// nobody can act, and the account stays as it is.
    pub open spec fn step(self, op: OwnerOp) -> Self {
        if self.owners == 0 {
            self
        } else {
            match op {
                OwnerOp::Clone => OwnershipCount {
                    owners: self.owners + 1,
                    acquires: self.acquires + 1,
                    releases: self.releases,
                },
                OwnerOp::Drop => OwnershipCount {
                    owners: (self.owners - 1) as nat,
                    acquires: self.acquires,
                    releases: self.releases + 1,
                },
            }
        }
    }

    /// The account after a sequence of operations, first to last.
    pub open spec fn run(self, ops: Seq<OwnerOp>) -> Self
        decreases ops.len(),
    {
        if ops.len() == 0 {
            self
        } else {
            self.run(ops.drop_last()).step(ops.last())
        }
    }

    /// Every reference taken is either given back or held by a live owner.
    pub open spec fn balanced(self) -> bool {
        self.acquires == self.releases + self.owners
    }
}

/// One operation keeps the account balanced.
pub proof fn lemma_step_keeps_balance(count: OwnershipCount, op: OwnerOp)
    requires
        count.balanced(),
    ensures
        count.step(op).balanced(),
{
}

/// Whatever owners clone and drop, and in whatever order, the account of a
/// wrapped resource stays balanced: while an owner is live the last reference
/// has not been given back, and once no owner is left the references given
/// back are exactly those taken.
pub proof fn lemma_clone_drop_balance(ops: Seq<OwnerOp>)
    ensures
        OwnershipCount::adopted().run(ops).balanced(),
        OwnershipCount::adopted().run(ops).owners > 0 ==> OwnershipCount::adopted().run(ops).releases
            < OwnershipCount::adopted().run(ops).acquires,
        OwnershipCount::adopted().run(ops).owners == 0 ==> OwnershipCount::adopted().run(ops).releases
            == OwnershipCount::adopted().run(ops).acquires,
    decreases ops.len(),
{
    if ops.len() > 0 {
        lemma_clone_drop_balance(ops.drop_last());
        lemma_step_keeps_balance(OwnershipCount::adopted().run(ops.drop_last()), ops.last());
    }
}

/// Each release in a run happens while its owner is live: at every point of
/// the run the references given back do not exceed those taken.
pub proof fn lemma_no_release_without_owner(ops: Seq<OwnerOp>, upto: int)
    requires
        0 <= upto <= ops.len(),
    ensures
        OwnershipCount::adopted().run(ops.take(upto)).balanced(),
        OwnershipCount::adopted().run(ops.take(upto)).releases <= OwnershipCount::adopted().run(
            ops.take(upto),
        ).acquires,
{
    lemma_clone_drop_balance(ops.take(upto));
}

/// The account of one native resource.
#[derive(Debug)]
pub struct RefLedger {
    handle: NativeHandle,
    acquires: u64,
    releases: u64,
}

impl View for RefLedger {
    type V = OwnershipCount;

    closed spec fn view(&self) -> OwnershipCount {
        OwnershipCount {
            owners: (self.acquires - self.releases) as nat,
            acquires: self.acquires as nat,
            releases: self.releases as nat,
        }
    }
}

impl RefLedger {
    #[verifier::type_invariant]
    spec fn well_formed(self) -> bool {
        self.releases <= self.acquires
    }

    /// The resource that this account is about.
    pub closed spec fn resource(&self) -> NativeHandle {
        self.handle
    }

    /// Whether `owner` holds one of the references counted here.
    pub open spec fn tracks(&self, owner: &OwnedHandle) -> bool {
        self.resource() == owner.raw() && self@.owners > 0
    }

    /// The account of a resource that the native layer just handed out with
    /// one reference, which a wrapper is about to own.
    pub fn adopted(handle: NativeHandle) -> (ledger: Self)
        ensures
            ledger@ == OwnershipCount::adopted(),
            ledger.resource() == handle,
    {
        RefLedger { handle, acquires: 1, releases: 0 }
    }

    /// The resource that this account is about.
    pub fn handle(&self) -> (h: NativeHandle)
        ensures
            h == self.resource(),
    {
        self.handle
    }

    /// References taken so far.
    pub fn acquire_count(&self) -> (n: u64)
        ensures
            n == self@.acquires,
    {
        self.acquires
    }

    /// References given back so far.
    pub fn release_count(&self) -> (n: u64)
        ensures
            n == self@.releases,
    {
        self.releases
    }

    /// Owners that are live.
    pub fn live_owners(&self) -> (n: u64)
        ensures
            n == self@.owners,
    {
        proof {
            use_type_invariant(self);
        }
        self.acquires - self.releases
    }

    /// Whether the last reference has been given back.
    pub fn is_freed(&self) -> (b: bool)
        ensures
            b == (self@.owners == 0),
            b == (self@.acquires == self@.releases),
    {
        proof {
            use_type_invariant(self);
        }
        self.acquires == self.releases
    }
}

/// The exclusive owner of one reference to a native resource.
///
/// It cannot be copied: a second owner comes only from
/// [`OwnedHandle::clone_with`], which takes a reference for it, and an owner
/// ends only in [`OwnedHandle::release`], which gives its reference back.
#[derive(Debug, PartialEq, Eq)]
pub struct OwnedHandle {
    raw: NativeHandle,
    kind: ResourceKind,
}

impl OwnedHandle {
    #[verifier::type_invariant]
    spec fn well_formed(self) -> bool {
        self.raw.addr != 0
    }

    /// The handle that is owned.
    pub closed spec fn raw(&self) -> NativeHandle {
        self.raw
    }

    /// The kind of resource that is owned.
    pub closed spec fn resource_kind(&self) -> ResourceKind {
        self.kind
    }

    /// Takes ownership of the one reference that the caller already holds.
    /// No reference is taken here. The sentinel is refused, so that nothing
    /// is ever released on it.
    pub fn wrap(raw: NativeHandle, kind: ResourceKind) -> (r: Result<OwnedHandle, SCError>)
        ensures
            raw.addr == 0 <==> r is Err,
            r is Err ==> r == Err::<OwnedHandle, SCError>(SCError::ResourceUnavailable),
            r is Ok ==> r->Ok_0.raw() == raw && r->Ok_0.resource_kind() == kind,
    {
        if raw.addr == 0 {
            Err(SCError::ResourceUnavailable)
        } else {
            Ok(OwnedHandle { raw, kind })
        }
    }

    /// The handle, to pass into a native call. Ownership stays here.
    pub fn as_raw(&self) -> (h: NativeHandle)
        ensures
            h == self.raw(),
            h.addr != 0,
    {
        proof {
            use_type_invariant(self);
        }
        self.raw
    }

    /// The kind of resource that is owned.
    pub fn kind(&self) -> (k: ResourceKind)
        ensures
            k == self.resource_kind(),
    {
        self.kind
    }

    /// A second, independent owner of the same resource. The caller performs
    /// the native acquire for it; the account records that reference.
    pub fn clone_with(&self, ledger: &mut RefLedger) -> (twin: OwnedHandle)
        requires
            old(ledger).tracks(self),
            old(ledger)@.acquires < u64::MAX,
        ensures
            twin.raw() == self.raw(),
            twin.resource_kind() == self.resource_kind(),
            final(ledger)@ == old(ledger)@.step(OwnerOp::Clone),
            final(ledger).resource() == old(ledger).resource(),
            final(ledger).tracks(&twin),
    {
        proof {
            use_type_invariant(self);
            use_type_invariant(&*ledger);
        }
        ledger.acquires = ledger.acquires + 1;
        OwnedHandle { raw: self.raw, kind: self.kind }
    }

    /// Ends this owner. The caller performs the native release for it, exactly
    /// once; the account records that the reference was given back. The
    /// handle is returned for that call and for nothing else.
    pub fn release(self, ledger: &mut RefLedger) -> (h: NativeHandle)
        requires
            old(ledger).tracks(&self),
        ensures
            h == self.raw(),
            final(ledger)@ == old(ledger)@.step(OwnerOp::Drop),
            final(ledger).resource() == old(ledger).resource(),
    {
        proof {
            use_type_invariant(&*ledger);
        }
        ledger.releases = ledger.releases + 1;
        self.raw
    }
}

} // verus!
