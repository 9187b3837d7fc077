//! Platforms: the engine's shared scheduling backend.
//!
//! A platform is one object with many owners. Every owner holds a token; the
//! tokens are interchangeable copies, and the platform is freed when the last
//! of them is dropped.

use vstd::prelude::*;
use vstd::std_specs::convert::FromSpec;
use crate::dispatch::Operation;

verus! {

/// Two machine words: the bits of a shared pointer, the object's address and
/// the address of its count.
#[derive(Debug, Clone, Copy, PartialEq, Eq, Structural)]
pub struct SharedPtrOpaque(pub usize, pub usize);

/// Owning token of a platform: the bits of the engine's own shared
/// reference.
#[derive(Debug, PartialEq, Eq, Structural)]
pub struct PlatformOpaque(pub SharedPtrOpaque);

impl View for PlatformOpaque {
    type V = (usize, usize);

    open spec fn view(&self) -> (usize, usize) {
        (self.0.0, self.0.1)
    }
}

impl From<(usize, usize)> for PlatformOpaque {
    fn from(value: (usize, usize)) -> (r: Self) {
        PlatformOpaque(SharedPtrOpaque(value.0, value.1))
    }
}

impl vstd::std_specs::convert::FromSpecImpl<(usize, usize)> for PlatformOpaque {
    open spec fn obeys_from_spec() -> bool {
        true
    }

    open spec fn from_spec(v: (usize, usize)) -> Self {
        PlatformOpaque(SharedPtrOpaque(v.0, v.1))
    }
}

impl From<PlatformOpaque> for (usize, usize) {
    fn from(value: PlatformOpaque) -> (r: Self) {
        (value.0.0, value.0.1)
    }
}

impl vstd::std_specs::convert::FromSpecImpl<PlatformOpaque> for (usize, usize) {
    open spec fn obeys_from_spec() -> bool {
        true
    }

    open spec fn from_spec(v: PlatformOpaque) -> Self {
        (v.0.0, v.0.1)
    }
}

/// Slots of the platform table, in their order.
#[derive(Debug, Clone, Copy, PartialEq, Eq, Structural)]
pub struct PlatformVTable {
    pub drop: Operation,
    pub clone: Operation,
    pub ctor: Operation,
    pub ctor_single_threaded: Operation,
}

impl PlatformVTable {
    /// The platform table.
    pub open spec fn table() -> PlatformVTable {
        PlatformVTable {
            drop: Operation::PlatformDrop,
            clone: Operation::PlatformClone,
            ctor: Operation::PlatformNew,
            ctor_single_threaded: Operation::PlatformNewSingleThreaded,
        }
    }

    /// Number of the slots of the table that hold `op`.
    pub open spec fn count(self, op: Operation) -> nat {
        op.in_slot(self.drop) + op.in_slot(self.clone) + op.in_slot(self.ctor)
            + op.in_slot(self.ctor_single_threaded)
    }
}

/// The platform table.
pub fn platform_vtable() -> (vt: PlatformVTable)
    ensures
        vt == PlatformVTable::table(),
{
    PlatformVTable {
        drop: Operation::PlatformDrop,
        clone: Operation::PlatformClone,
        ctor: Operation::PlatformNew,
        ctor_single_threaded: Operation::PlatformNewSingleThreaded,
    }
}

/// The owners of one platform, as a count. An owner is a token that a caller
/// holds or, once the platform is installed, the engine, to which the
/// installed token's ownership has passed.
pub struct PlatformRefsView {
    /// The bits that every token of the platform holds.
    pub platform: (usize, usize),
    /// Number of owning references.
    pub count: nat,
}

impl PlatformRefsView {
    /// The platform has an owner, so it has not been freed.
    pub open spec fn alive(self) -> bool {
        self.count > 0
    }

    /// The platform has no owner left: it has been freed.
    pub open spec fn freed(self) -> bool {
        self.count == 0
    }

    /// `token` is an owning reference to this platform, which is alive.
    pub open spec fn holds(self, token: (usize, usize)) -> bool {
        self.alive() && token == self.platform
    }

    /// The state with one more owner.
    pub open spec fn acquire(self) -> PlatformRefsView {
        PlatformRefsView { count: self.count + 1, ..self }
    }

    /// The state with one owner less.
    pub open spec fn release(self) -> PlatformRefsView {
        PlatformRefsView { count: (self.count - 1) as nat, ..self }
    }

    /// The state after `n` owners have let go, one after the other.
    pub open spec fn release_many(self, n: nat) -> PlatformRefsView
        decreases n,
    {
        if n == 0 {
            self
        } else {
            self.release().release_many((n - 1) as nat)
        }
    }
}

/// The owners of one platform.
pub struct PlatformRefs {
    platform: SharedPtrOpaque,
    count: usize,
}

impl View for PlatformRefs {
    type V = PlatformRefsView;

    closed spec fn view(&self) -> PlatformRefsView {
        PlatformRefsView { platform: (self.platform.0, self.platform.1), count: self.count as nat }
    }
}

impl PlatformRefs {
    /// Number of owning references.
    pub fn count(&self) -> (r: usize)
        ensures
            r == self@.count,
    {
        self.count
    }

    /// The bits that every token of the platform holds.
    pub fn platform(&self) -> (r: (usize, usize))
        ensures
            r == self@.platform,
    {
        (self.platform.0, self.platform.1)
    }

    /// Whether the platform has been freed.
    pub fn is_freed(&self) -> (r: bool)
        ensures
            r == self@.freed(),
    {
        self.count == 0
    }

    /// Whether `token` is an owning reference to this platform, which is
    /// alive.
    pub fn holds(&self, token: &PlatformOpaque) -> (r: bool)
        ensures
            r == self@.holds(token@),
    {
        self.count > 0 && token.0.0 == self.platform.0 && token.0.1 == self.platform.1
    }
}

/// Takes in the platform that the engine built, with the native bits
/// `native`, and returns its first owning token together with the count of
/// its owners, which is one.
pub fn platform_new(native: (usize, usize)) -> (r: (PlatformOpaque, PlatformRefs))
    ensures
        r.0@ == native,
        r.1@ == (PlatformRefsView { platform: native, count: 1 }),
        r.1@.holds(r.0@),
{
    (
        PlatformOpaque::from(native),
        PlatformRefs { platform: SharedPtrOpaque(native.0, native.1), count: 1 },
    )
}

/// Makes one more owning token of the platform behind `ptr`. The new token
/// is an independent owner with the same bits, and the count goes up by one.
pub fn platform_clone(refs: &mut PlatformRefs, ptr: &PlatformOpaque) -> (r: PlatformOpaque)
    requires
        old(refs)@.holds(ptr@),
        old(refs)@.count < usize::MAX,
    ensures
        r@ == ptr@,
        final(refs)@ == old(refs)@.acquire(),
        final(refs)@.holds(r@),
        final(refs)@.holds(ptr@),
{
    refs.count = refs.count + 1;
    PlatformOpaque(ptr.0)
}

/// Gives up the owning token `ptr` and returns the native bits that the
/// engine is to release. The count goes down by one; the platform is freed
/// if and only if this was its last owner, and every other token stays good.
pub fn platform_drop(refs: &mut PlatformRefs, ptr: PlatformOpaque) -> (native: (usize, usize))
    requires
        old(refs)@.holds(ptr@),
    ensures
        native == ptr@,
        final(refs)@ == old(refs)@.release(),
        final(refs)@.freed() <==> old(refs)@.count == 1,
        old(refs)@.count > 1 ==> final(refs)@.holds(ptr@),
{
    refs.count = refs.count - 1;
    <(usize, usize)>::from(ptr)
}

/// A platform token's native bits and the token determine each other:
/// converting either way and back gives what one started from.
pub proof fn lemma_platform_round_trip(native: (usize, usize), token: PlatformOpaque)
    ensures
        PlatformOpaque::from_spec(native)@ == native,
        <(usize, usize)>::from_spec(PlatformOpaque::from_spec(native)) == native,
        PlatformOpaque::from_spec(<(usize, usize)>::from_spec(token)) == token,
{
}

/// Cloning a reference and dropping the clone leaves the count as it was, so
/// the reference that was cloned is as good as before.
pub proof fn lemma_clone_then_drop_restores(refs: PlatformRefsView, token: (usize, usize))
    requires
        refs.holds(token),
    ensures
        refs.acquire().holds(token),
        refs.acquire().release() == refs,
        refs.acquire().release().holds(token),
{
}

/// Dropping owners one after the other keeps the platform alive until the
/// last of them lets go, and frees it then.
pub proof fn lemma_dropping_all_frees(refs: PlatformRefsView, n: nat)
    requires
        n <= refs.count,
    ensures
        refs.release_many(n).count == refs.count - n,
        refs.release_many(n).platform == refs.platform,
        refs.release_many(n).freed() <==> n == refs.count,
    decreases n,
{
    if n > 0 {
        lemma_dropping_all_frees(refs.release(), (n - 1) as nat);
    }
}

} // verus!
