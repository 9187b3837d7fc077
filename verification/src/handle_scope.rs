//! Handle scopes: the nesting level that tracks local handles.

use vstd::prelude::*;
use vstd::std_specs::convert::FromSpec;
use crate::dispatch::Operation;
use crate::isolate::{IsolateOpaque, OwnedIsolateOpaque};
use crate::scope_stack::ScopeStack;

verus! {

/// Token of a handle scope: one machine word, the bits of the engine's own
/// scope object.
#[derive(Debug, PartialEq, Eq, Structural)]
pub struct HandleScopeOpaque(pub usize);

impl View for HandleScopeOpaque {
    type V = usize;

    open spec fn view(&self) -> usize {
        self.0
    }
}

impl From<usize> for HandleScopeOpaque {
    fn from(value: usize) -> (r: Self) {
        HandleScopeOpaque(value)
    }
}

impl vstd::std_specs::convert::FromSpecImpl<usize> for HandleScopeOpaque {
    open spec fn obeys_from_spec() -> bool {
        true
    }

    open spec fn from_spec(v: usize) -> Self {
        HandleScopeOpaque(v)
    }
}

impl From<HandleScopeOpaque> for usize {
    fn from(value: HandleScopeOpaque) -> (r: Self) {
        value.0
    }
}

impl vstd::std_specs::convert::FromSpecImpl<HandleScopeOpaque> for usize {
    open spec fn obeys_from_spec() -> bool {
        true
    }

    open spec fn from_spec(v: HandleScopeOpaque) -> Self {
        v.0
    }
}

/// Slots of the table that goes with the scopes of one kind of root. Its one
/// operation closes the scope it is called on, whatever that scope's own
/// kind.
#[derive(Debug, Clone, Copy, PartialEq, Eq, Structural)]
pub struct HandleScopeImplVTable {
    pub drop: Operation,
}

/// Slots of the handle scope table, in their order; `isolate` is the table of
/// the scopes that are rooted in an isolate.
#[derive(Debug, Clone, Copy, PartialEq, Eq, Structural)]
pub struct HandleScopeVTable {
    pub ctor_isolate: Operation,
    pub deref_to_isolate: Operation,
    pub isolate: HandleScopeImplVTable,
}

/// A borrowed scope together with the table of the operations that are valid
/// on it. The caller dispatches through `vt` and assumes no table of its own.
#[derive(Debug, PartialEq, Eq, Structural)]
pub struct HandleScopeObject {
    /// The scope that is referred to, by its token.
    pub ptr: HandleScopeOpaque,
    pub vt: HandleScopeImplVTable,
}

impl HandleScopeImplVTable {
    /// The table of the scopes that are rooted in an isolate.
    pub open spec fn for_isolate() -> HandleScopeImplVTable {
        HandleScopeImplVTable { drop: Operation::HandleScopeIsolateDrop }
    }

    /// Number of the slots of the table that hold `op`.
    pub open spec fn count(self, op: Operation) -> nat {
        op.in_slot(self.drop)
    }
}

impl HandleScopeVTable {
    /// The handle scope table.
    pub open spec fn table() -> HandleScopeVTable {
        HandleScopeVTable {
            ctor_isolate: Operation::HandleScopeIsolateNew,
            deref_to_isolate: Operation::HandleScopeIsolateDerefToIsolate,
            isolate: HandleScopeImplVTable::for_isolate(),
        }
    }

    /// Number of the slots of the table that hold `op`.
    pub open spec fn count(self, op: Operation) -> nat {
        op.in_slot(self.ctor_isolate) + op.in_slot(self.deref_to_isolate) + self.isolate.count(op)
    }
}

/// The table of the scopes that are rooted in an isolate.
pub fn handle_scope_isolate_vtable() -> (vt: HandleScopeImplVTable)
    ensures
        vt == HandleScopeImplVTable::for_isolate(),
{
    HandleScopeImplVTable { drop: Operation::HandleScopeIsolateDrop }
}

/// The handle scope table.
pub fn handle_scope_vtable() -> (vt: HandleScopeVTable)
    ensures
        vt == HandleScopeVTable::table(),
{
    HandleScopeVTable {
        ctor_isolate: Operation::HandleScopeIsolateNew,
        deref_to_isolate: Operation::HandleScopeIsolateDerefToIsolate,
        isolate: handle_scope_isolate_vtable(),
    }
}

/// Takes in the handle scope that the engine opened directly under
/// `isolate`, with the native bits `native`, and returns its token. From now
/// on, until this scope closes, it tracks every local handle that is made.
pub fn handle_scope_isolate_new(
    isolate: &OwnedIsolateOpaque,
    scopes: &mut ScopeStack,
    native: usize,
) -> (r: HandleScopeOpaque)
    requires
        old(scopes).wf(),
        old(scopes)@.isolate == isolate@,
        old(scopes)@.may_open_handle_scope(),
    ensures
        r@ == native,
        final(scopes)@ == old(scopes)@.open_handle_scope(native),
        final(scopes).wf(),
        final(scopes)@.is_innermost(native),
{
    scopes.open_handle_scope(native);
    HandleScopeOpaque::from(native)
}

/// Closes the scope behind `ptr` and returns the native bits that the engine
/// is to release. This is the one operation of the table that goes with every
/// scope of an isolate, so `ptr` may be the handle scope or a context scope
/// seen as a scope; it must be the innermost open scope. The scope's own kind
/// decides what ends with it: a context scope leaves the local handles valid,
/// the handle scope, which is then the only open scope, takes every local
/// handle with it.
pub fn handle_scope_isolate_drop(scopes: &mut ScopeStack, ptr: HandleScopeOpaque) -> (native: usize)
    requires
        old(scopes).wf(),
        old(scopes)@.may_close_scope(ptr@),
    ensures
        native == ptr@,
        final(scopes)@ == old(scopes)@.close_innermost(),
        final(scopes).wf(),
        old(scopes)@.frames.len() == 1 ==> final(scopes)@.no_scope() && forall|local: usize|
            !final(scopes)@.is_live(local),
        old(scopes)@.in_context() ==> !final(scopes)@.no_scope() && final(scopes)@.locals == old(
            scopes,
        )@.locals,
{
    scopes.close_innermost();
    usize::from(ptr)
}

/// The borrowed view of the isolate that a handle scope belongs to.
pub fn handle_scope_isolate_deref_to_isolate(scopes: &ScopeStack, ptr: &HandleScopeOpaque) -> (r:
    IsolateOpaque)
    requires
        scopes.wf(),
        scopes@.is_innermost(ptr@),
    ensures
        r@ == scopes@.isolate,
{
    IsolateOpaque(scopes.isolate())
}

/// A handle scope's native bits and its token determine each other: converting
/// either way and back gives what one started from.
pub proof fn lemma_handle_scope_round_trip(native: usize, token: HandleScopeOpaque)
    ensures
        HandleScopeOpaque::from_spec(native)@ == native,
        usize::from_spec(HandleScopeOpaque::from_spec(native)) == native,
        HandleScopeOpaque::from_spec(usize::from_spec(token)) == token,
{
}

} // verus!
