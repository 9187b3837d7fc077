//! Context scopes: a scope that binds a context as the current one.

use vstd::prelude::*;
use vstd::std_specs::convert::FromSpec;
use crate::context::LocalContextOpaque;
use crate::dispatch::Operation;
use crate::handle_scope::{
    handle_scope_isolate_vtable, HandleScopeImplVTable, HandleScopeObject, HandleScopeOpaque,
};
use crate::isolate::IsolateOpaque;
use crate::scope_stack::ScopeStack;

verus! {

/// Token of a context scope: one machine word, the bits of the engine's own
/// scope object.
#[derive(Debug, PartialEq, Eq, Structural)]
pub struct ContextScopeOpaque(pub usize);

impl View for ContextScopeOpaque {
    type V = usize;

    open spec fn view(&self) -> usize {
        self.0
    }
}

impl From<usize> for ContextScopeOpaque {
    fn from(value: usize) -> (r: Self) {
        ContextScopeOpaque(value)
    }
}

impl vstd::std_specs::convert::FromSpecImpl<usize> for ContextScopeOpaque {
    open spec fn obeys_from_spec() -> bool {
        true
    }

    open spec fn from_spec(v: usize) -> Self {
        ContextScopeOpaque(v)
    }
}

impl From<ContextScopeOpaque> for usize {
    fn from(value: ContextScopeOpaque) -> (r: Self) {
        value.0
    }
}

impl vstd::std_specs::convert::FromSpecImpl<ContextScopeOpaque> for usize {
    open spec fn obeys_from_spec() -> bool {
        true
    }

    open spec fn from_spec(v: ContextScopeOpaque) -> Self {
        v.0
    }
}

/// Slots of the table of one kind of context scope, in their order.
#[derive(Debug, Clone, Copy, PartialEq, Eq, Structural)]
pub struct ContextScopeImplVTable {
    pub drop: Operation,
    pub deref_to_isolate: Operation,
    pub deref_to_isolate_scope: Operation,
    pub deref_to_context_scope: Operation,
}

/// Slots of the context scope table, in their order; `isolate` is the table
/// of the context scopes that are rooted in an isolate.
#[derive(Debug, Clone, Copy, PartialEq, Eq, Structural)]
pub struct ContextScopeVTable {
    pub ctor_isolate: Operation,
    pub isolate: ContextScopeImplVTable,
}

impl ContextScopeImplVTable {
    /// The table of the context scopes that are rooted in an isolate.
    pub open spec fn for_isolate() -> ContextScopeImplVTable {
        ContextScopeImplVTable {
            drop: Operation::ContextScopeIsolateDrop,
            deref_to_isolate: Operation::ContextScopeIsolateDerefToIsolate,
            deref_to_isolate_scope: Operation::ContextScopeIsolateDerefToIsolateScope,
            deref_to_context_scope: Operation::ContextScopeIsolateDerefToContextScope,
        }
    }

    /// Number of the slots of the table that hold `op`.
    pub open spec fn count(self, op: Operation) -> nat {
        op.in_slot(self.drop) + op.in_slot(self.deref_to_isolate)
            + op.in_slot(self.deref_to_isolate_scope) + op.in_slot(self.deref_to_context_scope)
    }
}

impl ContextScopeVTable {
    /// The context scope table.
    pub open spec fn table() -> ContextScopeVTable {
        ContextScopeVTable {
            ctor_isolate: Operation::ContextScopeIsolateNew,
            isolate: ContextScopeImplVTable::for_isolate(),
        }
    }

    /// Number of the slots of the table that hold `op`.
    pub open spec fn count(self, op: Operation) -> nat {
        op.in_slot(self.ctor_isolate) + self.isolate.count(op)
    }
}

/// The table of the context scopes that are rooted in an isolate.
pub fn context_scope_isolate_vtable() -> (vt: ContextScopeImplVTable)
    ensures
        vt == ContextScopeImplVTable::for_isolate(),
{
    ContextScopeImplVTable {
        drop: Operation::ContextScopeIsolateDrop,
        deref_to_isolate: Operation::ContextScopeIsolateDerefToIsolate,
        deref_to_isolate_scope: Operation::ContextScopeIsolateDerefToIsolateScope,
        deref_to_context_scope: Operation::ContextScopeIsolateDerefToContextScope,
    }
}

/// The context scope table.
pub fn context_scope_vtable() -> (vt: ContextScopeVTable)
    ensures
        vt == ContextScopeVTable::table(),
{
    ContextScopeVTable {
        ctor_isolate: Operation::ContextScopeIsolateNew,
        isolate: context_scope_isolate_vtable(),
    }
}

/// Takes in the context scope that the engine opened from `scope` on the
/// context `ctx`, with the native bits `native`, and returns its token.
/// `scope` must be the innermost open scope and `ctx` a valid local handle.
pub fn context_scope_isolate_new(
    scopes: &mut ScopeStack,
    scope: &HandleScopeOpaque,
    ctx: LocalContextOpaque,
    native: usize,
) -> (r: ContextScopeOpaque)
    requires
        old(scopes).wf(),
        old(scopes)@.may_open_context_scope(scope@, ctx@),
    ensures
        r@ == native,
        final(scopes)@ == old(scopes)@.open_context_scope(native, ctx@),
        final(scopes).wf(),
        final(scopes)@.is_innermost(native),
        final(scopes)@.in_context(),
{
    scopes.open_context_scope(scope.0, native, ctx.0);
    ContextScopeOpaque::from(native)
}

/// Closes a context scope and returns the native bits that the engine is to
/// release. The scope must be the innermost open scope. Local handles stay
/// valid: they belong to the handle scope.
pub fn context_scope_isolate_drop(scopes: &mut ScopeStack, ptr: ContextScopeOpaque) -> (native:
    usize)
    requires
        old(scopes).wf(),
        old(scopes)@.may_close_context_scope(ptr@),
    ensures
        native == ptr@,
        final(scopes)@ == old(scopes)@.close_innermost(),
        final(scopes).wf(),
        final(scopes)@.locals == old(scopes)@.locals,
{
    scopes.close_innermost();
    usize::from(ptr)
}

/// The borrowed view of the isolate that a context scope belongs to.
pub fn context_scope_isolate_deref_to_isolate(scopes: &ScopeStack, ptr: &ContextScopeOpaque) -> (r:
    IsolateOpaque)
    requires
        scopes.wf(),
        scopes@.in_context(),
        scopes@.is_innermost(ptr@),
    ensures
        r@ == scopes@.isolate,
{
    IsolateOpaque(scopes.isolate())
}

/// A context scope seen as the handle scope that encloses it, without its
/// context: a reference to the same scope object, with the table that goes
/// with every scope of an isolate. The one operation of that table,
/// [`handle_scope_isolate_drop`](crate::handle_scope::handle_scope_isolate_drop),
/// is allowed on the result and closes this context scope.
pub fn context_scope_isolate_deref_to_isolate_scope(
    scopes: &ScopeStack,
    ptr: &ContextScopeOpaque,
) -> (r: HandleScopeObject)
    requires
        scopes.wf(),
        scopes@.in_context(),
        scopes@.is_innermost(ptr@),
    ensures
        r.ptr@ == ptr@,
        r.vt == HandleScopeImplVTable::for_isolate(),
        r.vt.drop == Operation::HandleScopeIsolateDrop,
        scopes@.is_innermost(r.ptr@),
        scopes@.may_close_scope(r.ptr@),
{
    HandleScopeObject { ptr: HandleScopeOpaque(ptr.0), vt: handle_scope_isolate_vtable() }
}

/// A context scope seen as a scope that carries its context: a reference to
/// the same scope object, for an operation that needs the innermost scope
/// whatever its concrete type, with the table that goes with every scope of
/// an isolate. The one operation of that table,
/// [`handle_scope_isolate_drop`](crate::handle_scope::handle_scope_isolate_drop),
/// is allowed on the result and closes this context scope.
pub fn context_scope_isolate_deref_to_context_scope(
    scopes: &ScopeStack,
    ptr: &ContextScopeOpaque,
) -> (r: HandleScopeObject)
    requires
        scopes.wf(),
        scopes@.in_context(),
        scopes@.is_innermost(ptr@),
    ensures
        r.ptr@ == ptr@,
        r.vt == HandleScopeImplVTable::for_isolate(),
        r.vt.drop == Operation::HandleScopeIsolateDrop,
        scopes@.is_innermost(r.ptr@),
        scopes@.may_close_scope(r.ptr@),
{
    HandleScopeObject { ptr: HandleScopeOpaque(ptr.0), vt: handle_scope_isolate_vtable() }
}

/// A context scope's native bits and its token determine each other: converting
/// either way and back gives what one started from.
pub proof fn lemma_context_scope_round_trip(native: usize, token: ContextScopeOpaque)
    ensures
        ContextScopeOpaque::from_spec(native)@ == native,
        usize::from_spec(ContextScopeOpaque::from_spec(native)) == native,
        ContextScopeOpaque::from_spec(usize::from_spec(token)) == token,
{
}

} // verus!
