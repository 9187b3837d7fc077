//! Contexts: the environment that scripts run in.

use vstd::prelude::*;
use vstd::std_specs::convert::FromSpec;
use crate::dispatch::Operation;
use crate::handle_scope::HandleScopeOpaque;
use crate::scope_stack::ScopeStack;

verus! {

/// Local handle of a context: one machine word, the bits of the engine's own
/// local handle.
#[derive(Debug, Clone, Copy, PartialEq, Eq, Structural)]
pub struct LocalContextOpaque(pub usize);

impl View for LocalContextOpaque {
    type V = usize;

    open spec fn view(&self) -> usize {
        self.0
    }
}

impl From<usize> for LocalContextOpaque {
    fn from(value: usize) -> (r: Self) {
        LocalContextOpaque(value)
    }
}

impl vstd::std_specs::convert::FromSpecImpl<usize> for LocalContextOpaque {
    open spec fn obeys_from_spec() -> bool {
        true
    }

    open spec fn from_spec(v: usize) -> Self {
        LocalContextOpaque(v)
    }
}

impl From<LocalContextOpaque> for usize {
    fn from(value: LocalContextOpaque) -> (r: Self) {
        value.0
    }
}

impl vstd::std_specs::convert::FromSpecImpl<LocalContextOpaque> for usize {
    open spec fn obeys_from_spec() -> bool {
        true
    }

    open spec fn from_spec(v: LocalContextOpaque) -> Self {
        v.0
    }
}

/// Slots of the context table.
#[derive(Debug, Clone, Copy, PartialEq, Eq, Structural)]
pub struct ContextVTable {
    pub ctor: Operation,
}

impl ContextVTable {
    /// The context table.
    pub open spec fn table() -> ContextVTable {
        ContextVTable { ctor: Operation::ContextNew }
    }

    /// Number of the slots of the table that hold `op`.
    pub open spec fn count(self, op: Operation) -> nat {
        op.in_slot(self.ctor)
    }
}

/// The context table.
pub fn context_vtable() -> (vt: ContextVTable)
    ensures
        vt == ContextVTable::table(),
{
    ContextVTable { ctor: Operation::ContextNew }
}

/// Takes in the context that the engine made inside `scope`, with the native
/// bits `native`, and returns its local handle, which is valid from now on
/// until the handle scope closes.
pub fn context_new(scopes: &mut ScopeStack, scope: &HandleScopeOpaque, native: usize) -> (r:
    LocalContextOpaque)
    requires
        old(scopes).wf(),
        old(scopes)@.is_innermost(scope@),
    ensures
        r@ == native,
        final(scopes)@ == old(scopes)@.with_local(native),
        final(scopes).wf(),
        final(scopes)@.is_live(r@),
{
    scopes.adopt_local(native);
    LocalContextOpaque::from(native)
}

/// A context handle's native bits and its token determine each other: converting
/// either way and back gives what one started from.
pub proof fn lemma_local_context_round_trip(native: usize, token: LocalContextOpaque)
    ensures
        LocalContextOpaque::from_spec(native)@ == native,
        usize::from_spec(LocalContextOpaque::from_spec(native)) == native,
        LocalContextOpaque::from_spec(usize::from_spec(token)) == token,
{
}

} // verus!
