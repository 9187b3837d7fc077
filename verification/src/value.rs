//! Values: the borrowed view of a value, and its conversion to a string.

use vstd::prelude::*;
use vstd::std_specs::convert::FromSpec;
use crate::dispatch::Operation;
use crate::handle_scope::HandleScopeOpaque;
use crate::output::write_output;
use crate::scope_stack::ScopeStack;
use crate::string::LocalStringOpaque;

verus! {

/// Borrowed view of a value: the address that its local handle holds, valid
/// as long as the handle is.
#[derive(Debug, Clone, Copy, PartialEq, Eq, Structural)]
pub struct ValueOpaque(pub usize);

impl View for ValueOpaque {
    type V = usize;

    open spec fn view(&self) -> usize {
        self.0
    }
}

/// Local handle of a value: one machine word, the bits of the engine's own
/// local handle.
#[derive(Debug, Clone, Copy, PartialEq, Eq, Structural)]
pub struct LocalValueOpaque(pub usize);

impl View for LocalValueOpaque {
    type V = usize;

    open spec fn view(&self) -> usize {
        self.0
    }
}

impl From<usize> for LocalValueOpaque {
    fn from(value: usize) -> (r: Self) {
        LocalValueOpaque(value)
    }
}

impl vstd::std_specs::convert::FromSpecImpl<usize> for LocalValueOpaque {
    open spec fn obeys_from_spec() -> bool {
        true
    }

    open spec fn from_spec(v: usize) -> Self {
        LocalValueOpaque(v)
    }
}

impl From<LocalValueOpaque> for usize {
    fn from(value: LocalValueOpaque) -> (r: Self) {
        value.0
    }
}

impl vstd::std_specs::convert::FromSpecImpl<LocalValueOpaque> for usize {
    open spec fn obeys_from_spec() -> bool {
        true
    }

    open spec fn from_spec(v: LocalValueOpaque) -> Self {
        v.0
    }
}

/// Slots of the value table, in their order: the view, the type queries, the
/// conversion.
#[derive(Debug, Clone, Copy, PartialEq, Eq, Structural)]
pub struct ValueVTable {
    pub deref: Operation,
    pub type_of: Operation,
    pub is_undefined: Operation,
    pub is_null: Operation,
    pub is_null_or_undefined: Operation,
    pub is_true: Operation,
    pub is_false: Operation,
    pub is_name: Operation,
    pub is_string: Operation,
    pub is_symbol: Operation,
    pub to_string: Operation,
}

impl ValueVTable {
    /// The value table.
    pub open spec fn table() -> ValueVTable {
        ValueVTable {
            deref: Operation::ValueDeref,
            type_of: Operation::TypeOf,
            is_undefined: Operation::IsUndefined,
            is_null: Operation::IsNull,
            is_null_or_undefined: Operation::IsNullOrUndefined,
            is_true: Operation::IsTrue,
            is_false: Operation::IsFalse,
            is_name: Operation::IsName,
            is_string: Operation::IsString,
            is_symbol: Operation::IsSymbol,
            to_string: Operation::ToString,
        }
    }

    /// Number of the slots of the table that hold `op`.
    pub open spec fn count(self, op: Operation) -> nat {
        op.in_slot(self.deref) + op.in_slot(self.type_of) + op.in_slot(self.is_undefined)
            + op.in_slot(self.is_null) + op.in_slot(self.is_null_or_undefined)
            + op.in_slot(self.is_true) + op.in_slot(self.is_false) + op.in_slot(self.is_name)
            + op.in_slot(self.is_string) + op.in_slot(self.is_symbol)
            + op.in_slot(self.to_string)
    }
}

/// The value table.
pub fn value_vtable() -> (vt: ValueVTable)
    ensures
        vt == ValueVTable::table(),
{
    ValueVTable {
        deref: Operation::ValueDeref,
        type_of: Operation::TypeOf,
        is_undefined: Operation::IsUndefined,
        is_null: Operation::IsNull,
        is_null_or_undefined: Operation::IsNullOrUndefined,
        is_true: Operation::IsTrue,
        is_false: Operation::IsFalse,
        is_name: Operation::IsName,
        is_string: Operation::IsString,
        is_symbol: Operation::IsSymbol,
        to_string: Operation::ToString,
    }
}

/// The borrowed view of the value behind a local handle: the address that the
/// handle holds.
pub fn value_deref(ptr: LocalValueOpaque) -> (r: ValueOpaque)
    ensures
        r@ == ptr@,
{
    ValueOpaque(ptr.0)
}

/// Takes in the string that the engine gave as the name of a value's type,
/// with the native bits `native`, and returns its local handle, which is
/// valid from now on.
pub fn type_of(
    scopes: &mut ScopeStack,
    ptr: &ValueOpaque,
    scope: &HandleScopeOpaque,
    native: usize,
) -> (r: LocalStringOpaque)
    requires
        old(scopes).wf(),
        old(scopes)@.is_innermost(scope@),
        old(scopes)@.is_live(ptr@),
    ensures
        r@ == native,
        final(scopes)@ == old(scopes)@.with_local(native),
        final(scopes).wf(),
{
    scopes.adopt_local(native);
    LocalStringOpaque::from(native)
}

/// Hands back what the engine made of converting a value to a string inside
/// `scope`. `converted` holds the native bits of the string, or nothing when
/// the conversion threw. On success the string's handle is written to `ret`,
/// is valid from now on, and the result is `true`; on failure `ret` is left
/// as it was and the result is `false`.
pub fn to_string(
    scopes: &mut ScopeStack,
    ptr: &ValueOpaque,
    scope: &HandleScopeOpaque,
    converted: Option<usize>,
    ret: &mut LocalStringOpaque,
) -> (ok: bool)
    requires
        old(scopes).wf(),
        old(scopes)@.in_context(),
        old(scopes)@.is_innermost(scope@),
        old(scopes)@.is_live(ptr@),
    ensures
        ok == converted.is_some(),
        converted matches Some(native) ==> final(ret)@ == native && final(scopes)@ == old(
            scopes,
        )@.with_local(native),
        converted is None ==> *final(ret) == *old(ret) && final(scopes)@ == old(scopes)@,
        final(scopes).wf(),
{
    let r = match converted {
        Some(native) => {
            scopes.adopt_local(native);
            Some(LocalStringOpaque::from(native))
        },
        None => None,
    };
    write_output(r, ret)
}

/// A value handle's native bits and its token determine each other: converting
/// either way and back gives what one started from.
pub proof fn lemma_local_value_round_trip(native: usize, token: LocalValueOpaque)
    ensures
        LocalValueOpaque::from_spec(native)@ == native,
        usize::from_spec(LocalValueOpaque::from_spec(native)) == native,
        LocalValueOpaque::from_spec(usize::from_spec(token)) == token,
{
}

} // verus!
