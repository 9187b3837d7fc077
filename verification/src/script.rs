//! Scripts: compiling a source string and running the result.

use vstd::prelude::*;
use vstd::std_specs::convert::FromSpec;
use crate::dispatch::Operation;
use crate::handle_scope::HandleScopeOpaque;
use crate::output::write_output;
use crate::scope_stack::ScopeStack;
use crate::string::LocalStringOpaque;
use crate::value::LocalValueOpaque;

verus! {

/// Local handle of a compiled script: one machine word, the bits of the
/// engine's own local handle.
#[derive(Debug, Clone, Copy, PartialEq, Eq, Structural)]
pub struct LocalScriptOpaque(pub usize);

impl View for LocalScriptOpaque {
    type V = usize;

    open spec fn view(&self) -> usize {
        self.0
    }
}

impl From<usize> for LocalScriptOpaque {
    fn from(value: usize) -> (r: Self) {
        LocalScriptOpaque(value)
    }
}

impl vstd::std_specs::convert::FromSpecImpl<usize> for LocalScriptOpaque {
    open spec fn obeys_from_spec() -> bool {
        true
    }

    open spec fn from_spec(v: usize) -> Self {
        LocalScriptOpaque(v)
    }
}

impl From<LocalScriptOpaque> for usize {
    fn from(value: LocalScriptOpaque) -> (r: Self) {
        value.0
    }
}

impl vstd::std_specs::convert::FromSpecImpl<LocalScriptOpaque> for usize {
    open spec fn obeys_from_spec() -> bool {
        true
    }

    open spec fn from_spec(v: LocalScriptOpaque) -> Self {
        v.0
    }
}

/// Slots of the script table, in their order.
#[derive(Debug, Clone, Copy, PartialEq, Eq, Structural)]
pub struct ScriptVTable {
    pub ctor_compile: Operation,
    pub run: Operation,
}

impl ScriptVTable {
    /// The script table.
    pub open spec fn table() -> ScriptVTable {
        ScriptVTable { ctor_compile: Operation::ScriptCompile, run: Operation::ScriptRun }
    }

    /// Number of the slots of the table that hold `op`.
    pub open spec fn count(self, op: Operation) -> nat {
        op.in_slot(self.ctor_compile) + op.in_slot(self.run)
    }
}

/// The script table.
pub fn script_vtable() -> (vt: ScriptVTable)
    ensures
        vt == ScriptVTable::table(),
{
    ScriptVTable { ctor_compile: Operation::ScriptCompile, run: Operation::ScriptRun }
}

/// Hands back what the engine made of compiling `source` inside `scope`.
/// `compiled` holds the native bits of the script, or nothing when the source
/// did not compile. On success the script's handle is written to `ret`, is
/// valid from now on, and the result is `true`; on failure `ret` is left as
/// it was and the result is `false`.
pub fn script_compile(
    scopes: &mut ScopeStack,
    scope: &HandleScopeOpaque,
    source: LocalStringOpaque,
    compiled: Option<usize>,
    ret: &mut LocalScriptOpaque,
) -> (ok: bool)
    requires
        old(scopes).wf(),
        old(scopes)@.in_context(),
        old(scopes)@.is_innermost(scope@),
        old(scopes)@.is_live(source@),
    ensures
        ok == compiled.is_some(),
        compiled matches Some(native) ==> final(ret)@ == native && final(scopes)@ == old(
            scopes,
        )@.with_local(native),
        compiled is None ==> *final(ret) == *old(ret) && final(scopes)@ == old(scopes)@,
        final(scopes).wf(),
{
    let s = match compiled {
        Some(native) => {
            scopes.adopt_local(native);
            Some(LocalScriptOpaque::from(native))
        },
        None => None,
    };
    write_output(s, ret)
}

/// Hands back what the engine made of running the script `ptr` inside
/// `scope`. `result` holds the native bits of the value that the script gave,
/// or nothing when it threw. On success the value's handle is written to
/// `ret`, is valid from now on, and the result is `true`; on failure `ret` is
/// left as it was and the result is `false`.
pub fn script_run(
    scopes: &mut ScopeStack,
    ptr: LocalScriptOpaque,
    scope: &HandleScopeOpaque,
    result: Option<usize>,
    ret: &mut LocalValueOpaque,
) -> (ok: bool)
    requires
        old(scopes).wf(),
        old(scopes)@.in_context(),
        old(scopes)@.is_innermost(scope@),
        old(scopes)@.is_live(ptr@),
    ensures
        ok == result.is_some(),
        result matches Some(native) ==> final(ret)@ == native && final(scopes)@ == old(
            scopes,
        )@.with_local(native),
        result is None ==> *final(ret) == *old(ret) && final(scopes)@ == old(scopes)@,
        final(scopes).wf(),
{
    let r = match result {
        Some(native) => {
            scopes.adopt_local(native);
            Some(LocalValueOpaque::from(native))
        },
        None => None,
    };
    write_output(r, ret)
}

/// A script handle's native bits and its token determine each other: converting
/// either way and back gives what one started from.
pub proof fn lemma_local_script_round_trip(native: usize, token: LocalScriptOpaque)
    ensures
        LocalScriptOpaque::from_spec(native)@ == native,
        usize::from_spec(LocalScriptOpaque::from_spec(native)) == native,
        LocalScriptOpaque::from_spec(usize::from_spec(token)) == token,
{
}

} // verus!
