//! The dispatch surface: which operation sits in which slot of which table.

use vstd::prelude::*;
use crate::context::{context_vtable, ContextVTable};
use crate::context_scope::{context_scope_vtable, ContextScopeVTable};
use crate::handle_scope::{handle_scope_vtable, HandleScopeVTable};
use crate::isolate::{isolate_vtable, IsolateVTable};
use crate::lifecycle::{v8_vtable, V8VTable};
use crate::platform::{platform_vtable, PlatformVTable};
use crate::script::{script_vtable, ScriptVTable};
use crate::string::{string_vtable, StringVTable};
use crate::value::{value_vtable, ValueVTable};

verus! {

/// The operations that a caller can reach through the tables.
#[derive(Debug, Clone, Copy, PartialEq, Eq, Structural, Hash)]
pub enum Operation {
    V8InitializePlatform,
    V8Initialize,
    AutoEnsuresInit,
    IsInitialized,
    V8GetCurrentPlatform,
    V8Version,
    PlatformDrop,
    PlatformClone,
    PlatformNew,
    PlatformNewSingleThreaded,
    IsolateDrop,
    IsolateNew,
    IsolateNewDefault,
    IsolateDeref,
    HandleScopeIsolateNew,
    HandleScopeIsolateDerefToIsolate,
    HandleScopeIsolateDrop,
    ContextNew,
    ContextScopeIsolateNew,
    ContextScopeIsolateDrop,
    ContextScopeIsolateDerefToIsolate,
    ContextScopeIsolateDerefToIsolateScope,
    ContextScopeIsolateDerefToContextScope,
    ScriptCompile,
    ScriptRun,
    ValueDeref,
    TypeOf,
    IsUndefined,
    IsNull,
    IsNullOrUndefined,
    IsTrue,
    IsFalse,
    IsName,
    IsString,
    IsSymbol,
    ToString,
    StringNewUtf16,
    StringLen,
    StringReadUtf16,
}

impl Operation {
    /// One if the slot holds this operation, else zero.
    pub open spec fn in_slot(self, slot: Operation) -> nat {
        if slot == self {
            1
        } else {
            0
        }
    }
}

/// The root of the dispatch surface: one table per component, in a fixed
/// order. A caller that holds the root can reach every operation and needs no
/// other entry.
#[derive(Debug, Clone, Copy, PartialEq, Eq, Structural)]
pub struct RootVTable {
    pub v8: V8VTable,
    pub platform: PlatformVTable,
    pub isolate: IsolateVTable,
    pub handle_scope: HandleScopeVTable,
    pub context: ContextVTable,
    pub context_scope: ContextScopeVTable,
    pub script: ScriptVTable,
    pub value: ValueVTable,
    pub string: StringVTable,
}

impl RootVTable {
    /// The root table.
    pub open spec fn table() -> RootVTable {
        RootVTable {
            v8: V8VTable::table(),
            platform: PlatformVTable::table(),
            isolate: IsolateVTable::table(),
            handle_scope: HandleScopeVTable::table(),
            context: ContextVTable::table(),
            context_scope: ContextScopeVTable::table(),
            script: ScriptVTable::table(),
            value: ValueVTable::table(),
            string: StringVTable::table(),
        }
    }

    /// Number of the slots under the root that hold `op`.
    pub open spec fn count(self, op: Operation) -> nat {
        self.v8.count(op) + self.platform.count(op) + self.isolate.count(op)
            + self.handle_scope.count(op) + self.context.count(op) + self.context_scope.count(op)
            + self.script.count(op) + self.value.count(op) + self.string.count(op)
    }

    /// Some slot of some table under the root holds `op`.
    pub open spec fn reaches(self, op: Operation) -> bool {
        self.count(op) >= 1
    }
}

/// The one entry point: the root table, from which every other table is
/// reached.
pub fn coplt_v8core_get_root_vtable() -> (root: RootVTable)
    ensures
        root == RootVTable::table(),
{
    RootVTable {
        v8: v8_vtable(),
        platform: platform_vtable(),
        isolate: isolate_vtable(),
        handle_scope: handle_scope_vtable(),
        context: context_vtable(),
        context_scope: context_scope_vtable(),
        script: script_vtable(),
        value: value_vtable(),
        string: string_vtable(),
    }
}

/// Every operation is reached from the root table, through exactly one slot.
pub proof fn lemma_root_reaches_every_operation(op: Operation)
    ensures
        RootVTable::table().reaches(op),
        RootVTable::table().count(op) == 1,
{
}

} // verus!
