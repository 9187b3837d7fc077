//! Isolates: their tokens and the configuration they are built from.

use vstd::prelude::*;
use vstd::std_specs::convert::FromSpec;
use crate::dispatch::Operation;
use crate::lifecycle::Lifecycle;
use crate::option_bool::OptionBool;
use crate::scope_stack::ScopeStack;

verus! {

/// Borrowed view of an isolate: the address of the engine's isolate, valid
/// while the owner or the scope that gave it is alive.
#[derive(Debug, Clone, Copy, PartialEq, Eq, Structural)]
pub struct IsolateOpaque(pub usize);

impl View for IsolateOpaque {
    type V = usize;

    open spec fn view(&self) -> usize {
        self.0
    }
}

/// Owning token of an isolate: one machine word, the bits of the engine's own
/// owning handle.
#[derive(Debug, PartialEq, Eq, Structural)]
pub struct OwnedIsolateOpaque(pub usize);

impl View for OwnedIsolateOpaque {
    type V = usize;

    open spec fn view(&self) -> usize {
        self.0
    }
}

impl From<usize> for OwnedIsolateOpaque {
    fn from(value: usize) -> (r: Self) {
        OwnedIsolateOpaque(value)
    }
}

impl vstd::std_specs::convert::FromSpecImpl<usize> for OwnedIsolateOpaque {
    open spec fn obeys_from_spec() -> bool {
        true
    }

    open spec fn from_spec(v: usize) -> Self {
        OwnedIsolateOpaque(v)
    }
}

impl From<OwnedIsolateOpaque> for usize {
    fn from(value: OwnedIsolateOpaque) -> (r: Self) {
        value.0
    }
}

impl vstd::std_specs::convert::FromSpecImpl<OwnedIsolateOpaque> for usize {
    open spec fn obeys_from_spec() -> bool {
        true
    }

    open spec fn from_spec(v: OwnedIsolateOpaque) -> Self {
        v.0
    }
}

/// Slots of the isolate table, in their order.
#[derive(Debug, Clone, Copy, PartialEq, Eq, Structural)]
pub struct IsolateVTable {
    pub drop: Operation,
    pub ctor: Operation,
    pub ctor_default: Operation,
    pub deref: Operation,
}

impl IsolateVTable {
    /// The isolate table.
    pub open spec fn table() -> IsolateVTable {
        IsolateVTable {
            drop: Operation::IsolateDrop,
            ctor: Operation::IsolateNew,
            ctor_default: Operation::IsolateNewDefault,
            deref: Operation::IsolateDeref,
        }
    }

    /// Number of the slots of the table that hold `op`.
    pub open spec fn count(self, op: Operation) -> nat {
        op.in_slot(self.drop) + op.in_slot(self.ctor) + op.in_slot(self.ctor_default)
            + op.in_slot(self.deref)
    }
}

/// The isolate table.
pub fn isolate_vtable() -> (vt: IsolateVTable)
    ensures
        vt == IsolateVTable::table(),
{
    IsolateVTable {
        drop: Operation::IsolateDrop,
        ctor: Operation::IsolateNew,
        ctor_default: Operation::IsolateNewDefault,
        deref: Operation::IsolateDeref,
    }
}

/// Address of a function that the engine consults for its performance
/// counters. The address is never zero: on the boundary zero stands for "no
/// callback".
#[derive(Debug, Clone, Copy, PartialEq, Eq, Structural)]
pub struct CounterLookupCallback {
    address: usize,
}

impl View for CounterLookupCallback {
    type V = usize;

    closed spec fn view(&self) -> usize {
        self.address
    }
}

impl CounterLookupCallback {
    #[verifier::type_invariant]
    spec fn inv(self) -> bool {
        self.address != 0
    }

    /// The callback at `address`, or nothing where `address` is zero.
    pub fn from_address(address: usize) -> (r: Option<CounterLookupCallback>)
        ensures
            r is Some <==> address != 0,
            r matches Some(callback) ==> callback@ == address,
    {
        if address == 0 {
            None
        } else {
            Some(CounterLookupCallback { address })
        }
    }

    /// The address of the callback.
    pub fn address(&self) -> (r: usize)
        ensures
            r == self@,
            r != 0,
    {
        proof {
            use_type_invariant(self);
        }
        self.address
    }
}

/// Configuration of a new isolate as it crosses the boundary: three-valued
/// settings, and values that count only when the flag beside them is set.
#[derive(Debug, Clone, Copy)]
pub struct IsolateCreateParams {
    pub counter_lookup_callback: Option<CounterLookupCallback>,
    pub allow_atomics_wait: OptionBool,
    pub only_terminate_in_safe_scope: OptionBool,
    pub set_embedder_wrapper_type_info_offsets: bool,
    pub embedder_wrapper_type_index: i32,
    pub embedder_wrapper_object_index: i32,
    pub set_heap_limits: bool,
    pub heap_limits_initial: usize,
    pub heap_limits_max: usize,
}

/// What the engine is asked to build an isolate from. A field that is `None`
/// leaves the engine's own default in place.
#[derive(Debug, Clone, Copy)]
pub struct CreateParams {
    pub counter_lookup_callback: Option<CounterLookupCallback>,
    pub allow_atomics_wait: Option<bool>,
    pub only_terminate_in_safe_scope: Option<bool>,
    /// Type index and object index, in this order.
    pub embedder_wrapper_type_info_offsets: Option<(i32, i32)>,
    /// Initial size and maximum size, in this order.
    pub heap_limits: Option<(usize, usize)>,
}

impl CreateParams {
    /// The parameters that leave every default of the engine in place.
    pub open spec fn engine_defaults() -> CreateParams {
        CreateParams {
            counter_lookup_callback: None,
            allow_atomics_wait: None,
            only_terminate_in_safe_scope: None,
            embedder_wrapper_type_info_offsets: None,
            heap_limits: None,
        }
    }

    pub fn counter_lookup_callback(self, callback: CounterLookupCallback) -> (r: Self)
        ensures
            r == (CreateParams { counter_lookup_callback: Some(callback), ..self }),
    {
        CreateParams { counter_lookup_callback: Some(callback), ..self }
    }

    pub fn allow_atomics_wait(self, value: bool) -> (r: Self)
        ensures
            r == (CreateParams { allow_atomics_wait: Some(value), ..self }),
    {
        CreateParams { allow_atomics_wait: Some(value), ..self }
    }

    pub fn only_terminate_in_safe_scope(self, value: bool) -> (r: Self)
        ensures
            r == (CreateParams { only_terminate_in_safe_scope: Some(value), ..self }),
    {
        CreateParams { only_terminate_in_safe_scope: Some(value), ..self }
    }

    pub fn embedder_wrapper_type_info_offsets(
        self,
        embedder_wrapper_type_index: i32,
        embedder_wrapper_object_index: i32,
    ) -> (r: Self)
        ensures
            r == (CreateParams {
                embedder_wrapper_type_info_offsets: Some(
                    (embedder_wrapper_type_index, embedder_wrapper_object_index),
                ),
                ..self
            }),
    {
        CreateParams {
            embedder_wrapper_type_info_offsets: Some(
                (embedder_wrapper_type_index, embedder_wrapper_object_index),
            ),
            ..self
        }
    }

    pub fn heap_limits(self, initial: usize, max: usize) -> (r: Self)
        ensures
            r == (CreateParams { heap_limits: Some((initial, max)), ..self }),
    {
        CreateParams { heap_limits: Some((initial, max)), ..self }
    }
}

impl Default for CreateParams {
    fn default() -> (r: Self)
        ensures
            r == CreateParams::engine_defaults(),
    {
        CreateParams {
            counter_lookup_callback: None,
            allow_atomics_wait: None,
            only_terminate_in_safe_scope: None,
            embedder_wrapper_type_info_offsets: None,
            heap_limits: None,
        }
    }
}

impl IsolateCreateParams {
    /// The configuration in which nothing is specified.
    pub open spec fn unspecified() -> IsolateCreateParams {
        IsolateCreateParams {
            counter_lookup_callback: None,
            allow_atomics_wait: OptionBool::Unset,
            only_terminate_in_safe_scope: OptionBool::Unset,
            set_embedder_wrapper_type_info_offsets: false,
            embedder_wrapper_type_index: 0,
            embedder_wrapper_object_index: 0,
            set_heap_limits: false,
            heap_limits_initial: 0,
            heap_limits_max: 0,
        }
    }

    /// What the configuration asks of the engine: each option is passed on if
    /// and only if it was specified, with the value that was given.
    pub open spec fn resolved(self) -> CreateParams {
        CreateParams {
            counter_lookup_callback: self.counter_lookup_callback,
            allow_atomics_wait: self.allow_atomics_wait.to_option(),
            only_terminate_in_safe_scope: self.only_terminate_in_safe_scope.to_option(),
            embedder_wrapper_type_info_offsets: if self.set_embedder_wrapper_type_info_offsets {
                Some((self.embedder_wrapper_type_index, self.embedder_wrapper_object_index))
            } else {
                None
            },
            heap_limits: if self.set_heap_limits {
                Some((self.heap_limits_initial, self.heap_limits_max))
            } else {
                None
            },
        }
    }
}

/// The parameters of an isolate with the engine's defaults. The engine must
/// be up before an isolate is built.
pub fn isolate_new_default(state: &Lifecycle) -> (cp: CreateParams)
    requires
        state.wf(),
        state@.initialized,
    ensures
        cp == CreateParams::engine_defaults(),
{
    CreateParams::default()
}

/// The parameters of an isolate with an explicit configuration. An option
/// that was left unset, or whose flag is not set, is not passed on, so the
/// engine keeps its default for it. The engine must be up before an isolate
/// is built.
pub fn isolate_new(state: &Lifecycle, params: IsolateCreateParams) -> (cp: CreateParams)
    requires
        state.wf(),
        state@.initialized,
    ensures
        cp == params.resolved(),
{
    let mut cp = CreateParams::default();
    if let Some(v) = params.counter_lookup_callback {
        cp = cp.counter_lookup_callback(v);
    }
    if let Some(v) = params.allow_atomics_wait.as_opt() {
        cp = cp.allow_atomics_wait(v);
    }
    if let Some(v) = params.only_terminate_in_safe_scope.as_opt() {
        cp = cp.only_terminate_in_safe_scope(v);
    }
    if params.set_embedder_wrapper_type_info_offsets {
        cp = cp.embedder_wrapper_type_info_offsets(
            params.embedder_wrapper_type_index,
            params.embedder_wrapper_object_index,
        );
    }
    if params.set_heap_limits {
        cp = cp.heap_limits(params.heap_limits_initial, params.heap_limits_max);
    }
    cp
}

/// A configuration that specifies nothing asks for the engine's defaults,
/// whatever values stand beside its unset flags.
pub proof fn lemma_nothing_specified_is_default(params: IsolateCreateParams)
    requires
        params.counter_lookup_callback is None,
        params.allow_atomics_wait == OptionBool::Unset,
        params.only_terminate_in_safe_scope == OptionBool::Unset,
        !params.set_embedder_wrapper_type_info_offsets,
        !params.set_heap_limits,
    ensures
        params.resolved() == CreateParams::engine_defaults(),
        IsolateCreateParams::unspecified().resolved() == CreateParams::engine_defaults(),
{
}

/// Gives an isolate up for destruction and returns the native bits that the
/// engine is to destroy. No scope of the isolate may still be open.
pub fn isolate_drop(ptr: OwnedIsolateOpaque, scopes: ScopeStack) -> (native: usize)
    requires
        scopes.wf(),
        scopes@.isolate == ptr@,
        scopes@.no_scope(),
    ensures
        native == ptr@,
{
    usize::from(ptr)
}

/// The borrowed view of an owned isolate: the same address, without
/// ownership.
pub fn isolate_deref(ptr: &OwnedIsolateOpaque) -> (r: IsolateOpaque)
    ensures
        r@ == ptr@,
{
    IsolateOpaque(ptr.0)
}

/// An isolate's native bits and its token determine each other: converting
/// either way and back gives what one started from.
pub proof fn lemma_owned_isolate_round_trip(native: usize, token: OwnedIsolateOpaque)
    ensures
        OwnedIsolateOpaque::from_spec(native)@ == native,
        usize::from_spec(OwnedIsolateOpaque::from_spec(native)) == native,
        OwnedIsolateOpaque::from_spec(usize::from_spec(token)) == token,
{
}

} // verus!
