//! The process-wide bring-up of the engine.
//!
//! The engine is brought up once per process. A platform is installed first,
//! then the engine is initialized; a flag records that this was asked for, and
//! every later request is a no-op. The flag is set by the request that finds
//! it unset, in one step, so of any number of requests exactly one is
//! answered with the action that brings the engine up.

use vstd::prelude::*;
use vstd::string::StringSliceAdditionalSpecFns;
use crate::dispatch::Operation;
use crate::platform::{platform_clone, PlatformOpaque, PlatformRefs};
use crate::slices::ByteSlice;

verus! {

/// Slots of the table of the process-wide operations, in their order.
#[derive(Debug, Clone, Copy, PartialEq, Eq, Structural)]
pub struct V8VTable {
    pub initialize_platform: Operation,
    pub initialize: Operation,
    pub auto_ensures_init: Operation,
    pub is_initialized: Operation,
    pub current_platform: Operation,
    pub version: Operation,
}

impl V8VTable {
    /// The table of the process-wide operations.
    pub open spec fn table() -> V8VTable {
        V8VTable {
            initialize_platform: Operation::V8InitializePlatform,
            initialize: Operation::V8Initialize,
            auto_ensures_init: Operation::AutoEnsuresInit,
            is_initialized: Operation::IsInitialized,
            current_platform: Operation::V8GetCurrentPlatform,
            version: Operation::V8Version,
        }
    }

    /// Number of the slots of the table that hold `op`.
    pub open spec fn count(self, op: Operation) -> nat {
        op.in_slot(self.initialize_platform) + op.in_slot(self.initialize)
            + op.in_slot(self.auto_ensures_init) + op.in_slot(self.is_initialized)
            + op.in_slot(self.current_platform) + op.in_slot(self.version)
    }
}

/// The table of the process-wide operations.
pub fn v8_vtable() -> (vt: V8VTable)
    ensures
        vt == V8VTable::table(),
{
    V8VTable {
        initialize_platform: Operation::V8InitializePlatform,
        initialize: Operation::V8Initialize,
        auto_ensures_init: Operation::AutoEnsuresInit,
        is_initialized: Operation::IsInitialized,
        current_platform: Operation::V8GetCurrentPlatform,
        version: Operation::V8Version,
    }
}

/// What is to be done with the engine in answer to a request.
#[derive(Debug, Clone, Copy, PartialEq, Eq, Structural)]
pub enum BringUp {
    /// Nothing: the engine was brought up before.
    Nothing,
    /// Initialize the engine on the platform that is installed.
    Initialize,
    /// Build a default platform, install it, then initialize the engine.
    DefaultPlatformThenInitialize,
}

/// A request to have the engine up.
#[derive(Debug, Clone, Copy, PartialEq, Eq, Structural)]
pub enum InitRequest {
    /// Initialize on the platform that the caller installed.
    Initialize,
    /// Make sure that the engine is up, on a default platform if need be.
    AutoEnsure,
}

/// The state of the bring-up.
pub struct LifecycleView {
    /// A platform was installed.
    pub platform_installed: bool,
    /// The bring-up was asked for.
    pub initialized: bool,
}

impl LifecycleView {
    /// The state of a process in which nothing was asked for yet.
    pub open spec fn fresh() -> LifecycleView {
        LifecycleView { platform_installed: false, initialized: false }
    }

    /// The engine is never initialized without a platform.
    pub open spec fn wf(self) -> bool {
        self.initialized ==> self.platform_installed
    }

    /// A platform may be installed: none was yet.
    pub open spec fn may_install_platform(self) -> bool {
        !self.platform_installed
    }

    /// The state after a platform was installed.
    pub open spec fn install_platform(self) -> LifecycleView {
        LifecycleView { platform_installed: true, ..self }
    }

    /// The request may be made. Once the engine is up every request may; before
    /// that, initializing needs a platform and the automatic path needs that
    /// the caller installed none.
    pub open spec fn permits(self, request: InitRequest) -> bool {
        self.initialized || match request {
            InitRequest::Initialize => self.platform_installed,
            InitRequest::AutoEnsure => !self.platform_installed,
        }
    }

    /// The action that answers the request.
    pub open spec fn action(self, request: InitRequest) -> BringUp {
        if self.initialized {
            BringUp::Nothing
        } else {
            match request {
                InitRequest::Initialize => BringUp::Initialize,
                InitRequest::AutoEnsure => BringUp::DefaultPlatformThenInitialize,
            }
        }
    }

    /// The state after the request. A request that finds the flag set
    /// changes nothing. One that finds it unset sets it; the automatic path
    /// also installs its default platform, while initializing leaves the
    /// platform as it is.
    pub open spec fn step(self, request: InitRequest) -> LifecycleView {
        if self.initialized {
            self
        } else {
            match request {
                InitRequest::Initialize => LifecycleView { initialized: true, ..self },
                InitRequest::AutoEnsure => LifecycleView {
                    platform_installed: true,
                    initialized: true,
                },
            }
        }
    }

    /// The state after the requests, in their order.
    pub open spec fn run(self, requests: Seq<InitRequest>) -> LifecycleView
        decreases requests.len(),
    {
        if requests.len() == 0 {
            self
        } else {
            self.step(requests[0]).run(requests.drop_first())
        }
    }

    /// Every request may be made when its turn comes.
    pub open spec fn permits_all(self, requests: Seq<InitRequest>) -> bool
        decreases requests.len(),
    {
        requests.len() == 0 || (self.permits(requests[0]) && self.step(requests[0]).permits_all(
            requests.drop_first(),
        ))
    }

    /// Number of the requests that are answered with an action on the engine.
    pub open spec fn bring_ups(self, requests: Seq<InitRequest>) -> nat
        decreases requests.len(),
    {
        if requests.len() == 0 {
            0
        } else {
            let first: nat = if self.action(requests[0]) == BringUp::Nothing {
                0
            } else {
                1
            };
            first + self.step(requests[0]).bring_ups(requests.drop_first())
        }
    }
}

/// The bring-up state of the process.
pub struct Lifecycle {
    platform_installed: bool,
    initialized: bool,
}

impl View for Lifecycle {
    type V = LifecycleView;

    closed spec fn view(&self) -> LifecycleView {
        LifecycleView {
            platform_installed: self.platform_installed,
            initialized: self.initialized,
        }
    }
}

impl Lifecycle {
    /// See [`LifecycleView::wf`].
    pub open spec fn wf(&self) -> bool {
        self@.wf()
    }

    /// The state of a process in which nothing was asked for yet.
    pub fn new() -> (r: Self)
        ensures
            r@ == LifecycleView::fresh(),
            r.wf(),
    {
        Lifecycle { platform_installed: false, initialized: false }
    }

    /// Whether a platform was installed.
    pub fn platform_installed(&self) -> (r: bool)
        ensures
            r == self@.platform_installed,
    {
        self.platform_installed
    }

    /// Whether a platform may be installed now.
    pub fn may_install_platform(&self) -> (r: bool)
        ensures
            r == self@.may_install_platform(),
    {
        !self.platform_installed
    }

    /// Whether `request` may be made now.
    pub fn permits(&self, request: InitRequest) -> (r: bool)
        ensures
            r == self@.permits(request),
    {
        self.initialized || match request {
            InitRequest::Initialize => self.platform_installed,
            InitRequest::AutoEnsure => !self.platform_installed,
        }
    }
}

/// Installs the platform behind `ptr` as the engine's scheduler and returns
/// the native bits that the engine is to take over. The token is used up: its
/// ownership passes to the engine.
pub fn v8_initialize_platform(state: &mut Lifecycle, ptr: PlatformOpaque) -> (native: (
    usize,
    usize,
))
    requires
        old(state).wf(),
        old(state)@.may_install_platform(),
    ensures
        native == ptr@,
        final(state)@ == old(state)@.install_platform(),
        final(state).wf(),
{
    state.platform_installed = true;
    <(usize, usize)>::from(ptr)
}

/// Asks for the engine to be initialized. The request that finds the flag
/// unset sets it and is answered with [`BringUp::Initialize`]; every other
/// request changes nothing and is answered with [`BringUp::Nothing`].
pub fn v8_initialize(state: &mut Lifecycle) -> (action: BringUp)
    requires
        old(state).wf(),
        old(state)@.permits(InitRequest::Initialize),
    ensures
        action == old(state)@.action(InitRequest::Initialize),
        final(state)@ == old(state)@.step(InitRequest::Initialize),
        final(state)@.initialized,
        final(state).wf(),
{
    let was_set = state.initialized;
    state.initialized = true;
    if was_set {
        BringUp::Nothing
    } else {
        BringUp::Initialize
    }
}

/// Makes sure that the engine is up. The request that finds the flag unset
/// sets it and is answered with [`BringUp::DefaultPlatformThenInitialize`];
/// every other request changes nothing and is answered with
/// [`BringUp::Nothing`].
pub fn auto_ensures_init(state: &mut Lifecycle) -> (action: BringUp)
    requires
        old(state).wf(),
        old(state)@.permits(InitRequest::AutoEnsure),
    ensures
        action == old(state)@.action(InitRequest::AutoEnsure),
        final(state)@ == old(state)@.step(InitRequest::AutoEnsure),
        final(state)@.initialized,
        final(state).wf(),
{
    let was_set = state.initialized;
    state.initialized = true;
    if was_set {
        return BringUp::Nothing;
    }
    state.platform_installed = true;
    BringUp::DefaultPlatformThenInitialize
}

/// Whether the bring-up was asked for. Reads the flag and changes nothing.
pub fn is_initialized(state: &Lifecycle) -> (r: bool)
    ensures
        r == state@.initialized,
{
    state.initialized
}

/// A new owning reference to the platform that the engine runs on. The
/// engine must be up; the count of the platform's owners goes up by one.
pub fn v8_get_current_platform(state: &Lifecycle, refs: &mut PlatformRefs) -> (r: PlatformOpaque)
    requires
        state.wf(),
        state@.initialized,
        old(refs)@.alive(),
        old(refs)@.count < usize::MAX,
    ensures
        r@ == old(refs)@.platform,
        final(refs)@ == old(refs)@.acquire(),
        final(refs)@.holds(r@),
{
    let current = PlatformOpaque::from(refs.platform());
    platform_clone(refs, &current)
}

/// The engine's version string as a view of its bytes, valid as long as the
/// string is.
pub fn v8_version<'a>(version: &'a str) -> (r: ByteSlice<'a>)
    ensures
        r@ == version.spec_bytes(),
{
    let bytes = version.as_bytes();
    ByteSlice::new(bytes)
}

/// Of any number of requests, made in any order from a process in which the
/// engine is not up, exactly one is answered with an action on the engine:
/// the first. The flag is set after it and after every request that follows.
pub proof fn lemma_exactly_one_bring_up(state: LifecycleView, requests: Seq<InitRequest>)
    requires
        state.wf(),
        !state.initialized,
        requests.len() >= 1,
        state.permits(requests[0]),
    ensures
        state.permits_all(requests),
        state.bring_ups(requests) == 1,
        state.action(requests[0]) != BringUp::Nothing,
        forall|k: int|
            1 <= k <= requests.len() ==> (#[trigger] state.run(requests.take(k))).initialized,
{
    let next = state.step(requests[0]);
    lemma_initialized_never_reverts(next, requests.drop_first());
    assert forall|k: int| 1 <= k <= requests.len() implies (#[trigger] state.run(
        requests.take(k),
    )).initialized by {
        let prefix = requests.take(k);
        assert(prefix[0] == requests[0]);
        lemma_initialized_never_reverts(next, prefix.drop_first());
    }
}

/// Once the flag is set it stays set: every further request may be made, is
/// answered with no action, and leaves the flag set.
pub proof fn lemma_initialized_never_reverts(state: LifecycleView, requests: Seq<InitRequest>)
    requires
        state.wf(),
        state.initialized,
    ensures
        state.permits_all(requests),
        state.bring_ups(requests) == 0,
        state.run(requests).initialized,
        state.run(requests).wf(),
    decreases requests.len(),
{
    if requests.len() > 0 {
        lemma_initialized_never_reverts(state.step(requests[0]), requests.drop_first());
    }
}

} // verus!
