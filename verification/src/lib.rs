//! Boundary layer of an embedded script engine.
//!
//! The engine's objects (platforms, isolates, scopes, local handles) cross the
//! boundary as fixed-width tokens. This crate holds the rules of that boundary:
//! how a token relates to the native bits it stands for, which operation sits
//! in which slot of the dispatch tables, how the one-time bring-up is guarded,
//! in which order scopes may be opened and closed, and how an optional result
//! is handed back through an output location.
//!
//! The engine itself is not called from here. Every function takes what the
//! engine produced as a plain value and says what the boundary makes of it.

pub mod context;
pub mod context_scope;
pub mod dispatch;
pub mod handle_scope;
pub mod isolate;
pub mod lifecycle;
pub mod option_bool;
pub mod output;
pub mod platform;
pub mod scope_stack;
pub mod script;
pub mod slices;
pub mod string;
pub mod value;

pub use context::{context_new, context_vtable, ContextVTable, LocalContextOpaque};
pub use context_scope::{
    context_scope_isolate_deref_to_context_scope, context_scope_isolate_deref_to_isolate,
    context_scope_isolate_deref_to_isolate_scope, context_scope_isolate_drop,
    context_scope_isolate_new, context_scope_isolate_vtable, context_scope_vtable,
    ContextScopeImplVTable, ContextScopeOpaque, ContextScopeVTable,
};
pub use dispatch::{coplt_v8core_get_root_vtable, Operation, RootVTable};
pub use handle_scope::{
    handle_scope_isolate_deref_to_isolate, handle_scope_isolate_drop, handle_scope_isolate_new,
    handle_scope_isolate_vtable, handle_scope_vtable, HandleScopeImplVTable, HandleScopeObject,
    HandleScopeOpaque, HandleScopeVTable,
};
pub use isolate::{
    isolate_deref, isolate_drop, isolate_new, isolate_new_default, isolate_vtable,
    CounterLookupCallback, CreateParams, IsolateCreateParams, IsolateOpaque, IsolateVTable,
    OwnedIsolateOpaque,
};
pub use lifecycle::{
    auto_ensures_init, is_initialized, v8_get_current_platform, v8_initialize,
    v8_initialize_platform, v8_version, v8_vtable, BringUp, InitRequest, Lifecycle, V8VTable,
};
pub use option_bool::OptionBool;
pub use output::write_output;
pub use platform::{
    platform_clone, platform_drop, platform_new, platform_vtable, PlatformOpaque, PlatformRefs,
    PlatformVTable, SharedPtrOpaque,
};
pub use scope_stack::{ScopeFrame, ScopeStack};
pub use script::{script_compile, script_run, script_vtable, LocalScriptOpaque, ScriptVTable};
pub use slices::{ByteSlice, CharSlice, CharSliceMut};
pub use string::{
    string_new_utf16, string_vtable, string_write_options, LocalStringOpaque, StringVTable,
    WriteOptions, HINT_MANY_WRITES_EXPECTED, NO_NULL_TERMINATION, NO_OPTIONS,
    PRESERVE_ONE_BYTE_NULL, REPLACE_INVALID_UTF8,
};
pub use value::{
    to_string, type_of, value_deref, value_vtable, LocalValueOpaque, ValueOpaque, ValueVTable,
};
