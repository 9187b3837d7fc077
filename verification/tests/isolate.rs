//! The configuration of an isolate.

use v8core::{
    auto_ensures_init, is_initialized, isolate_drop, isolate_new, isolate_new_default,
    CounterLookupCallback, CreateParams, IsolateCreateParams, Lifecycle, OptionBool,
    OwnedIsolateOpaque, ScopeStack,
};

fn up() -> Lifecycle {
    let mut state = Lifecycle::new();
    auto_ensures_init(&mut state);
    assert!(is_initialized(&state));
    state
}

fn unspecified() -> IsolateCreateParams {
    IsolateCreateParams {
        counter_lookup_callback: None,
        allow_atomics_wait: OptionBool::Unset,
        only_terminate_in_safe_scope: OptionBool::Unset,
        set_embedder_wrapper_type_info_offsets: false,
        embedder_wrapper_type_index: 0,
        embedder_wrapper_object_index: 0,
        set_heap_limits: false,
        heap_limits_initial: 0,
        heap_limits_max: 0,
    }
}

fn assert_same(a: CreateParams, b: CreateParams) {
    assert_eq!(a.counter_lookup_callback, b.counter_lookup_callback);
    assert_eq!(a.allow_atomics_wait, b.allow_atomics_wait);
    assert_eq!(a.only_terminate_in_safe_scope, b.only_terminate_in_safe_scope);
    assert_eq!(a.embedder_wrapper_type_info_offsets, b.embedder_wrapper_type_info_offsets);
    assert_eq!(a.heap_limits, b.heap_limits);
}

#[test]
fn default_isolate_leaves_every_default() {
    let cp = isolate_new_default(&up());
    assert_eq!(cp.counter_lookup_callback, None);
    assert_eq!(cp.allow_atomics_wait, None);
    assert_eq!(cp.only_terminate_in_safe_scope, None);
    assert_eq!(cp.embedder_wrapper_type_info_offsets, None);
    assert_eq!(cp.heap_limits, None);
    assert_same(cp, CreateParams::default());
}

#[test]
fn nothing_specified_is_the_default() {
    assert_same(isolate_new(&up(), unspecified()), isolate_new_default(&up()));
}

#[test]
fn counter_lookup_callback_is_passed_on() {
    let params = IsolateCreateParams {
        counter_lookup_callback: CounterLookupCallback::from_address(0x4242),
        ..unspecified()
    };
    let cp = isolate_new(&up(), params);
    assert_eq!(cp.counter_lookup_callback, CounterLookupCallback::from_address(0x4242));
    assert_eq!(cp.allow_atomics_wait, None);
    assert_eq!(cp.heap_limits, None);
}

#[test]
fn no_callback_sits_at_address_zero() {
    assert_eq!(CounterLookupCallback::from_address(0), None);
    assert_eq!(CounterLookupCallback::from_address(1).map(|c| c.address()), Some(1));
    assert_eq!(
        CounterLookupCallback::from_address(usize::MAX).map(|c| c.address()),
        Some(usize::MAX)
    );
    let params = IsolateCreateParams {
        counter_lookup_callback: CounterLookupCallback::from_address(0),
        ..unspecified()
    };
    assert_eq!(isolate_new(&up(), params).counter_lookup_callback, None);
}

#[test]
fn explicit_false_is_not_unset() {
    let params = IsolateCreateParams {
        allow_atomics_wait: OptionBool::False,
        only_terminate_in_safe_scope: OptionBool::True,
        ..unspecified()
    };
    let cp = isolate_new(&up(), params);
    assert_eq!(cp.allow_atomics_wait, Some(false));
    assert_eq!(cp.only_terminate_in_safe_scope, Some(true));

    let params = IsolateCreateParams {
        allow_atomics_wait: OptionBool::True,
        only_terminate_in_safe_scope: OptionBool::False,
        ..unspecified()
    };
    let cp = isolate_new(&up(), params);
    assert_eq!(cp.allow_atomics_wait, Some(true));
    assert_eq!(cp.only_terminate_in_safe_scope, Some(false));
}

#[test]
fn offsets_count_only_with_their_flag() {
    let params = IsolateCreateParams {
        set_embedder_wrapper_type_info_offsets: false,
        embedder_wrapper_type_index: 3,
        embedder_wrapper_object_index: 4,
        ..unspecified()
    };
    assert_eq!(isolate_new(&up(), params).embedder_wrapper_type_info_offsets, None);

    let params = IsolateCreateParams {
        set_embedder_wrapper_type_info_offsets: true,
        embedder_wrapper_type_index: 3,
        embedder_wrapper_object_index: -4,
        ..unspecified()
    };
    assert_eq!(isolate_new(&up(), params).embedder_wrapper_type_info_offsets, Some((3, -4)));
}

#[test]
fn heap_limits_count_only_with_their_flag() {
    let params = IsolateCreateParams {
        set_heap_limits: false,
        heap_limits_initial: 1 << 20,
        heap_limits_max: 1 << 30,
        ..unspecified()
    };
    assert_eq!(isolate_new(&up(), params).heap_limits, None);

    let params = IsolateCreateParams {
        set_heap_limits: true,
        heap_limits_initial: 1 << 20,
        heap_limits_max: 1 << 30,
        ..unspecified()
    };
    assert_eq!(isolate_new(&up(), params).heap_limits, Some((1 << 20, 1 << 30)));
}

#[test]
fn heap_limits_of_zero_are_still_limits() {
    let params = IsolateCreateParams { set_heap_limits: true, ..unspecified() };
    assert_eq!(isolate_new(&up(), params).heap_limits, Some((0, 0)));
}

#[test]
fn every_option_at_once() {
    let params = IsolateCreateParams {
        counter_lookup_callback: CounterLookupCallback::from_address(8),
        allow_atomics_wait: OptionBool::True,
        only_terminate_in_safe_scope: OptionBool::False,
        set_embedder_wrapper_type_info_offsets: true,
        embedder_wrapper_type_index: 1,
        embedder_wrapper_object_index: 2,
        set_heap_limits: true,
        heap_limits_initial: 10,
        heap_limits_max: usize::MAX,
    };
    let cp = isolate_new(&up(), params);
    assert_eq!(cp.counter_lookup_callback, CounterLookupCallback::from_address(8));
    assert_eq!(cp.allow_atomics_wait, Some(true));
    assert_eq!(cp.only_terminate_in_safe_scope, Some(false));
    assert_eq!(cp.embedder_wrapper_type_info_offsets, Some((1, 2)));
    assert_eq!(cp.heap_limits, Some((10, usize::MAX)));
}

#[test]
fn builder_sets_one_field_and_keeps_the_rest() {
    let cp = CreateParams::default().allow_atomics_wait(false).heap_limits(1, 2);
    assert_eq!(cp.allow_atomics_wait, Some(false));
    assert_eq!(cp.heap_limits, Some((1, 2)));
    assert_eq!(cp.counter_lookup_callback, None);
    assert_eq!(cp.only_terminate_in_safe_scope, None);
    assert_eq!(cp.embedder_wrapper_type_info_offsets, None);
    let cp = cp.only_terminate_in_safe_scope(true).embedder_wrapper_type_info_offsets(5, 6);
    assert_eq!(cp.only_terminate_in_safe_scope, Some(true));
    assert_eq!(cp.embedder_wrapper_type_info_offsets, Some((5, 6)));
    assert_eq!(cp.allow_atomics_wait, Some(false));
    let callback = CounterLookupCallback::from_address(77).unwrap();
    let cp = cp.counter_lookup_callback(callback);
    assert_eq!(cp.counter_lookup_callback.map(|c| c.address()), Some(77));
    assert_eq!(cp.heap_limits, Some((1, 2)));
}

#[test]
fn dropping_an_isolate_gives_its_bits_to_destroy() {
    let isolate = OwnedIsolateOpaque::from(0xabc0);
    let scopes = ScopeStack::new(0xabc0);
    assert_eq!(scopes.isolate(), 0xabc0);
    assert_eq!(scopes.depth(), 0);
    assert_eq!(isolate_drop(isolate, scopes), 0xabc0);
}
