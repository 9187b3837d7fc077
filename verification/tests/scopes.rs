//! The order in which scopes open and close, and the validity of local
//! handles.

use v8core::{
    context_new, context_scope_isolate_deref_to_context_scope,
    context_scope_isolate_deref_to_isolate, context_scope_isolate_deref_to_isolate_scope,
    context_scope_isolate_drop, context_scope_isolate_new, handle_scope_isolate_deref_to_isolate,
    handle_scope_isolate_drop, handle_scope_isolate_new, handle_scope_isolate_vtable,
    isolate_deref, isolate_drop, HandleScopeOpaque, LocalContextOpaque, Operation,
    OwnedIsolateOpaque, ScopeStack,
};

const ISOLATE: usize = 0x1000;
const HANDLE: usize = 0x2000;
const CONTEXT: usize = 0x3000;
const INNER: usize = 0x4000;

fn isolate() -> (OwnedIsolateOpaque, ScopeStack) {
    (OwnedIsolateOpaque::from(ISOLATE), ScopeStack::new(ISOLATE))
}

#[test]
fn a_new_isolate_has_no_scope() {
    let (_isolate, scopes) = isolate();
    assert_eq!(scopes.isolate(), ISOLATE);
    assert_eq!(scopes.depth(), 0);
    assert!(scopes.may_open_handle_scope());
    assert!(!scopes.in_context());
    assert!(!scopes.is_innermost(HANDLE));
    assert!(!scopes.is_innermost(0));
    assert!(!scopes.is_live(CONTEXT));
    assert!(!scopes.may_close_scope(HANDLE));
    assert!(!scopes.may_close_context_scope(HANDLE));
    assert!(!scopes.may_open_context_scope(HANDLE, CONTEXT));
}

#[test]
fn a_handle_scope_opens_under_the_isolate() {
    let (isolate, mut scopes) = isolate();
    let scope = handle_scope_isolate_new(&isolate, &mut scopes, HANDLE);
    assert_eq!(scope, HandleScopeOpaque(HANDLE));
    assert_eq!(scopes.depth(), 1);
    assert!(scopes.is_innermost(HANDLE));
    assert!(!scopes.in_context());
    assert!(!scopes.may_open_handle_scope());
    assert!(scopes.may_close_scope(HANDLE));
    assert!(!scopes.may_close_scope(HANDLE + 8));
    assert!(!scopes.may_close_context_scope(HANDLE));
    assert_eq!(handle_scope_isolate_deref_to_isolate(&scopes, &scope), isolate_deref(&isolate));
}

#[test]
fn scopes_close_in_reverse_order() {
    let (isolate, mut scopes) = isolate();
    assert!(scopes.may_open_handle_scope());
    let scope = handle_scope_isolate_new(&isolate, &mut scopes, HANDLE);
    assert!(scopes.is_innermost(HANDLE));
    let context = context_new(&mut scopes, &scope, CONTEXT);
    assert!(scopes.may_open_context_scope(HANDLE, CONTEXT));
    let inner = context_scope_isolate_new(&mut scopes, &scope, context, INNER);
    assert_eq!(scopes.depth(), 2);
    assert!(scopes.may_close_context_scope(INNER));
    assert_eq!(context_scope_isolate_drop(&mut scopes, inner), INNER);
    assert_eq!(scopes.depth(), 1);
    assert!(scopes.may_close_scope(HANDLE));
    assert_eq!(handle_scope_isolate_drop(&mut scopes, scope), HANDLE);
    assert_eq!(scopes.depth(), 0);
    assert!(scopes.may_open_handle_scope());
    assert!(!scopes.is_live(CONTEXT));
    assert_eq!(isolate_drop(isolate, scopes), ISOLATE);
}

#[test]
fn the_handle_scope_may_not_close_under_an_open_context_scope() {
    let (isolate, mut scopes) = isolate();
    let scope = handle_scope_isolate_new(&isolate, &mut scopes, HANDLE);
    let context = context_new(&mut scopes, &scope, CONTEXT);
    let inner = context_scope_isolate_new(&mut scopes, &scope, context, INNER);
    assert!(!scopes.may_close_scope(HANDLE));
    assert!(scopes.may_close_scope(INNER));
    assert!(!scopes.is_innermost(HANDLE));
    assert!(!scopes.may_close_context_scope(HANDLE));
    assert!(scopes.may_close_context_scope(INNER));
    context_scope_isolate_drop(&mut scopes, inner);
    assert!(scopes.may_close_scope(HANDLE));
}

#[test]
fn a_second_handle_scope_may_not_open() {
    let (isolate, mut scopes) = isolate();
    let _scope = handle_scope_isolate_new(&isolate, &mut scopes, HANDLE);
    assert!(!scopes.may_open_handle_scope());
}

#[test]
fn a_context_scope_needs_the_innermost_scope_and_a_valid_context() {
    let (isolate, mut scopes) = isolate();
    let scope = handle_scope_isolate_new(&isolate, &mut scopes, HANDLE);
    assert!(!scopes.may_open_context_scope(HANDLE, CONTEXT));
    let context = context_new(&mut scopes, &scope, CONTEXT);
    assert_eq!(context, LocalContextOpaque(CONTEXT));
    assert!(scopes.may_open_context_scope(HANDLE, CONTEXT));
    assert!(!scopes.may_open_context_scope(HANDLE + 8, CONTEXT));
    assert!(!scopes.may_open_context_scope(HANDLE, CONTEXT + 8));
    let _inner = context_scope_isolate_new(&mut scopes, &scope, context, INNER);
    assert!(!scopes.may_open_context_scope(HANDLE, CONTEXT));
    assert!(scopes.may_open_context_scope(INNER, CONTEXT));
}

#[test]
fn context_scopes_nest() {
    let (isolate, mut scopes) = isolate();
    let scope = handle_scope_isolate_new(&isolate, &mut scopes, HANDLE);
    let context = context_new(&mut scopes, &scope, CONTEXT);
    let first = context_scope_isolate_new(&mut scopes, &scope, context, INNER);
    let as_scope = context_scope_isolate_deref_to_context_scope(&scopes, &first);
    let other = context_new(&mut scopes, &as_scope.ptr, CONTEXT + 8);
    let second = context_scope_isolate_new(&mut scopes, &as_scope.ptr, other, INNER + 8);
    assert_eq!(scopes.depth(), 3);
    assert!(scopes.is_innermost(INNER + 8));
    assert!(!scopes.may_close_context_scope(INNER));
    assert!(scopes.may_close_context_scope(INNER + 8));
    assert_eq!(context_scope_isolate_drop(&mut scopes, second), INNER + 8);
    assert!(scopes.may_close_context_scope(INNER));
    assert_eq!(context_scope_isolate_drop(&mut scopes, first), INNER);
    assert!(scopes.is_live(CONTEXT));
    assert!(scopes.is_live(CONTEXT + 8));
    assert_eq!(handle_scope_isolate_drop(&mut scopes, scope), HANDLE);
    assert!(!scopes.is_live(CONTEXT));
    assert!(!scopes.is_live(CONTEXT + 8));
}

#[test]
fn a_context_scope_derefs_to_its_isolate() {
    let (isolate, mut scopes) = isolate();
    let scope = handle_scope_isolate_new(&isolate, &mut scopes, HANDLE);
    let context = context_new(&mut scopes, &scope, CONTEXT);
    let inner = context_scope_isolate_new(&mut scopes, &scope, context, INNER);
    let view = context_scope_isolate_deref_to_isolate(&scopes, &inner);
    assert_eq!(view, isolate_deref(&isolate));
    assert_eq!(view.0, ISOLATE);
}

#[test]
fn a_context_scope_derefs_to_a_scope_with_its_table() {
    let (isolate, mut scopes) = isolate();
    let scope = handle_scope_isolate_new(&isolate, &mut scopes, HANDLE);
    let context = context_new(&mut scopes, &scope, CONTEXT);
    let inner = context_scope_isolate_new(&mut scopes, &scope, context, INNER);

    let bare = context_scope_isolate_deref_to_isolate_scope(&scopes, &inner);
    assert_eq!(bare.ptr, HandleScopeOpaque(INNER));
    assert_eq!(bare.vt, handle_scope_isolate_vtable());
    assert!(scopes.is_innermost(bare.ptr.0));

    let with_context = context_scope_isolate_deref_to_context_scope(&scopes, &inner);
    assert_eq!(with_context.ptr, HandleScopeOpaque(INNER));
    assert_eq!(with_context.vt, handle_scope_isolate_vtable());
    assert!(scopes.is_innermost(with_context.ptr.0));
    assert!(scopes.in_context());
}

#[test]
fn the_table_that_comes_with_a_context_scope_closes_it() {
    let (isolate, mut scopes) = isolate();
    let scope = handle_scope_isolate_new(&isolate, &mut scopes, HANDLE);
    let context = context_new(&mut scopes, &scope, CONTEXT);
    let inner = context_scope_isolate_new(&mut scopes, &scope, context, INNER);

    let current = context_scope_isolate_deref_to_context_scope(&scopes, &inner);
    assert_eq!(current.vt.drop, Operation::HandleScopeIsolateDrop);
    assert!(scopes.may_close_scope(current.ptr.0));
    assert_eq!(handle_scope_isolate_drop(&mut scopes, current.ptr), INNER);
    assert_eq!(scopes.depth(), 1);
    assert!(scopes.is_innermost(HANDLE));
    assert!(!scopes.in_context());
    assert!(scopes.is_live(CONTEXT));

    assert!(scopes.may_close_scope(HANDLE));
    assert_eq!(handle_scope_isolate_drop(&mut scopes, scope), HANDLE);
    assert_eq!(scopes.depth(), 0);
    assert!(!scopes.is_live(CONTEXT));
}

#[test]
fn the_table_that_comes_with_the_enclosing_scope_closes_the_context_scope() {
    let (isolate, mut scopes) = isolate();
    let scope = handle_scope_isolate_new(&isolate, &mut scopes, HANDLE);
    let context = context_new(&mut scopes, &scope, CONTEXT);
    let inner = context_scope_isolate_new(&mut scopes, &scope, context, INNER);

    let bare = context_scope_isolate_deref_to_isolate_scope(&scopes, &inner);
    assert_eq!(bare.vt.drop, Operation::HandleScopeIsolateDrop);
    assert!(scopes.may_close_scope(bare.ptr.0));
    assert_eq!(handle_scope_isolate_drop(&mut scopes, bare.ptr), INNER);
    assert_eq!(scopes.depth(), 1);
    assert!(scopes.is_innermost(HANDLE));
    assert!(scopes.is_live(CONTEXT));
}

#[test]
fn closing_through_either_table_gives_the_same_state() {
    let (isolate, mut one) = isolate();
    let scope = handle_scope_isolate_new(&isolate, &mut one, HANDLE);
    let context = context_new(&mut one, &scope, CONTEXT);
    let inner = context_scope_isolate_new(&mut one, &scope, context, INNER);
    assert_eq!(context_scope_isolate_drop(&mut one, inner), INNER);

    let (isolate, mut other) = self::isolate();
    let scope = handle_scope_isolate_new(&isolate, &mut other, HANDLE);
    let context = context_new(&mut other, &scope, CONTEXT);
    let inner = context_scope_isolate_new(&mut other, &scope, context, INNER);
    let current = context_scope_isolate_deref_to_context_scope(&other, &inner);
    assert_eq!(handle_scope_isolate_drop(&mut other, current.ptr), INNER);

    assert_eq!(one.depth(), other.depth());
    assert_eq!(one.is_innermost(HANDLE), other.is_innermost(HANDLE));
    assert_eq!(one.is_live(CONTEXT), other.is_live(CONTEXT));
    assert_eq!(one.in_context(), other.in_context());
}

#[test]
fn local_handles_end_with_the_handle_scope() {
    let (isolate, mut scopes) = isolate();
    let scope = handle_scope_isolate_new(&isolate, &mut scopes, HANDLE);
    assert!(!scopes.is_live(CONTEXT));
    let context = context_new(&mut scopes, &scope, CONTEXT);
    assert!(scopes.is_live(CONTEXT));
    let inner = context_scope_isolate_new(&mut scopes, &scope, context, INNER);
    assert!(scopes.is_live(CONTEXT));
    context_scope_isolate_drop(&mut scopes, inner);
    assert!(scopes.is_live(CONTEXT));
    handle_scope_isolate_drop(&mut scopes, scope);
    assert!(!scopes.is_live(CONTEXT));
}

#[test]
fn a_new_handle_scope_starts_without_local_handles() {
    let (isolate, mut scopes) = isolate();
    let scope = handle_scope_isolate_new(&isolate, &mut scopes, HANDLE);
    context_new(&mut scopes, &scope, CONTEXT);
    handle_scope_isolate_drop(&mut scopes, scope);
    let scope = handle_scope_isolate_new(&isolate, &mut scopes, HANDLE + 0x100);
    assert!(!scopes.is_live(CONTEXT));
    assert!(scopes.is_innermost(HANDLE + 0x100));
    assert!(!scopes.is_innermost(HANDLE));
    handle_scope_isolate_drop(&mut scopes, scope);
    assert_eq!(scopes.depth(), 0);
}

#[test]
fn the_same_handle_may_be_handed_out_twice() {
    let (isolate, mut scopes) = isolate();
    let scope = handle_scope_isolate_new(&isolate, &mut scopes, HANDLE);
    let first = context_new(&mut scopes, &scope, CONTEXT);
    let second = context_new(&mut scopes, &scope, CONTEXT);
    assert_eq!(first, second);
    assert!(scopes.is_live(CONTEXT));
    handle_scope_isolate_drop(&mut scopes, scope);
    assert!(!scopes.is_live(CONTEXT));
}
