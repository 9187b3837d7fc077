//! Shared ownership of a platform.

use v8core::{platform_clone, platform_drop, platform_new, PlatformOpaque};

#[test]
fn a_new_platform_has_one_owner() {
    let (token, refs) = platform_new((0x100, 0x200));
    assert_eq!(token, PlatformOpaque::from((0x100, 0x200)));
    assert_eq!(refs.count(), 1);
    assert_eq!(refs.platform(), (0x100, 0x200));
    assert!(refs.holds(&token));
    assert!(!refs.is_freed());
}

#[test]
fn a_clone_is_an_interchangeable_copy() {
    let (token, mut refs) = platform_new((0x100, 0x200));
    let copy = platform_clone(&mut refs, &token);
    assert_eq!(copy, token);
    assert_eq!(refs.count(), 2);
    assert!(refs.holds(&token));
    assert!(refs.holds(&copy));
}

#[test]
fn dropping_the_clone_leaves_the_first_reference_good() {
    let (token, mut refs) = platform_new((0x100, 0x200));
    let copy = platform_clone(&mut refs, &token);
    assert_eq!(platform_drop(&mut refs, copy), (0x100, 0x200));
    assert_eq!(refs.count(), 1);
    assert!(!refs.is_freed());
    assert!(refs.holds(&token));
    let again = platform_clone(&mut refs, &token);
    assert_eq!(again, token);
    assert_eq!(refs.count(), 2);
}

#[test]
fn dropping_the_first_reference_leaves_the_clone_good() {
    let (token, mut refs) = platform_new((0x100, 0x200));
    let copy = platform_clone(&mut refs, &token);
    platform_drop(&mut refs, token);
    assert_eq!(refs.count(), 1);
    assert!(refs.holds(&copy));
    assert!(!refs.is_freed());
}

#[test]
fn dropping_every_reference_frees_the_platform() {
    let (token, mut refs) = platform_new((7, 9));
    let mut owners = vec![token];
    for _ in 0..4 {
        let copy = platform_clone(&mut refs, &owners[0]);
        owners.push(copy);
    }
    assert_eq!(refs.count(), 5);
    let mut left = 5;
    while let Some(owner) = owners.pop() {
        assert!(!refs.is_freed());
        assert!(refs.holds(&owner));
        assert_eq!(platform_drop(&mut refs, owner), (7, 9));
        left -= 1;
        assert_eq!(refs.count(), left);
    }
    assert!(refs.is_freed());
    assert_eq!(refs.count(), 0);
}

#[test]
fn a_freed_platform_holds_no_token() {
    let (token, mut refs) = platform_new((7, 9));
    platform_drop(&mut refs, token);
    assert!(refs.is_freed());
    assert!(!refs.holds(&PlatformOpaque::from((7, 9))));
}

#[test]
fn a_token_of_another_platform_is_not_held() {
    let (_token, refs) = platform_new((7, 9));
    assert!(!refs.holds(&PlatformOpaque::from((7, 10))));
    assert!(!refs.holds(&PlatformOpaque::from((8, 9))));
    assert!(!refs.holds(&PlatformOpaque::from((9, 7))));
}
