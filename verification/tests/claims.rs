use inochi2d_rs::claims::{Claims, Singleton};

#[test]
fn nothing_is_claimed_at_first() {
    let claims = Claims::new();
    assert!(!claims.is_claimed(Singleton::Context));
    assert!(!claims.is_claimed(Singleton::Camera));
}

#[test]
fn a_free_singleton_is_granted_once() {
    let mut claims = Claims::new();
    assert!(claims.claim(Singleton::Camera));
    assert!(claims.is_claimed(Singleton::Camera));
    assert!(!claims.claim(Singleton::Camera));
    assert!(claims.is_claimed(Singleton::Camera));
}

#[test]
fn singletons_are_claimed_apart() {
    let mut claims = Claims::new();
    assert!(claims.claim(Singleton::Context));
    assert!(!claims.is_claimed(Singleton::Camera));
    assert!(claims.claim(Singleton::Camera));
    assert!(!claims.claim(Singleton::Context));
}

#[test]
fn a_released_singleton_is_granted_again() {
    let mut claims = Claims::new();
    assert!(claims.claim(Singleton::Context));
    claims.release(Singleton::Context);
    assert!(!claims.is_claimed(Singleton::Context));
    assert!(claims.claim(Singleton::Context));
}

#[test]
fn releasing_what_is_free_changes_nothing() {
    let mut claims = Claims::new();
    assert!(claims.claim(Singleton::Camera));
    claims.release(Singleton::Context);
    assert!(claims.is_claimed(Singleton::Camera));
    assert!(!claims.is_claimed(Singleton::Context));
}
