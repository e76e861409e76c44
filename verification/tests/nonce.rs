use p2p_handshake::nonce::NONCES_CAP;
use p2p_handshake::NonceRegistry;

fn filled(from: u64, to: u64) -> NonceRegistry {
    let mut registry = NonceRegistry::new();
    for nonce in from..=to {
        registry.register(nonce);
    }
    registry
}

fn holds_exactly(registry: &NonceRegistry, from: u64, to: u64) -> bool {
    registry.len() as u64 == to - from + 1
        && (from..=to).all(|n| registry.contains(n))
        && !registry.contains(from - 1)
        && !registry.contains(to + 1)
}

#[test]
fn the_cap_is_one_hundred() {
    assert_eq!(NONCES_CAP, 100);
}

#[test]
fn a_new_registry_holds_nothing() {
    let registry = NonceRegistry::new();
    assert_eq!(registry.len(), 0);
    assert!(!registry.contains(0));
    assert!(!registry.contains(42));
}

#[test]
fn a_registered_nonce_is_held() {
    let mut registry = NonceRegistry::new();
    registry.register(42);
    assert_eq!(registry.len(), 1);
    assert!(registry.contains(42));
    assert!(!registry.contains(43));
    registry.register(0);
    assert_eq!(registry.len(), 2);
    assert!(registry.contains(0));
    assert!(registry.contains(42));
}

#[test]
fn the_registry_fills_up_to_one_below_the_cap() {
    let registry = filled(1, 99);
    assert!(holds_exactly(&registry, 1, 99));
}

#[test]
fn reaching_the_cap_drops_the_oldest() {
    let mut registry = filled(1, 99);
    registry.register(100);
    assert!(holds_exactly(&registry, 2, 100));
    registry.register(101);
    assert!(holds_exactly(&registry, 3, 101));
}

#[test]
fn a_long_run_leaves_the_newest() {
    assert!(holds_exactly(&filled(1, 150), 52, 150));
    assert!(holds_exactly(&filled(1, 1000), 902, 1000));
}

#[test]
fn the_size_never_reaches_the_cap() {
    let mut registry = NonceRegistry::new();
    for nonce in 0..500u64 {
        registry.register(nonce);
        assert!(registry.len() < NONCES_CAP);
        assert_eq!(registry.len() as u64, (nonce + 1).min(99));
    }
}

#[test]
fn a_nonce_is_remembered_for_a_while_and_then_forgotten() {
    let mut registry = filled(1000, 1050);
    registry.register(7);
    assert!(registry.contains(7));
    for later in 1..=98u64 {
        registry.register(2000 + later);
        assert!(registry.contains(7));
    }
    registry.register(2099);
    assert!(!registry.contains(7));
}

#[test]
fn a_nonce_issued_twice_is_held_until_both_have_left() {
    let mut registry = NonceRegistry::new();
    registry.register(7);
    registry.register(7);
    assert_eq!(registry.len(), 2);
    for later in 1..=98u64 {
        registry.register(100 + later);
    }
    assert_eq!(registry.len(), 99);
    assert!(registry.contains(7));
    registry.register(500);
    assert!(!registry.contains(7));
}

#[test]
fn a_drawn_nonce_is_registered() {
    let mut registry = NonceRegistry::new();
    let nonce = registry.generate_and_register().expect("the random source works");
    assert_eq!(registry.len(), 1);
    assert!(registry.contains(nonce));
}

#[test]
fn drawn_nonces_differ_and_age_out() {
    let mut registry = NonceRegistry::new();
    let mut drawn: Vec<u64> = Vec::new();
    for _ in 0..250 {
        drawn.push(registry.generate_and_register().expect("the random source works"));
        assert!(registry.len() < NONCES_CAP);
    }
    assert_eq!(registry.len(), 99);
    let mut sorted = drawn.clone();
    sorted.sort();
    sorted.dedup();
    assert!(sorted.len() > 240);
    for nonce in &drawn[151..] {
        assert!(registry.contains(*nonce));
    }
    let kept = &drawn[151..];
    for nonce in &drawn[..151] {
        assert_eq!(registry.contains(*nonce), kept.contains(nonce));
    }
}
