use upf_edge::dataplane::{FarKey, PdrKey};

#[test]
fn test_pdr_key_composition() {
    let k = PdrKey::new(1, 2);
    assert_eq!(k.key, 0x0001_0002);
}

#[test]
fn test_far_key_composition() {
    let k = FarKey::new(1, 2);
    assert_eq!(k.key, 0x0001_0002);
}

#[test]
fn test_different_seid_no_collision() {
    let a = PdrKey::new(1, 1);
    let b = PdrKey::new(2, 1);
    assert_ne!(a.key, b.key);
}

#[test]
fn test_same_session_different_ids() {
    let p1 = PdrKey::new(5, 1);
    let p2 = PdrKey::new(5, 2);
    assert_ne!(p1.key, p2.key);
}

#[test]
fn test_max_pdr_id_u16() {
    let k = PdrKey::new(3, 0xFFFF);
    assert_eq!(k.key, (3u64 << 16) | 0xFFFF);
}

#[test]
fn rule_key_keeps_only_low_sixteen_bits_of_the_id() {
    let k = PdrKey::new(7, 0x1_0003);
    assert_eq!(k.key, (7u64 << 16) | 3);
    assert_eq!(k.key >> 16, 7);
}
