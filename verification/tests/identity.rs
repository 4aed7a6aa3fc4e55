use deposit_gate::Identity;

#[test]
fn identity_keeps_its_bytes() {
    let mut bytes = [0u8; 32];
    for (i, b) in bytes.iter_mut().enumerate() {
        *b = i as u8;
    }
    assert_eq!(Identity::new(bytes).bytes, bytes);
}

#[test]
fn same_identities_are_equal() {
    let a = Identity::new([3u8; 32]);
    let b = Identity::new([3u8; 32]);
    assert!(a.same(&b));
    assert!(a == b);
    assert!(a.same(&a));
}

#[test]
fn identities_differing_in_one_byte_are_unequal() {
    let a = Identity::new([3u8; 32]);
    for i in 0..32 {
        let mut bytes = [3u8; 32];
        bytes[i] = 4;
        let b = Identity::new(bytes);
        assert!(!a.same(&b));
        assert!(!b.same(&a));
        assert!(a != b);
    }
}
