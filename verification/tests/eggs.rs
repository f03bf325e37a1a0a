use vsf::eggs::{eggs_from_bytes, eggs_to_bytes, placeholder_eggs, Egg, SCHEME_ED25519};

#[test]
fn round_trips_and_rejects_malformed() {
    let eggs = vec![Egg { scheme: 0, sig: vec![1u8; 64] }, Egg { scheme: 1, sig: vec![2u8; 666] }];
    assert_eq!(eggs_from_bytes(&eggs_to_bytes(&eggs)).unwrap(), eggs);
    assert!(eggs_from_bytes(&[]).is_err());
    assert!(eggs_from_bytes(&[0]).is_err());
    let mut dup = eggs.clone();
    dup.push(Egg { scheme: 0, sig: vec![3u8; 64] });
    assert!(eggs_from_bytes(&eggs_to_bytes(&dup)).is_err());
    let mut t = eggs_to_bytes(&eggs);
    t.push(0);
    assert!(eggs_from_bytes(&t).is_err());
    assert_eq!(eggs_from_bytes(&[]), Err("egg list: empty"));
    assert_eq!(eggs_from_bytes(&[0]), Err("egg list: no eggs"));
    assert_eq!(eggs_from_bytes(&eggs_to_bytes(&dup)), Err("egg list: duplicate scheme"));
    assert_eq!(eggs_from_bytes(&t), Err("egg list: trailing bytes"));
    assert_eq!(eggs_from_bytes(&[1, 0, 1]), Err("egg list: truncated egg"));
    assert_eq!(eggs_from_bytes(&[1, 0, 5, 0, 0, 0, 1]), Err("egg list: truncated signature"));
}

#[test]
fn placeholder_matches_signed_length() {
    let ph = placeholder_eggs(&[(0, 64), (1, 666)]);
    let signed = eggs_to_bytes(&[Egg { scheme: 0, sig: vec![9u8; 64] }, Egg { scheme: 1, sig: vec![9u8; 666] }]);
    assert_eq!(ph.len(), signed.len());
}

#[test]
fn egg_wire_layout() {
    let b = eggs_to_bytes(&[Egg { scheme: SCHEME_ED25519, sig: vec![7, 8] }]);
    assert_eq!(b, vec![1, 0, 2, 0, 0, 0, 7, 8]);
}

#[test]
fn placeholder_is_zero_filled() {
    assert_eq!(placeholder_eggs(&[(3, 2)]), vec![1, 3, 2, 0, 0, 0, 0, 0]);
}
