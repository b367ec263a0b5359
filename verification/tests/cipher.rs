use enigma::enigma::EnigmaBuilder;

#[test]
fn zero_rotor_engine_lowercases_every_letter() {
    let m = EnigmaBuilder::new().build();
    for i in 0..26u8 {
        let lower = (b'a' + i) as char;
        let upper = (b'A' + i) as char;
        assert_eq!(m.encrypt_char(lower), lower);
        assert_eq!(m.encrypt_char(upper), lower);
    }
}

#[test]
fn zero_rotor_engine_lowercases_message() {
    let m = EnigmaBuilder::new().build();
    assert_eq!(m.encrypt_msg("Hello".to_string()), "hello");
}

#[test]
fn single_rotor_applies_its_table_twice() {
    // 'a' sits at position 0; the first named table maps 0 to 4 and 4 to
    // 11, so the forward pass and the return pass together yield 'l'
    let m = EnigmaBuilder::new().with_enigma_i().build();
    assert_eq!(m.encrypt_char('a'), 'l');
}

#[test]
fn encryption_is_not_self_inverse() {
    let m = EnigmaBuilder::new().with_enigma_i().build();
    let once = m.encrypt_char('a');
    let twice = m.encrypt_char(once);
    assert_eq!(once, 'l');
    assert_eq!(twice, 'p');
    assert_ne!(twice, 'a');
}

#[test]
fn uppercase_and_lowercase_encrypt_alike() {
    let m = EnigmaBuilder::new()
        .with_enigma_i()
        .with_enigma_ii()
        .with_enigma_iii()
        .build();
    for i in 0..26u8 {
        let lower = (b'a' + i) as char;
        let upper = (b'A' + i) as char;
        let encrypted = m.encrypt_char(lower);
        assert_eq!(m.encrypt_char(upper), encrypted);
        assert!(encrypted.is_ascii_lowercase());
    }
}

#[test]
fn message_encryption_is_charwise() {
    let m = EnigmaBuilder::new()
        .with_enigma_i()
        .with_enigma_ii()
        .with_enigma_iii()
        .build();
    let by_chars: String = "hello".chars().map(|c| m.encrypt_char(c)).collect();
    assert_eq!(m.encrypt_msg("hello".to_string()), by_chars);
    assert_eq!(m.encrypt_msg("hello".to_string()), "dsppx");
    assert_eq!(m.encrypt_msg("Hello".to_string()), "dsppx");
}

#[test]
fn message_encryption_splits_over_concatenation() {
    let m = EnigmaBuilder::new()
        .with_enigma_i()
        .with_enigma_ii()
        .with_enigma_iii()
        .build();
    let whole = m.encrypt_msg("helloworld".to_string());
    let parts = format!(
        "{}{}",
        m.encrypt_msg("hello".to_string()),
        m.encrypt_msg("world".to_string())
    );
    assert_eq!(whole, parts);
    assert_eq!(whole, "dsppxexkpg");
}

#[test]
fn every_rotor_table_permutes_the_alphabet() {
    let engines = vec![
        EnigmaBuilder::new().with_enigma_i().build(),
        EnigmaBuilder::new().with_enigma_ii().build(),
        EnigmaBuilder::new().with_enigma_iii().build(),
        EnigmaBuilder::new().with_enigma_iv().build(),
        EnigmaBuilder::new().with_enigma_v().build(),
        EnigmaBuilder::new().with_enigma_vi().build(),
        EnigmaBuilder::new().with_enigma_vii().build(),
        EnigmaBuilder::new().with_enigma_viii().build(),
    ];
    for m in engines {
        // a bijection composed with itself is still a bijection: the 26
        // letters must encrypt to 26 distinct lowercase letters
        let mut seen = [false; 26];
        for i in 0..26u8 {
            let e = m.encrypt_char((b'a' + i) as char);
            assert!(e.is_ascii_lowercase());
            let k = (e as u8 - b'a') as usize;
            assert!(!seen[k]);
            seen[k] = true;
        }
        assert!(seen.iter().all(|&b| b));
    }
}

#[test]
fn each_named_rotor_has_its_own_wiring() {
    assert_eq!(
        EnigmaBuilder::new().with_enigma_i().build().encrypt_char('a'),
        'l'
    );
    assert_eq!(
        EnigmaBuilder::new().with_enigma_ii().build().encrypt_char('a'),
        'a'
    );
    assert_eq!(
        EnigmaBuilder::new().with_enigma_iii().build().encrypt_char('a'),
        'd'
    );
    assert_eq!(
        EnigmaBuilder::new().with_enigma_iv().build().encrypt_char('a'),
        'p'
    );
    assert_eq!(
        EnigmaBuilder::new().with_enigma_v().build().encrypt_char('a'),
        'o'
    );
    assert_eq!(
        EnigmaBuilder::new().with_enigma_vi().build().encrypt_char('a'),
        'q'
    );
    assert_eq!(
        EnigmaBuilder::new().with_enigma_vii().build().encrypt_char('a'),
        'o'
    );
    assert_eq!(
        EnigmaBuilder::new().with_enigma_viii().build().encrypt_char('a'),
        'l'
    );
}

#[test]
fn rotor_order_matters() {
    let first_then_second = EnigmaBuilder::new().with_enigma_i().with_enigma_ii().build();
    let second_then_first = EnigmaBuilder::new().with_enigma_ii().with_enigma_i().build();
    assert_eq!(first_then_second.encrypt_char('a'), 'j');
    assert_eq!(second_then_first.encrypt_char('a'), 'h');
}

#[test]
fn rotor_i_maps_the_whole_alphabet() {
    let m = EnigmaBuilder::new().with_enigma_i().build();
    let out = m.encrypt_msg("abcdefghijklmnopqrstuvwxyz".to_string());
    assert_eq!(out, "lnogtdfxijwpybcqrashevkumz");
}

#[test]
fn all_eight_rotors_stack_in_order() {
    let m = EnigmaBuilder::new()
        .with_enigma_i()
        .with_enigma_ii()
        .with_enigma_iii()
        .with_enigma_iv()
        .with_enigma_v()
        .with_enigma_vi()
        .with_enigma_vii()
        .with_enigma_viii()
        .build();
    assert_eq!(m.encrypt_char('a'), 'c');
}

#[test]
fn non_letters_pass_through_unchanged() {
    let m = EnigmaBuilder::new().with_enigma_i().build();
    assert_eq!(m.encrypt_char('1'), '1');
    assert_eq!(m.encrypt_char(' '), ' ');
    assert_eq!(m.encrypt_char('!'), '!');
    assert_eq!(m.encrypt_msg("a b!".to_string()), "l n!");
}
