use ferropassgen::{PassGen, PassGenError, PassphraseGen};

fn fruits() -> Vec<String> {
    vec!["apple".to_string(), "banana".to_string(), "cherry".to_string()]
}

#[test]
fn test_passphrase_gen_new() {
    let tokenset = vec!["apple".to_string(), "banana".to_string(), "cherry".to_string()];

    // Test valid input
    let passphrase_gen = PassphraseGen::new(4, tokenset.clone(), None, None);
    assert!(passphrase_gen.is_ok());

    // Test invalid length
    let passphrase_gen = PassphraseGen::new(0, tokenset.clone(), None, None);
    assert_eq!(passphrase_gen.unwrap_err(), PassGenError::InvalidLength);

    // Test empty tokenset
    let passphrase_gen = PassphraseGen::new(4, vec![], None, None);
    assert_eq!(passphrase_gen.unwrap_err(), PassGenError::EmptyTokenSet);
}

#[test]
fn test_passphrase_gen_generate() {
    let tokenset = vec!["apple".to_string(), "banana".to_string(), "cherry".to_string()];

    // Test default separator and word case
    let passphrase_gen = PassphraseGen::new(4, tokenset.clone(), None, None).unwrap();
    let passphrase = passphrase_gen.generate();
    assert_eq!(passphrase.split('-').count(), 4);
    assert!(passphrase.chars().all(|c| c.is_lowercase() || c == '-'));

    // Test custom separator
    let passphrase_gen = PassphraseGen::new(4, tokenset.clone(), Some('_'), None).unwrap();
    let passphrase = passphrase_gen.generate();
    assert_eq!(passphrase.split('_').count(), 4);

    // Test uppercase word case
    let passphrase_gen = PassphraseGen::new(4, tokenset, None, Some(true)).unwrap();
    let passphrase = passphrase_gen.generate();
    assert!(passphrase.chars().all(|c| c.is_uppercase() || c == '-'));
}

#[test]
fn passphrase_lowercase_scenario() {
    let gen = PassphraseGen::new(4, fruits(), Some('-'), Some(false)).unwrap();
    for _ in 0..20 {
        let p = gen.generate();
        let segments: Vec<&str> = p.split('-').collect();
        assert_eq!(segments.len(), 4);
        assert!(segments.iter().all(|s| ["apple", "banana", "cherry"].contains(s)));
    }
}

#[test]
fn passphrase_uppercase_scenario() {
    let gen = PassphraseGen::new(4, fruits(), Some('_'), Some(true)).unwrap();
    for _ in 0..20 {
        let p = gen.generate();
        let segments: Vec<&str> = p.split('_').collect();
        assert_eq!(segments.len(), 4);
        assert!(segments.iter().all(|s| ["APPLE", "BANANA", "CHERRY"].contains(s)));
    }
}

#[test]
fn passphrase_zero_length_wins_over_empty_set() {
    let r = PassphraseGen::new(0, vec![], Some('_'), Some(true));
    assert_eq!(r.unwrap_err(), PassGenError::InvalidLength);
}

#[test]
fn render_lowercases_with_default_options() {
    let gen = PassphraseGen::new(3, fruits(), None, None).unwrap();
    let draws = vec!["ApPle".to_string(), "CHERRY".to_string(), "banana".to_string()];
    assert_eq!(gen.render(&draws), "apple-cherry-banana");
}

#[test]
fn render_uppercases_with_custom_separator() {
    let gen = PassphraseGen::new(2, fruits(), Some(' '), Some(true)).unwrap();
    let draws = vec!["apple".to_string(), "Banana".to_string()];
    assert_eq!(gen.render(&draws), "APPLE BANANA");
}

#[test]
fn render_single_and_no_words() {
    let gen = PassphraseGen::new(1, fruits(), Some('+'), None).unwrap();
    assert_eq!(gen.render(&vec!["Cherry".to_string()]), "cherry");
    assert_eq!(gen.render(&vec![]), "");
}

#[test]
fn passphrase_single_word_list_is_repeated() {
    let gen = PassphraseGen::new(3, vec!["Kiwi".to_string()], Some('.'), None).unwrap();
    assert_eq!(gen.generate(), "kiwi.kiwi.kiwi");
}

#[test]
fn passphrase_draws_are_roughly_uniform() {
    let gen = PassphraseGen::new(1, fruits(), None, None).unwrap();
    let trials = 9000;
    let mut counts = [0usize; 3];
    for _ in 0..trials {
        let p = gen.generate();
        let k = ["apple", "banana", "cherry"].iter().position(|w| *w == p).unwrap();
        counts[k] += 1;
    }
    let expected = trials as f64 / 3.0;
    let chi: f64 = counts.iter().map(|&n| (n as f64 - expected).powi(2) / expected).sum();
    // 2 degrees of freedom: the 0.9999 quantile is about 18.4.
    assert!(chi < 18.4, "chi-square {} over counts {:?}", chi, counts);
}
