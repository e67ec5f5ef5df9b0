use katbin::keygen::generate_key;

const VOWELS: &str = "aeiou";
const CONSONANTS: &str = "bcdfghjklmnpqrstvwxyz";

fn is_vowel(c: char) -> bool {
    VOWELS.contains(c)
}

fn is_consonant(c: char) -> bool {
    CONSONANTS.contains(c)
}

fn check_key(length: usize) {
    let key = generate_key(length);
    let chars: Vec<char> = key.chars().collect();
    assert_eq!(chars.len(), length);
    if chars.is_empty() {
        return;
    }
    let vowel_first = is_vowel(chars[0]);
    for (i, c) in chars.iter().enumerate() {
        assert!(is_vowel(*c) || is_consonant(*c));
        if (i % 2 == 0) == vowel_first {
            assert!(is_vowel(*c));
        } else {
            assert!(is_consonant(*c));
        }
    }
}

#[test]
fn key_of_length_ten_alternates() {
    for _ in 0..50 {
        check_key(10);
    }
}

#[test]
fn key_of_length_one_is_a_letter() {
    for _ in 0..20 {
        check_key(1);
    }
}

#[test]
fn key_of_odd_length_alternates() {
    for _ in 0..20 {
        check_key(7);
    }
}

#[test]
fn both_starting_classes_occur() {
    let mut saw_vowel_first = false;
    let mut saw_consonant_first = false;
    for _ in 0..200 {
        let key = generate_key(2);
        let first = key.chars().next().unwrap();
        if is_vowel(first) {
            saw_vowel_first = true;
        } else {
            saw_consonant_first = true;
        }
        if saw_vowel_first && saw_consonant_first {
            return;
        }
    }
    panic!("after many draws, keys started with only one character class");
}
