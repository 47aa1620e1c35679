use trusc::text::{chars_of, chars_of_each, ends_with, same_text, starts_with};

fn chars(s: &str) -> Vec<char> {
    s.chars().collect()
}

#[test]
fn the_characters_of_a_text() {
    assert_eq!(chars_of(""), Vec::<char>::new());
    assert_eq!(chars_of("lib."), vec!['l', 'i', 'b', '.']);
    assert_eq!(chars_of("é/ü"), vec!['é', '/', 'ü']);
    assert_eq!(
        chars_of_each(&vec!["a".to_string(), String::new(), "bc".to_string()]),
        vec![vec!['a'], vec![], vec!['b', 'c']]
    );
}

#[test]
fn same_text_compares_all_of_both() {
    assert!(same_text("", ""));
    assert!(same_text("op_load", "op_load"));
    assert!(!same_text("op_load", "op_loaf"));
    assert!(!same_text("op_load", "op_loa"));
    assert!(!same_text("op_loa", "op_load"));
    assert!(!same_text("", "x"));
    assert!(same_text("héllo", "héllo"));
    assert!(!same_text("héllo", "hello"));
}

#[test]
fn prefixes() {
    assert!(starts_with(&chars("lib.d.ts"), &chars("lib.")));
    assert!(starts_with(&chars("lib."), &chars("lib.")));
    assert!(starts_with(&chars("anything"), &chars("")));
    assert!(starts_with(&chars(""), &chars("")));
    assert!(!starts_with(&chars("lib"), &chars("lib.")));
    assert!(!starts_with(&chars("xlib.d.ts"), &chars("lib.")));
    assert!(!starts_with(&chars(""), &chars("l")));
}

#[test]
fn suffixes() {
    assert!(ends_with(&chars("lib.d.ts"), &chars("d.ts")));
    assert!(ends_with(&chars("d.ts"), &chars("d.ts")));
    assert!(ends_with(&chars("anything"), &chars("")));
    assert!(ends_with(&chars(""), &chars("")));
    assert!(!ends_with(&chars(".ts"), &chars("d.ts")));
    assert!(!ends_with(&chars("lib.d.tsx"), &chars("d.ts")));
    assert!(!ends_with(&chars(""), &chars("s")));
}
