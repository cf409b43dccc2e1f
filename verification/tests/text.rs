use btmon::text::{contains, passes_name_filter};

#[test]
fn every_name_passes_without_a_filter() {
    assert!(passes_name_filter("Keyboard", None));
    assert!(passes_name_filter("", None));
}

#[test]
fn filter_ignores_the_case_of_the_name() {
    assert!(passes_name_filter("Magic KEYBOARD", Some("keyboard")));
    assert!(passes_name_filter("magic keyboard", Some("keyboard")));
    assert!(passes_name_filter("MAGIC KEYBOARD", Some("magic k")));
    assert!(passes_name_filter("ÄRGER", Some("ärger")));
}

#[test]
fn filter_is_taken_as_it_is() {
    assert!(!passes_name_filter("Magic Keyboard", Some("Keyboard")));
    assert!(!passes_name_filter("KEYBOARD", Some("KEY")));
}

#[test]
fn filter_must_occur_in_the_name() {
    assert!(!passes_name_filter("Mouse", Some("keyboard")));
    assert!(!passes_name_filter("Key", Some("keyboard")));
    assert!(!passes_name_filter("", Some("k")));
    assert!(passes_name_filter("Mouse", Some("")));
    assert!(passes_name_filter("", Some("")));
}

#[test]
fn contains_finds_a_run_of_characters() {
    assert!(contains("keyboard", "key"));
    assert!(contains("keyboard", "board"));
    assert!(contains("keyboard", "ybo"));
    assert!(contains("keyboard", "keyboard"));
    assert!(contains("keyboard", ""));
    assert!(contains("", ""));
    assert!(!contains("keyboard", "keyboards"));
    assert!(!contains("keyboard", "kyb"));
    assert!(!contains("keyboard", "Key"));
    assert!(!contains("", "k"));
}

#[test]
fn contains_counts_characters_not_bytes() {
    assert!(contains("naïve café", "ïve c"));
    assert!(contains("日本語のキーボード", "キー"));
    assert!(!contains("日本語", "本日"));
}
