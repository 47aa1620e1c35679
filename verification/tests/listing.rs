use trusc::listing::{child_path, directories, reads_below, select, ListedEntry};

fn entry(path: &str, is_directory: bool) -> ListedEntry {
    ListedEntry { path: path.to_string(), is_directory }
}

#[test]
fn the_path_of_a_child() {
    assert_eq!(child_path("", "a.ts"), "a.ts");
    assert_eq!(child_path("src", "a.ts"), "src/a.ts");
    assert_eq!(child_path("src/deep", "a.ts"), "src/deep/a.ts");
    assert_eq!(child_path("src", ""), "src/");
    assert_eq!(child_path("", ""), "");
}

#[test]
fn how_far_down_the_reading_goes() {
    assert!(reads_below(None, 0));
    assert!(reads_below(None, u32::MAX));
    assert!(!reads_below(Some(0), 0));
    assert!(reads_below(Some(1), 0));
    assert!(!reads_below(Some(1), 1));
    assert!(reads_below(Some(3), 2));
    assert!(!reads_below(Some(3), 3));
    assert!(reads_below(Some(u32::MAX), u32::MAX - 1));
    assert!(!reads_below(Some(u32::MAX), u32::MAX));
}

#[test]
fn depth_counts_the_separators() {
    let listing = vec![
        entry("a", false),
        entry("a/b", false),
        entry("a/b/c", false),
        entry("/", false),
        entry("", false),
        entry("a//b", false),
    ];
    assert_eq!(select(&listing, &None, &None, &None, Some(1)), vec!["a", ""]);
    assert_eq!(select(&listing, &None, &None, &None, Some(2)), vec!["a", "a/b", "/", ""]);
    assert_eq!(select(&listing, &None, &None, &None, Some(3)).len(), 6);
}

#[test]
fn directories_are_never_selected() {
    let listing = vec![entry("src", true), entry("src.ts", false), entry("lib.ts", true)];
    assert_eq!(select(&listing, &None, &None, &None, None), vec!["src.ts"]);
    assert_eq!(
        select(&listing, &Some(vec![".ts".to_string()]), &None, &None, None),
        vec!["src.ts"]
    );
    assert_eq!(directories(&listing), vec!["src", "lib.ts"]);
}

#[test]
fn an_extension_may_be_the_whole_path() {
    let listing = vec![entry(".ts", false), entry("ts", false)];
    assert_eq!(select(&listing, &Some(vec![".ts".to_string()]), &None, &None, None), vec![".ts"]);
    assert_eq!(select(&listing, &Some(vec![String::new()]), &None, &None, None), vec![".ts", "ts"]);
}

#[test]
fn what_is_both_allowed_and_denied_is_left_out() {
    let listing = vec![entry("a.ts", false), entry("b.ts", false)];
    let allow = Some(vec!["*.ts".to_string()]);
    let deny = Some(vec!["a.*".to_string()]);
    assert_eq!(select(&listing, &None, &allow, &deny, None), vec!["b.ts"]);
}
