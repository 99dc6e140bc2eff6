use n_top::history::{
    current_day, history_display_text, history_entry, is_history_file, is_stale_history_file,
    new_snapshot_name, newest_file, snapshot_file_name, snapshot_needed, sort_newest_first,
    HistoryEntry,
};
use n_top::text::{concatenate, ends_with, starts_with, str_eq, str_less};

#[test]
fn display_of_a_snapshot_name() {
    assert_eq!(history_display_text("2024-05-01_09-30-00.json"), "2024-05-01 09:30:00");
}

#[test]
fn display_of_odd_names() {
    assert_eq!(history_display_text("2024-05-01.json"), "2024-05-01 ");
    assert_eq!(history_display_text("a.json.json"), "a ");
    assert_eq!(history_display_text("a_b-c_d.json"), "a b:c");
    assert_eq!(history_display_text("_x.json"), " x");
    assert_eq!(history_display_text(".json"), " ");
    assert_eq!(history_display_text("日期_时-间.json"), "日期 时:间");
}

#[test]
fn snapshot_name_law_concrete() {
    let name = snapshot_file_name("2023-12-31_23-59-58");
    assert_eq!(name, "2023-12-31_23-59-58.json");
    assert_eq!(history_display_text(&name), "2023-12-31 23:59:58");
    assert!(is_history_file(&name, "2023-12-31"));
    assert!(!is_stale_history_file(&name, "2023-12-31"));
    assert!(is_stale_history_file(&name, "2024-01-01"));
}

#[test]
fn history_file_filter() {
    assert!(is_history_file("2024-05-01_09-30-00.json", "2024-05-01"));
    assert!(!is_history_file("2024-05-01_09-30-00.json.bak", "2024-05-01"));
    assert!(!is_history_file("2024-04-30_09-30-00.json", "2024-05-01"));
    assert!(!is_stale_history_file("2024-05-01notes.txt", "2024-05-01"));
    assert!(is_stale_history_file("notes.txt", "2024-05-01"));
}

#[test]
fn history_entry_text_defaults_to_empty() {
    let e = history_entry(String::from("2024-05-01_09-30-00.json"), None);
    assert_eq!(e.filename, "2024-05-01_09-30-00.json");
    assert_eq!(e.timestamp, "2024-05-01 09:30:00");
    assert_eq!(e.text, "");
    let e = history_entry(String::from("2024-05-01_10-00-00.json"), Some(String::from("hi")));
    assert_eq!(e.text, "hi");
}

fn entry(name: &str, text: &str) -> HistoryEntry {
    history_entry(String::from(name), Some(String::from(text)))
}

#[test]
fn history_sorted_newest_first() {
    let sorted = sort_newest_first(vec![
        entry("2024-05-01_09-30-00.json", "a"),
        entry("2024-05-01_11-00-00.json", "b"),
        entry("2024-05-01_10-15-00.json", "c"),
    ]);
    let names: Vec<&str> = sorted.iter().map(|e| e.filename.as_str()).collect();
    assert_eq!(
        names,
        vec!["2024-05-01_11-00-00.json", "2024-05-01_10-15-00.json", "2024-05-01_09-30-00.json"]
    );
    let texts: Vec<&str> = sorted.iter().map(|e| e.text.as_str()).collect();
    assert_eq!(texts, vec!["b", "c", "a"]);
}

#[test]
fn history_sort_keeps_equal_names_in_order() {
    let sorted = sort_newest_first(vec![entry("x.json", "1"), entry("y.json", "2"), entry("x.json", "3")]);
    let texts: Vec<&str> = sorted.iter().map(|e| e.text.as_str()).collect();
    assert_eq!(texts, vec!["2", "1", "3"]);
    assert!(sort_newest_first(Vec::new()).is_empty());
}

#[test]
fn newest_file_is_the_greatest_name() {
    let names = vec![
        String::from("2024-05-01_09-30-00.json"),
        String::from("2024-05-01_11-00-00.json"),
        String::from("2024-05-01_10-15-00.json"),
    ];
    assert_eq!(newest_file(&names), Some(1));
    assert_eq!(newest_file(&Vec::new()), None);
}

#[test]
fn identical_text_writes_no_new_snapshot() {
    assert!(!snapshot_needed(Some("same"), "same"));
    assert!(snapshot_needed(Some("old"), "new"));
    assert!(snapshot_needed(None, "new"));
    assert_eq!(new_snapshot_name(Some("same"), "same"), None);
}

#[test]
fn new_snapshot_name_has_the_time_shape() {
    let name = new_snapshot_name(None, "text").unwrap();
    assert!(name.ends_with(".json"));
    let stamp: Vec<char> = name[..name.len() - 5].chars().collect();
    assert_eq!(stamp.len(), 19);
    for (i, c) in stamp.iter().enumerate() {
        match i {
            4 | 7 | 13 | 16 => assert_eq!(*c, '-'),
            10 => assert_eq!(*c, '_'),
            _ => assert!(c.is_ascii_digit()),
        }
    }
    assert_eq!(history_display_text(&name).len(), 19);
    let day: Vec<char> = current_day().chars().collect();
    assert_eq!(day.len(), 10);
    for (i, c) in day.iter().enumerate() {
        if i == 4 || i == 7 {
            assert_eq!(*c, '-');
        } else {
            assert!(c.is_ascii_digit());
        }
    }
}

#[test]
fn text_helpers() {
    assert!(str_eq("abc", "abc"));
    assert!(!str_eq("abc", "abd"));
    assert!(starts_with("abc", "ab"));
    assert!(!starts_with("ab", "abc"));
    assert!(ends_with("abc", "bc"));
    assert!(!ends_with("abc", "ab"));
    assert_eq!(concatenate("ab", "cd"), "abcd");
    assert!(str_less("ab", "abc"));
    assert!(str_less("abc", "abd"));
    assert!(!str_less("abd", "abc"));
    assert!(!str_less("abc", "abc"));
    assert!(str_less("a", "é"));
}

#[test]
fn repeated_save_writes_once_concrete() {
    let mut names = vec![
        String::from("2024-05-01_09-30-00.json"),
        String::from("2024-05-01_10-15-00.json"),
    ];
    let first = new_snapshot_name(Some("old text"), "new text").unwrap();
    names.push(first.clone());
    let newest = newest_file(&names).unwrap();
    assert_eq!(names[newest], first);
    assert_eq!(new_snapshot_name(Some("new text"), "new text"), None);
}
