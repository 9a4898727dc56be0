use notes_cli::{extract_tags, find_tags, search_notes, Config, Entry, Hit, TagSet};
use regex::Regex;
use std::collections::HashSet;

fn config_at(dir: &str) -> Config {
    Config { notes_dir: dir.to_string(), editor: "nano".to_string() }
}

fn note(name: &str, text: &str) -> Entry {
    Entry { name: name.to_string(), text: Some(text.to_string()) }
}

fn unreadable(name: &str) -> Entry {
    Entry { name: name.to_string(), text: None }
}

#[test]
fn test_extract_tags_finds_all_tags() {
    let config = Config { notes_dir: "/tmp/dir".to_string(), editor: "nano".into() };
    let entries = vec![
        note("note1.md", "Today I worked on #rust and #cli\n"),
        note("note2.md", "This is #rust again and also #dev\n"),
    ];

    let captured_tags: HashSet<String> = extract_tags(&entries).into_iter().collect();

    let mut by_engine = HashSet::new();
    let tag_re = Regex::new(r"#\w+").unwrap();
    for entry in &entries {
        if let Some(contents) = &entry.text {
            for tag in tag_re.find_iter(contents) {
                by_engine.insert(tag.as_str().to_string());
            }
        }
    }

    let expected_tags: HashSet<_> = ["#rust", "#cli", "#dev"].iter().map(|s| s.to_string()).collect();

    assert_eq!(captured_tags, expected_tags);
    assert_eq!(by_engine, expected_tags);
    assert_eq!(config.notes_dir, "/tmp/dir");
}

#[test]
fn two_notes_yield_three_tags() {
    let entries = vec![note("a.md", "#rust #cli"), note("b.md", "#rust #dev")];
    assert_eq!(extract_tags(&entries), vec!["#rust", "#cli", "#dev"]);
}

#[test]
fn tags_come_once_whatever_the_order_of_the_files() {
    let a = note("a.md", "#rust #cli");
    let b = note("b.md", "#rust #dev");
    let c = note("c.md", "no tag here, but #cli again and #rust");
    let orders = [
        vec![a.clone(), b.clone(), c.clone()],
        vec![c.clone(), b.clone(), a.clone()],
        vec![b.clone(), a.clone(), c.clone()],
    ];
    let expected: HashSet<String> = ["#rust", "#cli", "#dev"].iter().map(|s| s.to_string()).collect();
    for entries in orders {
        let tags = extract_tags(&entries);
        assert_eq!(tags.len(), 3);
        assert_eq!(tags.iter().cloned().collect::<HashSet<String>>(), expected);
    }
}

#[test]
fn tags_keep_the_place_of_their_first_occurrence() {
    let entries = vec![note("a.md", "#b #a #b"), note("b.md", "#c #a")];
    assert_eq!(extract_tags(&entries), vec!["#b", "#a", "#c"]);
}

#[test]
fn unreadable_entries_have_no_tags() {
    let entries = vec![unreadable("dir"), note("a.md", "#one"), unreadable("b.bin")];
    assert_eq!(extract_tags(&entries), vec!["#one"]);
    assert_eq!(extract_tags(&vec![unreadable("x")]), Vec::<String>::new());
    assert_eq!(extract_tags(&vec![]), Vec::<String>::new());
}

#[test]
fn a_tag_is_a_hash_sign_and_word_characters() {
    assert_eq!(find_tags("Today I worked on #rust and #cli"), vec!["#rust", "#cli"]);
    assert_eq!(find_tags("#a-b #c_d #e9 #"), vec!["#a", "#c_d", "#e9"]);
    assert_eq!(find_tags("##x a#y #z."), vec!["#x", "#y", "#z"]);
    assert_eq!(find_tags("#ünï #日本語"), vec!["#ünï", "#日本語"]);
    assert_eq!(find_tags("# alone, #, and nothing"), Vec::<String>::new());
    assert_eq!(find_tags(""), Vec::<String>::new());
    assert_eq!(find_tags("#rust #rust"), vec!["#rust", "#rust"]);
}

#[test]
fn tag_set_keeps_each_tag_once() {
    let mut tags = TagSet::new();
    assert!(tags.insert("#a".to_string()));
    assert!(tags.insert("#b".to_string()));
    assert!(!tags.insert("#a".to_string()));
    tags.extend(&vec!["#c".to_string(), "#b".to_string(), "#d".to_string(), "#c".to_string()]);
    assert_eq!(tags.into_vec(), vec!["#a", "#b", "#c", "#d"]);
    assert_eq!(TagSet::new().into_vec(), Vec::<String>::new());
}

#[test]
fn search_finds_the_notes_that_hold_the_query() {
    let config = config_at("/n");
    let entries = vec![
        note("a.md", "I like rust"),
        note("b.md", "I like Rust"),
        unreadable("c.bin"),
        note("d.md", "trust me"),
    ];
    assert_eq!(
        search_notes(&config, &entries, "rust"),
        vec![
            Hit { path: "/n/a.md".to_string(), text: "I like rust".to_string() },
            Hit { path: "/n/d.md".to_string(), text: "trust me".to_string() },
        ]
    );
}

#[test]
fn search_minds_case() {
    let config = config_at("/n");
    let entries = vec![note("a.md", "I like rust"), note("b.md", "I like Rust")];
    assert_eq!(
        search_notes(&config, &entries, "Rust"),
        vec![Hit { path: "/n/b.md".to_string(), text: "I like Rust".to_string() }]
    );
    assert_eq!(search_notes(&config, &entries, "RUST"), vec![]);
}

#[test]
fn search_takes_the_query_literally() {
    let config = config_at("/n");
    let entries = vec![note("a.md", "abc"), note("b.md", "a.c"), note("c.md", "#\\w+")];
    assert_eq!(
        search_notes(&config, &entries, "a.c"),
        vec![Hit { path: "/n/b.md".to_string(), text: "a.c".to_string() }]
    );
    assert_eq!(search_notes(&config, &entries, ".*"), vec![]);
    assert_eq!(
        search_notes(&config, &entries, "#\\w+"),
        vec![Hit { path: "/n/c.md".to_string(), text: "#\\w+".to_string() }]
    );
}

#[test]
fn empty_query_finds_every_readable_note() {
    let config = config_at("/n");
    let entries = vec![note("a.md", ""), unreadable("b"), note("c.md", "x")];
    let hits = search_notes(&config, &entries, "");
    assert_eq!(
        hits,
        vec![
            Hit { path: "/n/a.md".to_string(), text: "".to_string() },
            Hit { path: "/n/c.md".to_string(), text: "x".to_string() },
        ]
    );
}

#[test]
fn search_needs_the_whole_query_in_one_piece() {
    let config = config_at("/n");
    let entries = vec![note("a.md", "ab\ncd"), note("b.md", "abcd"), note("c.md", "bc")];
    assert_eq!(
        search_notes(&config, &entries, "bc"),
        vec![
            Hit { path: "/n/b.md".to_string(), text: "abcd".to_string() },
            Hit { path: "/n/c.md".to_string(), text: "bc".to_string() },
        ]
    );
    assert_eq!(search_notes(&config, &entries, "abcde"), vec![]);
    assert_eq!(search_notes(&config, &vec![], "x"), vec![]);
}
