use notes_cli::{
    create_note_if_missing, delete_note, edit_note, get_note_path, list_notes, open_editor,
    Config, Effect,
};
use std::collections::BTreeMap;

fn config_at(dir: &str) -> Config {
    Config { notes_dir: dir.to_string(), editor: "nano".to_string() }
}

/// Carries out the disk effects on an in-memory stand-in for the disk.
fn carry_out(disk: &mut BTreeMap<String, String>, effects: &[Effect]) {
    for effect in effects {
        match effect {
            Effect::Write { path, text } => {
                disk.insert(path.clone(), text.clone());
            }
            Effect::Remove { path } => {
                assert!(disk.remove(path).is_some(), "removing a file that is not there");
            }
            Effect::Print { .. } | Effect::Report { .. } | Effect::Launch { .. } => {}
        }
    }
}

#[test]
fn test_create_note_if_missing_creates_file() {
    let mut disk = BTreeMap::new();
    let file_path = "/tmp/dir/test-note.md";

    let effects = create_note_if_missing(file_path, disk.contains_key(file_path));
    carry_out(&mut disk, &effects);
    assert!(disk.contains_key(file_path));

    let content = disk[file_path].clone();
    assert!(content.contains("# test-note.md"));
}

#[test]
fn test_create_note_if_missing_does_not_overwrite() {
    let mut disk = BTreeMap::new();
    let file_path = "/tmp/dir/test-note.md";
    disk.insert(file_path.to_string(), "original content".to_string());

    let effects = create_note_if_missing(file_path, disk.contains_key(file_path));
    carry_out(&mut disk, &effects);
    let content = disk[file_path].clone();
    assert_eq!(content, "original content");
}

#[test]
fn fresh_note_is_heading_and_empty_line() {
    assert_eq!(
        create_note_if_missing("/tmp/dir/test-note.md", false),
        vec![Effect::Write {
            path: "/tmp/dir/test-note.md".to_string(),
            text: "# test-note.md\n\n".to_string(),
        }]
    );
    assert_eq!(
        create_note_if_missing("plain", false),
        vec![Effect::Write { path: "plain".to_string(), text: "# plain\n\n".to_string() }]
    );
}

#[test]
fn existing_note_needs_nothing() {
    assert_eq!(create_note_if_missing("/tmp/dir/test-note.md", true), vec![]);
}

#[test]
fn creating_twice_changes_nothing_the_second_time() {
    let mut disk = BTreeMap::new();
    let path = "/n/2025-04-09.md";
    let first = create_note_if_missing(path, disk.contains_key(path));
    carry_out(&mut disk, &first);
    let once = disk.clone();
    let second = create_note_if_missing(path, disk.contains_key(path));
    assert!(second.is_empty());
    carry_out(&mut disk, &second);
    assert_eq!(disk, once);
    assert_eq!(disk[path], "# 2025-04-09.md\n\n");
}

#[test]
fn deleting_an_existing_note_removes_it_and_says_so() {
    let config = config_at("/n");
    assert_eq!(
        delete_note(&config, "2025-04-09", true),
        vec![
            Effect::Remove { path: "/n/2025-04-09.md".to_string() },
            Effect::Report { line: "Deleted note for 2025-04-09".to_string() },
        ]
    );
}

#[test]
fn deleting_a_missing_note_only_reports() {
    let config = config_at("/n");
    assert_eq!(
        delete_note(&config, "2025-04-09", false),
        vec![Effect::Report { line: "No note found for 2025-04-09".to_string() }]
    );
}

#[test]
fn deleting_touches_no_other_file() {
    let config = config_at("/n");
    let mut disk = BTreeMap::new();
    disk.insert("/n/2025-04-09.md".to_string(), "a".to_string());
    disk.insert("/n/2025-04-10.md".to_string(), "b".to_string());

    let path = get_note_path(&config, "2025-04-09");
    let effects = delete_note(&config, "2025-04-09", disk.contains_key(&path));
    carry_out(&mut disk, &effects);
    assert!(!disk.contains_key("/n/2025-04-09.md"));
    assert_eq!(disk.len(), 1);
    assert_eq!(disk["/n/2025-04-10.md"], "b");

    let before = disk.clone();
    let effects = delete_note(&config, "2025-04-09", disk.contains_key(&path));
    carry_out(&mut disk, &effects);
    assert_eq!(disk, before);
}

#[test]
fn editor_gets_the_path_as_its_only_argument() {
    let config = Config { notes_dir: "/n".to_string(), editor: "vim".to_string() };
    assert_eq!(
        open_editor("/n/2025-04-09.md", &config),
        Effect::Launch { program: "vim".to_string(), arg: "/n/2025-04-09.md".to_string() }
    );
}

#[test]
fn editing_a_missing_note_creates_it_then_opens_it() {
    let config = config_at("/n");
    assert_eq!(
        edit_note(&config, "2025-04-09", false),
        vec![
            Effect::Write {
                path: "/n/2025-04-09.md".to_string(),
                text: "# 2025-04-09.md\n\n".to_string(),
            },
            Effect::Launch { program: "nano".to_string(), arg: "/n/2025-04-09.md".to_string() },
        ]
    );
}

#[test]
fn editing_an_existing_note_only_opens_it() {
    let config = config_at("/n");
    assert_eq!(
        edit_note(&config, "2025-04-09", true),
        vec![Effect::Launch {
            program: "nano".to_string(),
            arg: "/n/2025-04-09.md".to_string(),
        }]
    );
}

#[test]
fn listing_resolves_each_name_in_order() {
    let config = config_at("/n");
    let names = vec!["b.md".to_string(), "a.md".to_string(), "sub".to_string()];
    assert_eq!(list_notes(&config, &names), vec!["/n/b.md", "/n/a.md", "/n/sub"]);
    assert_eq!(list_notes(&config, &vec![]), Vec::<String>::new());
}
