//! Note files: where they live, what a fresh one holds, and what creating,
//! deleting, listing and editing them asks for.

use crate::config::{Config, ConfigView};
use crate::effect::{disk_after_all, Disk, Effect, EffectView};
use crate::path::{entry_path, file_name, file_name_of, join, lemma_file_name_of_entry};
use crate::text::{contains_text, occurs_at};
use vstd::prelude::*;
use vstd::string::*;

verus! {

/// The name of the file that holds the note of `date`.
pub open spec fn note_file_name(date: Seq<char>) -> Seq<char> {
    date + ".md"@
}

/// The path of the note of `date` under `dir`.
pub open spec fn note_path(dir: Seq<char>, date: Seq<char>) -> Seq<char> {
    entry_path(dir, note_file_name(date))
}

/// What a note holds when it is created: a heading made of the file's name,
/// and an empty line.
pub open spec fn fresh_note_text(name: Seq<char>) -> Seq<char> {
    "# "@ + name + "\n\n"@
}

/// What it takes to have a note at `path`: nothing where one exists, else
/// writing the fresh text.
pub open spec fn creation_of(path: Seq<char>, exists: bool) -> Seq<EffectView> {
    if exists {
        Seq::empty()
    } else {
        seq![EffectView::Write { path, text: fresh_note_text(file_name_of(path)) }]
    }
}

/// What deleting the note of `date` under `dir` takes: removing the file and
/// saying so where it exists, else saying that there is none.
pub open spec fn deletion_of(dir: Seq<char>, date: Seq<char>, exists: bool) -> Seq<EffectView> {
    if exists {
        seq![
            EffectView::Remove { path: note_path(dir, date) },
            EffectView::Report { line: "Deleted note for "@ + date },
        ]
    } else {
        seq![EffectView::Report { line: "No note found for "@ + date }]
    }
}

/// The paths of the directory's entries, one for each name, in their order.
pub open spec fn listing_of(dir: Seq<char>, names: Seq<Seq<char>>) -> Seq<Seq<char>> {
    Seq::new(names.len(), |i: int| entry_path(dir, names[i]))
}

/// Opening the file at `path` in the editor of `config`.
pub open spec fn launch_of(path: Seq<char>, config: ConfigView) -> EffectView {
    EffectView::Launch { program: config.editor, arg: path }
}

/// What editing the note of `date` takes: having the note, then opening it.
pub open spec fn edit_of(config: ConfigView, date: Seq<char>, exists: bool) -> Seq<EffectView> {
    let path = note_path(config.notes_dir, date);
    creation_of(path, exists).push(launch_of(path, config))
}

/// A fresh note holds its heading: a hash sign, a blank and the file's name.
pub proof fn lemma_fresh_note_has_heading(name: Seq<char>)
    ensures
        contains_text(fresh_note_text(name), "# "@ + name),
{
    let heading = "# "@ + name;
    assert(fresh_note_text(name).subrange(0, heading.len() as int) =~= heading);
    assert(occurs_at(fresh_note_text(name), heading, 0));
}

/// Creating a note where none is writes the fresh text with the heading of
/// its file name; creating it where one is changes nothing on disk. So
/// creating a second time is without effect.
pub proof fn lemma_create_twice(disk: Disk, path: Seq<char>)
    ensures
        ({
            let once = disk_after_all(disk, creation_of(path, disk.contains_key(path)));
            let twice = disk_after_all(once, creation_of(path, once.contains_key(path)));
            &&& once.contains_key(path)
            &&& twice == once
            &&& disk.contains_key(path) ==> once == disk
            &&& !disk.contains_key(path) ==> once == disk.insert(
                path,
                fresh_note_text(file_name_of(path)),
            )
            &&& !disk.contains_key(path) ==> contains_text(once[path], "# "@ + file_name_of(path))
        }),
{
    reveal_with_fuel(disk_after_all, 2);
    lemma_fresh_note_has_heading(file_name_of(path));
}

/// Deleting a note that is there takes its file off the disk; deleting one
/// that is not there leaves the disk as it was. Either way no other file
/// changes, and the outcome is a report, never a failure.
pub proof fn lemma_delete(disk: Disk, dir: Seq<char>, date: Seq<char>)
    ensures
        ({
            let path = note_path(dir, date);
            let effects = deletion_of(dir, date, disk.contains_key(path));
            let after = disk_after_all(disk, effects);
            &&& !after.contains_key(path)
            &&& after == disk.remove(path)
            &&& !disk.contains_key(path) ==> after == disk
            &&& effects.last() is Report
        }),
{
    reveal_with_fuel(disk_after_all, 3);
    let path = note_path(dir, date);
    let effects = deletion_of(dir, date, disk.contains_key(path));
    if disk.contains_key(path) {
        assert(effects.drop_last() =~= seq![EffectView::Remove { path }]);
    } else {
        assert(disk.remove(path) =~= disk);
    }
}

/// The note of a date is headed by the name of its file: the date and the
/// extension. This holds for every date without a slash in it.
pub proof fn lemma_note_heading(dir: Seq<char>, date: Seq<char>)
    requires
        !date.contains('/'),
    ensures
        creation_of(note_path(dir, date), false) == seq![
            EffectView::Write {
                path: note_path(dir, date),
                text: "# "@ + date + ".md\n\n"@,
            },
        ],
{
    reveal_strlit(".md");
    reveal_strlit("\n\n");
    reveal_strlit(".md\n\n");
    let name = note_file_name(date);
    assert forall|i: int| 0 <= i < name.len() implies name[i] != '/' by {
        if i < date.len() {
            assert(name[i] == date[i]);
        }
    }
    lemma_file_name_of_entry(dir, name);
    assert(fresh_note_text(name) =~= "# "@ + date + ".md\n\n"@);
}

/// Resolves a date to the path of its note: the notes directory, a slash,
/// the date and the extension, joined as text with nothing normalized.
pub fn get_note_path(config: &Config, date: &str) -> (path: String)
    ensures
        path@ == note_path(config.notes_dir@, date@),
{
    let mut path = join(config.notes_dir.as_str(), date);
    path.append(".md");
    assert(path@ =~= note_path(config.notes_dir@, date@));
    path
}

/// Decides how to have a note at `path`, given whether a file exists there:
/// an existing file is left alone, a missing one gets the fresh text.
pub fn create_note_if_missing(path: &str, exists: bool) -> (effects: Vec<Effect>)
    ensures
        effects.deep_view() == creation_of(path@, exists),
{
    let mut effects: Vec<Effect> = Vec::new();
    if !exists {
        let name = file_name(path);
        let mut text = String::from_str("# ");
        text.append(name.as_str());
        text.append("\n\n");
        effects.push(Effect::Write { path: String::from_str(path), text });
    }
    assert(effects.deep_view() =~= creation_of(path@, exists));
    effects
}

/// Opens the file at `path` in the configured editor.
pub fn open_editor(path: &str, config: &Config) -> (effect: Effect)
    ensures
        effect@ == launch_of(path@, config@),
{
    Effect::Launch { program: config.editor.clone(), arg: String::from_str(path) }
}

/// Decides how to delete the note of `date`, given whether its file exists.
/// A note that is not there is reported and is no failure.
pub fn delete_note(config: &Config, date: &str, exists: bool) -> (effects: Vec<Effect>)
    ensures
        effects.deep_view() == deletion_of(config.notes_dir@, date@, exists),
{
    let mut effects: Vec<Effect> = Vec::new();
    if exists {
        effects.push(Effect::Remove { path: get_note_path(config, date) });
        let mut line = String::from_str("Deleted note for ");
        line.append(date);
        effects.push(Effect::Report { line });
    } else {
        let mut line = String::from_str("No note found for ");
        line.append(date);
        effects.push(Effect::Report { line });
    }
    assert(effects.deep_view() =~= deletion_of(config.notes_dir@, date@, exists));
    effects
}

/// Resolves the names of the directory's entries to their paths, in the
/// order in which the names came.
pub fn list_notes(config: &Config, names: &Vec<String>) -> (paths: Vec<String>)
    ensures
        paths.deep_view() == listing_of(config.notes_dir@, names.deep_view()),
{
    let mut paths: Vec<String> = Vec::new();
    let mut i: usize = 0;
    while i < names.len()
        invariant
            i <= names.len(),
            paths.len() == i,
            forall|k: int| 0 <= k < i ==> paths@[k]@ == entry_path(config.notes_dir@, names@[k]@),
        decreases names.len() - i,
    {
        paths.push(join(config.notes_dir.as_str(), names[i].as_str()));
        i += 1;
    }
    assert(paths.deep_view() =~= listing_of(config.notes_dir@, names.deep_view()));
    paths
}

/// Decides how to edit the note of `date`, given whether its file exists:
/// the note is created where it is missing, then opened in the editor.
pub fn edit_note(config: &Config, date: &str, exists: bool) -> (effects: Vec<Effect>)
    ensures
        effects.deep_view() == edit_of(config@, date@, exists),
{
    let path = get_note_path(config, date);
    let mut effects = create_note_if_missing(path.as_str(), exists);
    let ghost created = effects.deep_view();
    effects.push(open_editor(path.as_str(), config));
    assert(effects.deep_view() =~= created.push(launch_of(path@, config@)));
    effects
}

} // verus!
