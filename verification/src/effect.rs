//! What the decisions of this crate ask their caller to do, and what that
//! does to the files on disk.

use vstd::prelude::*;

verus! {

/// One thing for the caller to carry out. Effects come in lists, to be
/// carried out in order; one that fails is fatal.
#[derive(Clone, Debug, PartialEq, Eq)]
pub enum Effect {
    /// Print `line` and a line break on the output stream.
    Print { line: String },
    /// Print `line` and a line break on the error stream.
    Report { line: String },
    /// Write `text` to the file at `path`, creating the file.
    Write { path: String, text: String },
    /// Remove the file at `path`.
    Remove { path: String },
    /// Run `program` with `arg` as its only argument and wait until it ends,
    /// whatever its exit status.
    Launch { program: String, arg: String },
}

/// An `Effect` as text.
pub enum EffectView {
    Print { line: Seq<char> },
    Report { line: Seq<char> },
    Write { path: Seq<char>, text: Seq<char> },
    Remove { path: Seq<char> },
    Launch { program: Seq<char>, arg: Seq<char> },
}

impl View for Effect {
    type V = EffectView;

    open spec fn view(&self) -> EffectView {
        match self {
            Effect::Print { line } => EffectView::Print { line: line@ },
            Effect::Report { line } => EffectView::Report { line: line@ },
            Effect::Write { path, text } => EffectView::Write { path: path@, text: text@ },
            Effect::Remove { path } => EffectView::Remove { path: path@ },
            Effect::Launch { program, arg } => EffectView::Launch { program: program@, arg: arg@ },
        }
    }
}

impl DeepView for Effect {
    type V = EffectView;

    open spec fn deep_view(&self) -> EffectView {
        self@
    }
}

/// The files on disk: the text of each, by its path.
pub type Disk = Map<Seq<char>, Seq<char>>;

/// The disk after `effect` was carried out on `disk`. What a launched
/// program does to the disk is its own affair and not part of this.
pub open spec fn disk_after(disk: Disk, effect: EffectView) -> Disk {
    match effect {
        EffectView::Write { path, text } => disk.insert(path, text),
        EffectView::Remove { path } => disk.remove(path),
        _ => disk,
    }
}

/// The disk after `effects` were carried out on `disk`, in order.
pub open spec fn disk_after_all(disk: Disk, effects: Seq<EffectView>) -> Disk
    decreases effects.len(),
{
    if effects.len() == 0 {
        disk
    } else {
        disk_after(disk_after_all(disk, effects.drop_last()), effects.last())
    }
}

} // verus!
