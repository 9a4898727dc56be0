//! One run of the program as a conversation: the run asks its caller for
//! what it has to know, and ends with the effects to carry out.

use crate::config::{Config, ConfigView};
use crate::effect::{Effect, EffectView};
use crate::note::{
    delete_note, deletion_of, edit_note, edit_of, get_note_path, list_notes, listing_of,
    note_path,
};
use crate::scan::{extract_tags, hits_of, search_notes, tags_of, Entry, EntryView, Hit, HitView};
use vstd::prelude::*;
use vstd::string::*;

verus! {

/// A subcommand of the command line. A run without one edits today's note.
#[derive(Clone, Debug, PartialEq, Eq)]
pub enum Commands {
    /// Delete the note of a date.
    Delete { date: String },
    /// List all notes.
    List,
    /// Search all notes for a text.
    Search { query: String },
    /// Show all tags used in notes.
    Tags,
}

/// A `Commands` as text.
pub enum CommandsView {
    Delete { date: Seq<char> },
    List,
    Search { query: Seq<char> },
    Tags,
}

impl View for Commands {
    type V = CommandsView;

    open spec fn view(&self) -> CommandsView {
        match self {
            Commands::Delete { date } => CommandsView::Delete { date: date@ },
            Commands::List => CommandsView::List,
            Commands::Search { query } => CommandsView::Search { query: query@ },
            Commands::Tags => CommandsView::Tags,
        }
    }
}

impl DeepView for Commands {
    type V = CommandsView;

    open spec fn deep_view(&self) -> CommandsView {
        self@
    }
}

/// Something the caller is asked to find out.
#[derive(Clone, Debug, PartialEq, Eq)]
pub enum Request {
    /// Today's date in the local time zone, as year, month and day with
    /// hyphens between them.
    Today,
    /// Whether a file exists at `path`.
    Exists { path: String },
    /// The names of the entries of the directory `dir`, in the order in
    /// which the file system lists them.
    Names { dir: String },
    /// The entries of the directory `dir` in that order, each with its text
    /// where it can be read as text.
    Entries { dir: String },
}

/// A `Request` as text.
pub enum RequestView {
    Today,
    Exists { path: Seq<char> },
    Names { dir: Seq<char> },
    Entries { dir: Seq<char> },
}

impl View for Request {
    type V = RequestView;

    open spec fn view(&self) -> RequestView {
        match self {
            Request::Today => RequestView::Today,
            Request::Exists { path } => RequestView::Exists { path: path@ },
            Request::Names { dir } => RequestView::Names { dir: dir@ },
            Request::Entries { dir } => RequestView::Entries { dir: dir@ },
        }
    }
}

/// What the caller found out, one kind for each kind of request.
#[derive(Clone, Debug, PartialEq, Eq)]
pub enum Reply {
    Today { date: String },
    Exists { exists: bool },
    Names { names: Vec<String> },
    Entries { entries: Vec<Entry> },
}

/// A `Reply` as text.
pub enum ReplyView {
    Today { date: Seq<char> },
    Exists { exists: bool },
    Names { names: Seq<Seq<char>> },
    Entries { entries: Seq<EntryView> },
}

impl View for Reply {
    type V = ReplyView;

    open spec fn view(&self) -> ReplyView {
        match self {
            Reply::Today { date } => ReplyView::Today { date: date@ },
            Reply::Exists { exists } => ReplyView::Exists { exists: *exists },
            Reply::Names { names } => ReplyView::Names { names: names.deep_view() },
            Reply::Entries { entries } => ReplyView::Entries { entries: entries.deep_view() },
        }
    }
}

/// Where a run stands: what it is about, and so which reply it waits for.
#[derive(Clone, Debug, PartialEq, Eq)]
pub enum Session {
    /// Editing today's note; the date is not known yet.
    Dating,
    /// Editing the note of `date`.
    Editing { date: String },
    /// Deleting the note of `date`.
    Deleting { date: String },
    /// Listing the notes.
    Listing,
    /// Searching the notes for `query`.
    Searching { query: String },
    /// Collecting the tags of the notes.
    Tagging,
}

/// A `Session` as text.
pub enum SessionView {
    Dating,
    Editing { date: Seq<char> },
    Deleting { date: Seq<char> },
    Listing,
    Searching { query: Seq<char> },
    Tagging,
}

impl View for Session {
    type V = SessionView;

    open spec fn view(&self) -> SessionView {
        match self {
            Session::Dating => SessionView::Dating,
            Session::Editing { date } => SessionView::Editing { date: date@ },
            Session::Deleting { date } => SessionView::Deleting { date: date@ },
            Session::Listing => SessionView::Listing,
            Session::Searching { query } => SessionView::Searching { query: query@ },
            Session::Tagging => SessionView::Tagging,
        }
    }
}

/// How a run goes on after a reply.
#[derive(Clone, Debug, PartialEq, Eq)]
pub enum Step {
    /// The run has to know more: answer `request` and go on from `session`.
    Ask { session: Session, request: Request },
    /// The run is over but for carrying out `effects`, in order.
    Finish { effects: Vec<Effect> },
}

/// A `Step` as text.
pub enum StepView {
    Ask { session: SessionView, request: RequestView },
    Finish { effects: Seq<EffectView> },
}

impl View for Step {
    type V = StepView;

    open spec fn view(&self) -> StepView {
        match self {
            Step::Ask { session, request } => StepView::Ask {
                session: session@,
                request: request@,
            },
            Step::Finish { effects } => StepView::Finish { effects: effects.deep_view() },
        }
    }
}

impl DeepView for Step {
    type V = StepView;

    open spec fn deep_view(&self) -> StepView {
        self@
    }
}

/// Where the run of a command line starts.
pub open spec fn session_of(command: Option<CommandsView>) -> SessionView {
    match command {
        None => SessionView::Dating,
        Some(CommandsView::Delete { date }) => SessionView::Deleting { date },
        Some(CommandsView::List) => SessionView::Listing,
        Some(CommandsView::Search { query }) => SessionView::Searching { query },
        Some(CommandsView::Tags) => SessionView::Tagging,
    }
}

/// What a run that stands at `session` waits to be told.
pub open spec fn request_of(config: ConfigView, session: SessionView) -> RequestView {
    match session {
        SessionView::Dating => RequestView::Today,
        SessionView::Editing { date } => RequestView::Exists {
            path: note_path(config.notes_dir, date),
        },
        SessionView::Deleting { date } => RequestView::Exists {
            path: note_path(config.notes_dir, date),
        },
        SessionView::Listing => RequestView::Names { dir: config.notes_dir },
        SessionView::Searching { query } => RequestView::Entries { dir: config.notes_dir },
        SessionView::Tagging => RequestView::Entries { dir: config.notes_dir },
    }
}

/// The reply is of the kind that the request asks for.
pub open spec fn answers(reply: ReplyView, request: RequestView) -> bool {
    match (reply, request) {
        (ReplyView::Today { .. }, RequestView::Today) => true,
        (ReplyView::Exists { .. }, RequestView::Exists { .. }) => true,
        (ReplyView::Names { .. }, RequestView::Names { .. }) => true,
        (ReplyView::Entries { .. }, RequestView::Entries { .. }) => true,
        _ => false,
    }
}

/// Each line printed on the output stream, in order.
pub open spec fn prints_of(lines: Seq<Seq<char>>) -> Seq<EffectView> {
    Seq::new(lines.len(), |i: int| EffectView::Print { line: lines[i] })
}

/// What a search shows of a hit: the path, a colon, and on the lines below
/// all that the note holds.
pub open spec fn hit_line(hit: HitView) -> Seq<char> {
    hit.path + ":\n"@ + hit.text
}

/// Each hit shown on the error stream, in order.
pub open spec fn reports_of(hits: Seq<HitView>) -> Seq<EffectView> {
    Seq::new(hits.len(), |i: int| EffectView::Report { line: hit_line(hits[i]) })
}

/// How a run that stands at `session` goes on after `reply`: `None` where
/// the reply is not of the kind that the run waits for.
pub open spec fn step_of(config: ConfigView, session: SessionView, reply: ReplyView) -> Option<
    StepView,
> {
    match (session, reply) {
        (SessionView::Dating, ReplyView::Today { date }) => Some(
            StepView::Ask {
                session: SessionView::Editing { date },
                request: request_of(config, SessionView::Editing { date }),
            },
        ),
        (SessionView::Editing { date }, ReplyView::Exists { exists }) => Some(
            StepView::Finish { effects: edit_of(config, date, exists) },
        ),
        (SessionView::Deleting { date }, ReplyView::Exists { exists }) => Some(
            StepView::Finish { effects: deletion_of(config.notes_dir, date, exists) },
        ),
        (SessionView::Listing, ReplyView::Names { names }) => Some(
            StepView::Finish { effects: prints_of(listing_of(config.notes_dir, names)) },
        ),
        (SessionView::Searching { query }, ReplyView::Entries { entries }) => Some(
            StepView::Finish { effects: reports_of(hits_of(config.notes_dir, entries, query)) },
        ),
        (SessionView::Tagging, ReplyView::Entries { entries }) => Some(
            StepView::Finish { effects: prints_of(tags_of(entries)) },
        ),
        _ => None,
    }
}

/// No run asks more than twice: whatever the replies, the step after a
/// second question is the end of the run, or none at all.
pub proof fn lemma_runs_end(
    config: ConfigView,
    session: SessionView,
    first: ReplyView,
    second: ReplyView,
)
    ensures
        step_of(config, session, first) matches Some(StepView::Ask { session: next, request })
            ==> {
            &&& request == request_of(config, next)
            &&& !(step_of(config, next, second) matches Some(StepView::Ask { .. }))
        },
{
}

/// Starts the run of a command line: where it stands, and its first
/// request.
pub fn begin(config: &Config, command: Option<Commands>) -> (start: (Session, Request))
    ensures
        start.0@ == session_of(command.deep_view()),
        start.1@ == request_of(config@, start.0@),
{
    let session = match command {
        None => Session::Dating,
        Some(Commands::Delete { date }) => Session::Deleting { date },
        Some(Commands::List) => Session::Listing,
        Some(Commands::Search { query }) => Session::Searching { query },
        Some(Commands::Tags) => Session::Tagging,
    };
    let request = pending(config, &session);
    (session, request)
}

/// The request that a run standing at `session` waits to have answered.
pub fn pending(config: &Config, session: &Session) -> (request: Request)
    ensures
        request@ == request_of(config@, session@),
{
    match session {
        Session::Dating => Request::Today,
        Session::Editing { date } => Request::Exists {
            path: get_note_path(config, date.as_str()),
        },
        Session::Deleting { date } => Request::Exists {
            path: get_note_path(config, date.as_str()),
        },
        Session::Listing => Request::Names { dir: config.notes_dir.clone() },
        Session::Searching { query } => Request::Entries { dir: config.notes_dir.clone() },
        Session::Tagging => Request::Entries { dir: config.notes_dir.clone() },
    }
}

/// Turns lines into the effects that print them on the output stream.
pub fn print_lines(lines: &Vec<String>) -> (effects: Vec<Effect>)
    ensures
        effects.deep_view() == prints_of(lines.deep_view()),
{
    let mut effects: Vec<Effect> = Vec::new();
    let mut i: usize = 0;
    while i < lines.len()
        invariant
            i <= lines.len(),
            effects.len() == i,
            forall|k: int| 0 <= k < i ==> effects@[k]@ == (EffectView::Print { line: lines@[k]@ }),
        decreases lines.len() - i,
    {
        effects.push(Effect::Print { line: lines[i].clone() });
        i += 1;
    }
    assert(effects.deep_view() =~= prints_of(lines.deep_view()));
    effects
}

/// Turns hits into the effects that show them on the error stream.
pub fn report_hits(hits: &Vec<Hit>) -> (effects: Vec<Effect>)
    ensures
        effects.deep_view() == reports_of(hits.deep_view()),
{
    let mut effects: Vec<Effect> = Vec::new();
    let mut i: usize = 0;
    while i < hits.len()
        invariant
            i <= hits.len(),
            effects.len() == i,
            forall|k: int|
                0 <= k < i ==> effects@[k]@ == (EffectView::Report { line: hit_line(hits@[k]@) }),
        decreases hits.len() - i,
    {
        let mut line = hits[i].path.clone();
        line.append(":\n");
        line.append(hits[i].text.as_str());
        effects.push(Effect::Report { line });
        i += 1;
    }
    assert(effects.deep_view() =~= reports_of(hits.deep_view()));
    effects
}

/// Takes a run one reply further. A reply of another kind than the run
/// waits for takes it nowhere.
pub fn advance(config: &Config, session: Session, reply: Reply) -> (step: Option<Step>)
    ensures
        step.deep_view() == step_of(config@, session@, reply@),
        step is Some <==> answers(reply@, request_of(config@, session@)),
{
    match (session, reply) {
        (Session::Dating, Reply::Today { date }) => {
            let session = Session::Editing { date };
            let request = pending(config, &session);
            Some(Step::Ask { session, request })
        },
        (Session::Editing { date }, Reply::Exists { exists }) => Some(
            Step::Finish { effects: edit_note(config, date.as_str(), exists) },
        ),
        (Session::Deleting { date }, Reply::Exists { exists }) => Some(
            Step::Finish { effects: delete_note(config, date.as_str(), exists) },
        ),
        (Session::Listing, Reply::Names { names }) => {
            let paths = list_notes(config, &names);
            Some(Step::Finish { effects: print_lines(&paths) })
        },
        (Session::Searching { query }, Reply::Entries { entries }) => {
            let hits = search_notes(config, &entries, query.as_str());
            Some(Step::Finish { effects: report_hits(&hits) })
        },
        (Session::Tagging, Reply::Entries { entries }) => {
            let tags = extract_tags(&entries);
            Some(Step::Finish { effects: print_lines(&tags) })
        },
        _ => None,
    }
}

} // verus!
