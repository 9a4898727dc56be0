//! Decision core of a date-keyed Markdown notes tool.
//!
//! Everything here maps plain values to plain values: the caller reads the
//! clock, the environment and the disk, and carries out the effects that the
//! functions of this crate ask for.

pub mod config;
pub mod effect;
pub mod note;
pub mod path;
pub mod scan;
pub mod session;
pub mod tags;
pub mod text;

pub use config::{
    config_dir, config_file, confirms_defaults, default_config, is_yes, load_or_init_config,
    recover_config, Bootstrap, Config, ConfigFile, Recovery,
};
pub use effect::Effect;
pub use note::{
    create_note_if_missing, delete_note, edit_note, get_note_path, list_notes, open_editor,
};
pub use path::{file_name, join};
pub use scan::{extract_tags, search_notes, Entry, Hit};
pub use session::{
    advance, begin, pending, print_lines, report_hits, Commands, Reply, Request, Session, Step,
};
pub use tags::{find_tags, TagSet};
