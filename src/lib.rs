//! Generates a TypeScript declaration that restricts the command name passed to
//! Tauri's `invoke` to the functions marked with the `command` attribute in a
//! project's Rust sources.
//!
//! The pipeline is split in two verified steps: `scan` finds the marked
//! function names in each source text, and `render` turns the ordered list of
//! names into the declaration text. Walking the directory tree, reading the
//! files and writing the result are left to the caller.

mod generate;
mod render;
mod scan;

pub use render::{
    declaration_document, get_content, quoted, rerun_directive, union_members,
    DECLARATION_FILE, DECLARATION_FOOTER, DECLARATION_HEADER, MEMBER_SEPARATOR,
    RERUN_PREFIX,
};
pub use generate::{
    collect_names, generate_declaration, lemma_names_follow_visit_order,
};
pub use scan::{
    command_names, command_names_each, command_names_in, command_names_in_all,
    group_one_captures, opt_views, present, present_names, COMMAND_PATTERN,
    SOURCE_PATTERN,
};
