use vstd::prelude::*;

verus! {

/// What the command line asks for.
#[derive(Clone, Debug)]
pub struct Cli {
    pub subcommand: SubCommand,
    /// Only create the note; do not open the editor.
    pub no_editor: bool,
}

/// The two commands.
#[derive(Clone, Debug)]
pub enum SubCommand {
    /// Create a plain note from a template; the words make its title.
    Note { template: String, name: Vec<String> },
    /// Create the current entry of the named journal.
    Journal { name: String },
}

} // verus!
