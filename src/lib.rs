//! A note-taking helper: resolves a named template, fills in its `{{title}}`,
//! `{{time}}` and `{{date}}` placeholders, and decides where a plain note or a
//! journal entry goes without ever overwriting an existing file.
pub mod calendar;
pub mod casing;
pub mod cli;
pub mod config;
pub mod placeholder;
pub mod router;
pub mod text;
