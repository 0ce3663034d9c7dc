use vstd::prelude::*;

verus! {

/// How a note's title is recased before it names the note.
#[derive(Clone, Copy, Debug, PartialEq, Eq, Structural)]
pub enum CaseStyle {
    Camel,
    Kebab,
    Pascal,
    Snake,
    Original,
}

/// The `[general]` section of the configuration.
#[derive(Clone, Debug)]
pub struct GeneralConfig {
    pub template_folder_path: String,
    pub editor: Option<String>,
    pub note_folder_path: String,
    pub journal_folder_path: String,
    pub note_case_style: Option<CaseStyle>,
}

/// A journal profile: its name, the date format that names its entries, the
/// template they start from, and the folder under the journal root that
/// holds them.
#[derive(Clone, Debug)]
pub struct JournalConfig {
    pub name: String,
    pub format: String,
    pub template: String,
    pub folder_path: String,
}

/// The whole configuration.
#[derive(Clone, Debug)]
pub struct Config {
    pub general: GeneralConfig,
    pub journal: Option<Vec<JournalConfig>>,
}

/// The two kinds of note.
#[derive(Clone, Copy, Debug, PartialEq, Eq, Structural)]
pub enum Sub {
    Note,
    Journal,
}

pub open spec fn opt_view(o: Option<&str>) -> Option<Seq<char>> {
    match o {
        Some(s) => Some(s@),
        None => None,
    }
}

/// `path` with a leading `~/` expanded to the home directory, when one is
/// known; otherwise `path` unchanged.
pub open spec fn expand_home(path: Seq<char>, home: Option<Seq<char>>) -> Seq<char> {
    if path.len() >= 2 && path[0] == '~' && path[1] == '/' && home is Some {
        home->Some_0 + path.subrange(1, path.len() as int)
    } else {
        path
    }
}

/// Expands a leading `~/` of `path` to the home directory `home`, if known.
pub fn alternate_path(path: String, home: Option<&str>) -> (r: String)
    ensures
        r@ == expand_home(path@, opt_view(home)),
{
    let s = path.as_str();
    let n = s.unicode_len();
    match home {
        Some(h) => {
            if n >= 2 && s.get_char(0) == '~' && s.get_char(1) == '/' {
                let expanded = String::from_str(h).concat(s.substring_char(1, n));
                return expanded;
            }
        },
        None => {},
    }
    path
}

/// The folder, with `~/` expanded, that holds notes of the given kind.
pub fn command_folder_path(general: &GeneralConfig, command: Sub, home: Option<&str>) -> (r: String)
    ensures
        r@ == expand_home(
            match command {
                Sub::Note => general.note_folder_path@,
                Sub::Journal => general.journal_folder_path@,
            },
            opt_view(home),
        ),
{
    match command {
        Sub::Note => alternate_path(general.note_folder_path.clone(), home),
        Sub::Journal => alternate_path(general.journal_folder_path.clone(), home),
    }
}

/// The template folder, with `~/` expanded.
pub fn template_folder_path(general: &GeneralConfig, home: Option<&str>) -> (r: String)
    ensures
        r@ == expand_home(general.template_folder_path@, opt_view(home)),
{
    alternate_path(general.template_folder_path.clone(), home)
}

/// The editor used when the configuration names none (or an empty one) and
/// the environment gives none either.
pub open spec fn fallback_editor() -> Seq<char> {
    seq!['v', 'i']
}

/// The editor to open a note in: the configured one unless it is missing or
/// empty, else the one the environment gives, else `vi`.
pub open spec fn editor_choice(configured: Option<Seq<char>>, from_env: Option<Seq<char>>) -> Seq<char> {
    match configured {
        Some(e) if e.len() > 0 => e,
        _ => match from_env {
            Some(e) => e,
            None => fallback_editor(),
        },
    }
}

pub open spec fn string_opt_view(o: Option<String>) -> Option<Seq<char>> {
    match o {
        Some(s) => Some(s@),
        None => None,
    }
}

/// Picks the editor command: see `editor_choice`.
pub fn editor_command(configured: &Option<String>, from_env: Option<String>) -> (r: String)
    ensures
        r@ == editor_choice(string_opt_view(*configured), string_opt_view(from_env)),
{
    if let Some(e) = configured {
        if !e.as_str().is_empty() {
            return e.clone();
        }
    }
    match from_env {
        Some(e) => e,
        None => {
            proof {
                reveal_strlit("vi");
                assert("vi"@ =~= fallback_editor());
            }
            String::from_str("vi")
        },
    }
}

} // verus!
