use crate::calendar::{current_date_formatted, formatted_with_quarter, Timestamp};
use crate::config::{opt_view, JournalConfig};
use vstd::prelude::*;

verus! {

/// Why a note or journal entry cannot be created.
#[derive(Clone, Debug)]
pub enum NoteError {
    /// The template is not among those in the template folder, listed here.
    TemplateNotFound { name: String, available: Vec<String> },
    /// A file already stands at the destination.
    DestinationExists { path: String },
    /// No journal profile has this name.
    ProfileNotFound { name: String },
    /// The journal profile's date format cannot be written out for the moment.
    UnformattableDate { format: String },
}

/// Where a journal entry goes and the template it starts from.
#[derive(Clone, Debug)]
pub struct JournalEntry {
    pub path: String,
    pub template: String,
}

pub open spec fn names_view(v: Seq<String>) -> Seq<Seq<char>> {
    v.map_values(|s: String| s@)
}

/// `.md`
pub open spec fn md_extension() -> Seq<char> {
    seq!['.', 'm', 'd']
}

pub open spec fn is_markdown(name: Seq<char>) -> bool {
    name.len() >= 3 && name.subrange(name.len() - 3, name.len() as int) == md_extension()
}

pub open spec fn strip_extension(name: Seq<char>) -> Seq<char> {
    name.subrange(0, name.len() - 3)
}

/// The template names among a folder's file names: the names that end in
/// `.md`, without that extension, in the order given.
pub open spec fn template_names(files: Seq<Seq<char>>) -> Seq<Seq<char>>
    decreases files.len(),
{
    if files.len() == 0 {
        Seq::empty()
    } else {
        let rest = template_names(files.drop_last());
        if is_markdown(files.last()) {
            rest.push(strip_extension(files.last()))
        } else {
            rest
        }
    }
}

fn ends_with_md(s: &str) -> (r: bool)
    ensures
        r == is_markdown(s@),
{
    let n = s.unicode_len();
    if n < 3 {
        return false;
    }
    let r = s.get_char(n - 3) == '.' && s.get_char(n - 2) == 'm' && s.get_char(n - 1) == 'd';
    proof {
        let tail = s@.subrange(n - 3, n as int);
        if r {
            assert(tail =~= md_extension());
        } else {
            assert(tail[0] != '.' || tail[1] != 'm' || tail[2] != 'd');
        }
    }
    r
}

/// The names of the templates among the file names of the template folder:
/// those that end in `.md`, with the extension taken off, in the order given.
pub fn templates_in_folder(file_names: &Vec<String>) -> (r: Vec<String>)
    ensures
        names_view(r@) == template_names(names_view(file_names@)),
{
    let ghost files = names_view(file_names@);
    let mut out: Vec<String> = Vec::new();
    let mut i: usize = 0;
    while i < file_names.len()
        invariant
            i <= file_names.len(),
            files == names_view(file_names@),
            names_view(out@) == template_names(files.take(i as int)),
        decreases file_names.len() - i,
    {
        let name = file_names[i].as_str();
        assert(files.take(i + 1).drop_last() =~= files.take(i as int));
        assert(files.take(i + 1).last() == name@);
        if ends_with_md(name) {
            let n = name.unicode_len();
            let stem = String::from_str(name.substring_char(0, n - 3));
            out.push(stem);
            assert(names_view(out@) =~= template_names(files.take(i as int)).push(strip_extension(name@)));
        }
        i = i + 1;
    }
    assert(files.take(file_names.len() as int) =~= files);
    out
}

/// `e` reports that `template` is missing, with the template names of the
/// folder whose file names are `files`.
pub open spec fn reports_missing_template(e: NoteError, template: Seq<char>, files: Seq<Seq<char>>) -> bool {
    e matches NoteError::TemplateNotFound { name, available } && name@ == template && names_view(
        available@,
    ) == template_names(files)
}

fn contains_name(names: &Vec<String>, target: &str) -> (r: bool)
    ensures
        r == names_view(names@).contains(target@),
{
    let wanted = String::from_str(target);
    let mut k: usize = 0;
    while k < names.len()
        invariant
            k <= names.len(),
            wanted@ == target@,
            forall|j: int| 0 <= j < k ==> names@[j]@ != target@,
        decreases names.len() - k,
    {
        if names[k] == wanted {
            assert(names_view(names@)[k as int] == target@);
            return true;
        }
        k = k + 1;
    }
    assert forall|j: int| 0 <= j < names_view(names@).len() implies names_view(names@)[j] != target@ by {
        assert(names_view(names@)[j] == names@[j]@);
    }
    false
}

/// Succeeds when `template` is among the templates of the folder whose file
/// names are `file_names`; otherwise reports it missing, with the full list of
/// the templates there.
pub fn check_template(template: &str, file_names: &Vec<String>) -> (r: Result<(), NoteError>)
    ensures
        r is Ok <==> template_names(names_view(file_names@)).contains(template@),
        r matches Err(e) ==> reports_missing_template(e, template@, names_view(file_names@)),
{
    let available = templates_in_folder(file_names);
    if contains_name(&available, template) {
        Ok(())
    } else {
        Err(NoteError::TemplateNotFound { name: String::from_str(template), available })
    }
}

/// Succeeds only when no file stands at the destination `path`; a file there
/// is never overwritten, whatever it holds.
pub fn check_note_name(path: &str, exists: bool) -> (r: Result<(), NoteError>)
    ensures
        r is Ok <==> !exists,
        r matches Err(e) ==> e matches NoteError::DestinationExists { path: p } && p@ == path@,
{
    if exists {
        Err(NoteError::DestinationExists { path: String::from_str(path) })
    } else {
        Ok(())
    }
}

/// The index of the last profile among the first `n` of `journals` whose name
/// is `name`, or -1 when there is none.
pub open spec fn profile_index(journals: Seq<JournalConfig>, name: Seq<char>, n: int) -> int
    decreases n,
{
    if n <= 0 {
        -1
    } else if journals[n - 1].name@ == name {
        n - 1
    } else {
        profile_index(journals, name, n - 1)
    }
}

/// The index of the profile that the name `name` selects, or -1 when none does.
pub open spec fn selected_profile(journals: Seq<JournalConfig>, name: Seq<char>) -> int {
    profile_index(journals, name, journals.len() as int)
}

fn copy_profile(p: &JournalConfig) -> (r: JournalConfig)
    ensures
        r == *p,
{
    JournalConfig {
        name: p.name.clone(),
        format: p.format.clone(),
        template: p.template.clone(),
        folder_path: p.folder_path.clone(),
    }
}

/// Looks up the journal profile called `name`, by exact match; where several
/// bear the name the last one counts.
pub fn specific_template_info(journals: &Vec<JournalConfig>, name: &str) -> (r: Result<JournalConfig, NoteError>)
    ensures
        selected_profile(journals@, name@) >= 0 ==> r == Ok::<JournalConfig, NoteError>(
            journals@[selected_profile(journals@, name@)],
        ),
        selected_profile(journals@, name@) < 0 ==> (r matches Err(NoteError::ProfileNotFound { name: n })
            && n@ == name@),
{
    let wanted = String::from_str(name);
    let mut k: usize = journals.len();
    while k > 0
        invariant
            k <= journals.len(),
            wanted@ == name@,
            selected_profile(journals@, name@) == profile_index(journals@, name@, k as int),
        decreases k,
    {
        if journals[k - 1].name == wanted {
            return Ok(copy_profile(&journals[k - 1]));
        }
        k = k - 1;
    }
    Err(NoteError::ProfileNotFound { name: wanted })
}

/// `root/[subpath/]base_name.md`
pub open spec fn note_path(root: Seq<char>, subpath: Option<Seq<char>>, base_name: Seq<char>) -> Seq<char> {
    let folder = match subpath {
        Some(sub) => root + seq!['/'] + sub,
        None => root,
    };
    folder + seq!['/'] + base_name + md_extension()
}

/// Joins a note's path: `root/[subpath/]base_name.md`, with no other
/// normalisation.
pub fn build_note_path(root: &str, subpath: Option<&str>, base_name: &str) -> (r: String)
    ensures
        r@ == note_path(root@, opt_view(subpath), base_name@),
{
    proof {
        reveal_strlit("/");
        reveal_strlit(".md");
        assert(".md"@ =~= md_extension());
        assert("/"@ =~= seq!['/']);
    }
    let mut path = String::from_str(root);
    match subpath {
        Some(sub) => {
            path.append("/");
            path.append(sub);
        },
        None => {},
    }
    path.append("/");
    path.append(base_name);
    path.append(".md");
    path
}

/// The base name of a journal entry: the profile's date format, with `%Q` for
/// the fiscal quarter, written out for `now`.
pub fn compute_journal_base_name(profile: &JournalConfig, now: &Timestamp) -> (r: Option<String>)
    ensures
        match r {
            Some(b) => formatted_with_quarter(*now, profile.format@) == Some(b@),
            None => formatted_with_quarter(*now, profile.format@) is None,
        },
{
    current_date_formatted(profile.format.as_str(), now)
}

/// Decides a plain note: the template must exist, then the destination
/// `note_root/name.md` must be free; gives that destination.
pub fn handle_note_command(
    template: &str,
    name: &str,
    note_root: &str,
    template_files: &Vec<String>,
    destination_exists: bool,
) -> (r: Result<String, NoteError>)
    ensures
        !template_names(names_view(template_files@)).contains(template@) ==> (r matches Err(e)
            && reports_missing_template(e, template@, names_view(template_files@))),
        template_names(names_view(template_files@)).contains(template@) && destination_exists
            ==> (r matches Err(NoteError::DestinationExists { path }) && path@ == note_path(
            note_root@,
            None,
            name@,
        )),
        template_names(names_view(template_files@)).contains(template@) && !destination_exists
            ==> (r matches Ok(path) && path@ == note_path(note_root@, None, name@)),
{
    check_template(template, template_files)?;
    let destination = build_note_path(note_root, None, name);
    check_note_name(destination.as_str(), destination_exists)?;
    Ok(destination)
}

/// Locates a journal entry: looks up the profile called `name`, writes out its
/// date format for `now` as the entry's base name, and places the entry in the
/// profile's folder under `journal_root`.
pub fn handle_journal_commmand(
    journals: &Vec<JournalConfig>,
    name: &str,
    journal_root: &str,
    now: &Timestamp,
) -> (r: Result<JournalEntry, NoteError>)
    ensures
        selected_profile(journals@, name@) < 0 ==> (r matches Err(NoteError::ProfileNotFound { name: n })
            && n@ == name@),
        selected_profile(journals@, name@) >= 0 ==> {
            let p = journals@[selected_profile(journals@, name@)];
            match formatted_with_quarter(*now, p.format@) {
                None => (r matches Err(NoteError::UnformattableDate { format }) && format@
                    == p.format@),
                Some(base) => (r matches Ok(entry) && entry.path@ == note_path(
                    journal_root@,
                    Some(p.folder_path@),
                    base,
                ) && entry.template@ == p.template@),
            }
        },
{
    let profile = specific_template_info(journals, name)?;
    match compute_journal_base_name(&profile, now) {
        Some(base) => {
            let path = build_note_path(journal_root, Some(profile.folder_path.as_str()), base.as_str());
            Ok(JournalEntry { path, template: profile.template })
        },
        None => Err(NoteError::UnformattableDate { format: profile.format }),
    }
}

/// Decides a located journal entry: its destination must be free, then its
/// template must exist.
pub fn check_journal_entry(entry: &JournalEntry, destination_exists: bool, template_files: &Vec<String>) -> (r:
    Result<(), NoteError>)
    ensures
        destination_exists ==> (r matches Err(NoteError::DestinationExists { path }) && path@
            == entry.path@),
        !destination_exists ==> (r is Ok <==> template_names(names_view(template_files@)).contains(
            entry.template@,
        )),
        !destination_exists ==> (r matches Err(e) ==> reports_missing_template(
            e,
            entry.template@,
            names_view(template_files@),
        )),
{
    check_note_name(entry.path.as_str(), destination_exists)?;
    check_template(entry.template.as_str(), template_files)
}

} // verus!
