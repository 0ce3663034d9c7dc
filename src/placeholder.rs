use crate::calendar::{current_date_formatted, formatted_with_quarter, Timestamp};
use crate::text::{chars_of, matches_at, replace_all, replace_spec, replaced_from, starts_at};
use vstd::prelude::*;

verus! {

/// The keys a placeholder may carry.
#[derive(Clone, Copy, Debug, PartialEq, Eq, Structural)]
pub enum Key {
    Title,
    Time,
    Date,
}

/// `{{title}}`
pub open spec fn title_token() -> Seq<char> {
    seq!['{', '{', 't', 'i', 't', 'l', 'e', '}', '}']
}

/// The text that opens a time or date placeholder: `{{time` or `{{date`.
pub open spec fn opening(key: Key) -> Seq<char> {
    match key {
        Key::Date => seq!['{', '{', 'd', 'a', 't', 'e'],
        _ => seq!['{', '{', 't', 'i', 'm', 'e'],
    }
}

/// `}}`
pub open spec fn closing() -> Seq<char> {
    seq!['}', '}']
}

pub open spec fn is_brace(c: char) -> bool {
    c == '{' || c == '}'
}

/// The first index at or after `k` that holds a brace, or the length of `s`.
pub open spec fn run_end(s: Seq<char>, k: int) -> int
    decreases s.len() - k,
{
    if 0 <= k < s.len() && !is_brace(s[k]) {
        run_end(s, k + 1)
    } else {
        k
    }
}

/// A time or date placeholder whose opening ends at `j`: either `}}` follows
/// at once, or `:` then a non-empty run of characters other than braces,
/// then `}}`. Gives the key, the index just past the placeholder, and the
/// format argument if one is present.
pub open spec fn argument_token(s: Seq<char>, key: Key, j: int) -> Option<(Key, int, Option<Seq<char>>)> {
    if starts_at(s, j, closing()) {
        Some((key, j + 2, None))
    } else if 0 <= j < s.len() && s[j] == ':' && run_end(s, j + 1) > j + 1 && starts_at(
        s,
        run_end(s, j + 1),
        closing(),
    ) {
        Some((key, run_end(s, j + 1) + 2, Some(s.subrange(j + 1, run_end(s, j + 1)))))
    } else {
        None
    }
}

/// The placeholder that starts at index `i` of `s`, if any.
pub open spec fn token_at(s: Seq<char>, i: int) -> Option<(Key, int, Option<Seq<char>>)> {
    if starts_at(s, i, title_token()) {
        Some((Key::Title, i + title_token().len(), None))
    } else if starts_at(s, i, opening(Key::Time)) {
        argument_token(s, Key::Time, i + 6)
    } else if starts_at(s, i, opening(Key::Date)) {
        argument_token(s, Key::Date, i + 6)
    } else {
        None
    }
}

/// The format used for a time or date placeholder that gives none.
pub open spec fn default_format(key: Key) -> Seq<char> {
    match key {
        Key::Date => seq!['%', 'Y', '-', '%', 'm', '-', '%', 'd'],
        _ => seq!['%', 'H', ':', '%', 'M'],
    }
}

/// What replaces a placeholder whose text is `raw`: the title for `{{title}}`;
/// for a time or date the moment written out under the given or the default
/// format, or `raw` itself where that format cannot be written out.
pub open spec fn expansion(
    key: Key,
    format: Option<Seq<char>>,
    raw: Seq<char>,
    title: Seq<char>,
    now: Timestamp,
) -> Seq<char> {
    match key {
        Key::Title => title,
        _ => {
            let f = match format {
                Some(f) => f,
                None => default_format(key),
            };
            match formatted_with_quarter(now, f) {
                Some(t) => t,
                None => raw,
            }
        },
    }
}

/// `s` from index `i` on, each placeholder replaced by its expansion in one
/// left-to-right scan: what a replacement brings in is never scanned again.
pub open spec fn rendered_from(s: Seq<char>, i: int, title: Seq<char>, now: Timestamp) -> Seq<char>
    decreases s.len() - i,
{
    if 0 <= i < s.len() {
        match token_at(s, i) {
            Some((key, end, format)) => expansion(key, format, s.subrange(i, end), title, now)
                + rendered_from(s, end, title, now),
            None => seq![s[i]] + rendered_from(s, i + 1, title, now),
        }
    } else {
        Seq::empty()
    }
}

/// The template `s` with its title, time and date placeholders filled in.
pub open spec fn render(s: Seq<char>, title: Seq<char>, now: Timestamp) -> Seq<char> {
    rendered_from(s, 0, title, now)
}

/// A placeholder found in a template: its key, the index just past it, and
/// the bounds of its format argument (an empty range when it has none).
struct Found {
    key: Key,
    end: usize,
    format_start: usize,
    format_end: usize,
}

/// `f` is what `token_at` gives for the placeholder at `i`.
spec fn describes(f: Found, s: Seq<char>, i: int) -> bool {
    &&& i < f.format_start <= f.format_end < f.end <= s.len()
    &&& token_at(s, i) matches Some((key, end, format)) && key == f.key && end == f.end && if f.format_start == f.format_end {
        format is None
    } else {
        format == Some(s.subrange(f.format_start as int, f.format_end as int))
    }
}

fn closing_chars() -> (v: Vec<char>)
    ensures
        v@ == closing(),
{
    let v = vec!['}', '}'];
    assert(v@ =~= closing());
    v
}

fn title_chars() -> (v: Vec<char>)
    ensures
        v@ == title_token(),
{
    let v = vec!['{', '{', 't', 'i', 't', 'l', 'e', '}', '}'];
    assert(v@ =~= title_token());
    v
}

fn opening_chars(key: Key) -> (v: Vec<char>)
    ensures
        v@ == opening(key),
{
    let v = match key {
        Key::Date => vec!['{', '{', 'd', 'a', 't', 'e'],
        _ => vec!['{', '{', 't', 'i', 'm', 'e'],
    };
    assert(v@ =~= opening(key));
    v
}

/// The first index at or after `k` that holds a brace, or the length of `v`.
fn scan_run(v: &Vec<char>, k: usize) -> (e: usize)
    requires
        k <= v.len(),
    ensures
        e == run_end(v@, k as int),
        k <= e <= v.len(),
{
    let mut e = k;
    while e < v.len() && v[e] != '{' && v[e] != '}'
        invariant
            k <= e <= v.len(),
            run_end(v@, e as int) == run_end(v@, k as int),
        decreases v.len() - e,
    {
        e = e + 1;
    }
    e
}

/// The time or date placeholder whose opening ends at `j`, if there is one.
fn find_argument(v: &Vec<char>, key: Key, i: usize, j: usize) -> (r: Option<Found>)
    requires
        i < j <= v.len(),
        starts_at(v@, i as int, opening(key)),
        key != Key::Title,
        j == i + 6,
    ensures
        match r {
            Some(f) => describes(f, v@, i as int),
            None => token_at(v@, i as int) is None,
        },
{
    assert(!starts_at(v@, i as int, title_token())) by {
        if i + 9 <= v.len() {
            let k: int = if key == Key::Time { 4 } else { 2 };
            assert(v@.subrange(i as int, i + 6)[k] == opening(key)[k]);
            assert(v@.subrange(i as int, i + 9)[k] != title_token()[k]);
        }
    }
    if key == Key::Date {
        assert(!starts_at(v@, i as int, opening(Key::Time))) by {
            assert(v@.subrange(i as int, i + 6)[2] != opening(Key::Time)[2]);
        }
    }
    let close = closing_chars();
    if matches_at(v, j, &close) {
        return Some(Found { key, end: j + 2, format_start: j + 1, format_end: j + 1 });
    }
    if j < v.len() && v[j] == ':' {
        let e = scan_run(v, j + 1);
        if e > j + 1 && matches_at(v, e, &close) {
            return Some(Found { key, end: e + 2, format_start: j + 1, format_end: e });
        }
    }
    None
}

/// The placeholder that starts at index `i` of `v`, if any.
fn find_token(v: &Vec<char>, i: usize) -> (r: Option<Found>)
    requires
        i < v.len(),
    ensures
        match r {
            Some(f) => describes(f, v@, i as int),
            None => token_at(v@, i as int) is None,
        },
{
    let title = title_chars();
    if matches_at(v, i, &title) {
        return Some(Found { key: Key::Title, end: i + 9, format_start: i + 1, format_end: i + 1 });
    }
    let time = opening_chars(Key::Time);
    if matches_at(v, i, &time) {
        return find_argument(v, Key::Time, i, i + 6);
    }
    let date = opening_chars(Key::Date);
    if matches_at(v, i, &date) {
        return find_argument(v, Key::Date, i, i + 6);
    }
    None
}

fn default_format_text(key: Key) -> (r: &'static str)
    requires
        key != Key::Title,
    ensures
        r@ == default_format(key),
{
    proof {
        reveal_strlit("%Y-%m-%d");
        reveal_strlit("%H:%M");
    }
    if key == Key::Date {
        assert("%Y-%m-%d"@ =~= default_format(key));
        "%Y-%m-%d"
    } else {
        assert("%H:%M"@ =~= default_format(key));
        "%H:%M"
    }
}

/// What replaces the placeholder `f` found at index `i` of `template`.
fn expand_found(template: &str, f: &Found, i: usize, note_title: &str, now: &Timestamp) -> (r: String)
    requires
        describes(*f, template@, i as int),
    ensures
        token_at(template@, i as int) matches Some((key, end, format)) && r@ == expansion(
            key,
            format,
            template@.subrange(i as int, end),
            note_title@,
            *now,
        ),
{
    if f.key == Key::Title {
        return String::from_str(note_title);
    }
    let format = if f.format_start == f.format_end {
        default_format_text(f.key)
    } else {
        template.substring_char(f.format_start, f.format_end)
    };
    match current_date_formatted(format, now) {
        Some(t) => t,
        None => String::from_str(template.substring_char(i, f.end)),
    }
}

/// The placeholder engine: fills in the `{{title}}`, `{{time}}` and `{{date}}`
/// placeholders of a template.
pub struct Placeholder;

impl Placeholder {
    /// Fills in the template in one left-to-right scan: `{{title}}` becomes
    /// the note's title; `{{time}}` and `{{date}}`, bare or with a format
    /// argument (`{{date:%Y-Q%Q}}`), become `now` written out under that
    /// format or under `%H:%M` and `%Y-%m-%d`. Anything else, and a
    /// placeholder whose format cannot be written out, passes through as it is.
    pub fn parse(template: String, note_title: &str, now: &Timestamp) -> (r: String)
        ensures
            r@ == render(template@, note_title@, *now),
    {
        let s = template.as_str();
        let v = chars_of(s);
        let n = v.len();
        let mut out = String::new();
        let mut last: usize = 0;
        let mut i: usize = 0;
        while i < n
            invariant
                v@ == s@,
                s@ == template@,
                n == v.len(),
                last <= i <= n,
                out@ + s@.subrange(last as int, i as int) + rendered_from(s@, i as int, note_title@, *now)
                    == render(s@, note_title@, *now),
            decreases n - i,
        {
            match find_token(&v, i) {
                Some(f) => {
                    let piece = expand_found(s, &f, i, note_title, now);
                    let ghost before = out@ + s@.subrange(last as int, i as int);
                    out.append(s.substring_char(last, i));
                    out.append(piece.as_str());
                    assert(out@ == before + piece@);
                    i = f.end;
                    last = i;
                    assert(out@ + s@.subrange(last as int, i as int) + rendered_from(s@, i as int, note_title@, *now)
                        =~= before + (piece@ + rendered_from(s@, i as int, note_title@, *now)));
                },
                None => {
                    assert(s@.subrange(last as int, i + 1) =~= s@.subrange(last as int, i as int) + seq![s@[i as int]]);
                    i = i + 1;
                },
            }
        }
        assert(out@ + s@.subrange(last as int, n as int) =~= out@ + s@.subrange(last as int, i as int)
            + rendered_from(s@, i as int, note_title@, *now));
        out.append(s.substring_char(last, n));
        out
    }

    /// Replaces every `{{title}}` in the template by the note's title.
    pub fn parse_title(template: &mut String, note_title: &str)
        ensures
            final(template)@ == replace_spec(old(template)@, title_token(), note_title@),
    {
        proof {
            reveal_strlit("{{title}}");
            assert("{{title}}"@ =~= title_token());
        }
        let replaced = replace_all(template.as_str(), "{{title}}", note_title);
        *template = replaced;
    }
}

proof fn lemma_rendered_plain(s: Seq<char>, i: int, title: Seq<char>, now: Timestamp)
    requires
        0 <= i <= s.len(),
        forall|k: int| 0 <= k < s.len() ==> #[trigger] token_at(s, k) is None,
    ensures
        rendered_from(s, i, title, now) == s.subrange(i, s.len() as int),
    decreases s.len() - i,
{
    if i < s.len() {
        lemma_rendered_plain(s, i + 1, title, now);
        assert(seq![s[i]] + s.subrange(i + 1, s.len() as int) =~= s.subrange(i, s.len() as int));
    } else {
        assert(s.subrange(i, s.len() as int) =~= Seq::<char>::empty());
    }
}

/// A template in which no placeholder is recognised renders to itself,
/// whatever the title and the moment.
pub proof fn lemma_render_without_placeholders(s: Seq<char>, title: Seq<char>, now: Timestamp)
    requires
        forall|i: int| 0 <= i < s.len() ==> #[trigger] token_at(s, i) is None,
    ensures
        render(s, title, now) == s,
{
    lemma_rendered_plain(s, 0, title, now);
    assert(s.subrange(0, s.len() as int) =~= s);
}

proof fn lemma_rendered_titles(s: Seq<char>, i: int, title: Seq<char>, now: Timestamp)
    requires
        0 <= i <= s.len(),
        forall|k: int| #[trigger] token_at(s, k) matches Some((key, _, _)) ==> key == Key::Title,
    ensures
        rendered_from(s, i, title, now) == replaced_from(s, title_token(), title, i),
    decreases s.len() - i,
{
    let tok = title_token();
    if i + tok.len() > s.len() {
        if i < s.len() {
            lemma_rendered_titles(s, i + 1, title, now);
            assert(seq![s[i]] + s.subrange(i + 1, s.len() as int) =~= s.subrange(i, s.len() as int));
        } else {
            assert(s.subrange(i, s.len() as int) =~= Seq::<char>::empty());
        }
    } else if s.subrange(i, i + tok.len()) == tok {
        lemma_rendered_titles(s, i + tok.len(), title, now);
    } else {
        lemma_rendered_titles(s, i + 1, title, now);
    }
}

/// In a template whose only placeholders are `{{title}}`, rendering replaces
/// each `{{title}}` by exactly the title and alters no other text.
pub proof fn lemma_title_substitution(s: Seq<char>, title: Seq<char>, now: Timestamp)
    requires
        forall|i: int| #[trigger] token_at(s, i) matches Some((key, _, _)) ==> key == Key::Title,
    ensures
        render(s, title, now) == replace_spec(s, title_token(), title),
{
    lemma_rendered_titles(s, 0, title, now);
}

/// `{{titl}}`
pub open spec fn misspelled_title() -> Seq<char> {
    seq!['{', '{', 't', 'i', 't', 'l', '}', '}']
}

/// The misspelled `{{titl}}` is never replaced, whatever the title.
pub proof fn lemma_misspelled_title_kept(title: Seq<char>, now: Timestamp)
    ensures
        render(misspelled_title(), title, now) == misspelled_title(),
{
    let s = misspelled_title();
    assert forall|i: int| 0 <= i < s.len() implies #[trigger] token_at(s, i) is None by {
        if i == 0 {
            assert(s.subrange(0, 6)[4] != opening(Key::Time)[4]);
            assert(s.subrange(0, 6)[2] != opening(Key::Date)[2]);
        } else if i <= 2 {
            assert(s.subrange(i, i + 6)[1] != opening(Key::Time)[1]);
            assert(s.subrange(i, i + 6)[1] != opening(Key::Date)[1]);
        }
    }
    lemma_render_without_placeholders(s, title, now);
}

} // verus!
