use vstd::prelude::*;

verus! {

/// Pattern that finds a function marked `#[command]` or `#[tauri::command]`,
/// with or without an argument list, and captures its identifier in group 1.
/// Between the marker and `fn` only whitespace, words (such as `pub` or
/// `async`), line comments and block comments may stand, so a marker that is
/// followed by anything else before a function definition captures nothing.
pub const COMMAND_PATTERN: &'static str = "(?m)\\#\\[(?:tauri::)?command(?:\\([^)]*\\))?\\](?:[\\s\\w]|//[^\\n]*|/\\*[^*]*\\*+(?:[^/*][^*]*\\*+)*/)*fn\\s+([\\w\\d_-]+)";

/// Glob that selects the Rust source files below the working directory.
pub const SOURCE_PATTERN: &'static str = "**/*.rs";

/// What the regex engine reports for `pattern` on `text`: one entry per
/// non-overlapping match, from left to right, holding the text of capture
/// group 1 when that group took part in the match.
pub uninterp spec fn group_one_captures(pattern: Seq<char>, text: Seq<char>) -> Seq<Option<Seq<char>>>;

/// regex::Error, the failure of Regex::new, carried through opaquely.
#[verifier::external_type_specification]
#[verifier::external_body]
pub struct ExRegexError(regex::Error);

/// Relies on regex::Regex::new, Regex::captures_iter and Captures::get: the
/// pattern is compiled once, and for each text, in order, the matches come
/// from left to right without overlap, each with group 1 as it matched.  An
/// invalid or oversized pattern is the error of Regex::new, which depends on
/// the pattern alone; the command pattern is well formed and small, so
/// compiling it succeeds.
#[verifier::external_body]
fn capture_group_one_each(pattern: &str, texts: &Vec<String>) -> (r: Result<
    Vec<Vec<Option<String>>>,
    regex::Error,
>)
    ensures
        pattern@ == COMMAND_PATTERN@ ==> r is Ok,
        r matches Ok(v) ==> {
            &&& v@.len() == texts@.len()
            &&& forall|i: int|
                0 <= i < texts@.len() ==> opt_views(#[trigger] v@[i]@)
                    == group_one_captures(pattern@, texts@[i]@)
        },
{
    let rx = regex::Regex::new(pattern)?;
    Ok(texts.iter().map(|t| {
        rx.captures_iter(t).map(|c| c.get(1).map(|m| m.as_str().to_string())).collect()
    }).collect())
}

/// The view of each optional string.
pub open spec fn opt_views(v: Seq<Option<String>>) -> Seq<Option<Seq<char>>> {
    v.map_values(|o: Option<String>| match o {
        Some(s) => Some(s@),
        None => None,
    })
}

/// The captured texts, in order, leaving out the matches without one.
pub open spec fn present(caps: Seq<Option<Seq<char>>>) -> Seq<Seq<char>>
    decreases caps.len(),
{
    if caps.len() == 0 {
        Seq::empty()
    } else {
        match caps.last() {
            Some(s) => present(caps.drop_last()).push(s),
            None => present(caps.drop_last()),
        }
    }
}

/// The command names in one source text, in order of occurrence.
pub open spec fn command_names_in(text: Seq<char>) -> Seq<Seq<char>> {
    present(group_one_captures(COMMAND_PATTERN@, text))
}

/// The command names of several source texts: those of the first text, then
/// those of the second, and so on.
pub open spec fn command_names_in_all(texts: Seq<Seq<char>>) -> Seq<Seq<char>>
    decreases texts.len(),
{
    if texts.len() == 0 {
        Seq::empty()
    } else {
        command_names_in_all(texts.drop_last()) + command_names_in(texts.last())
    }
}

/// Keeps the captured texts, in order, and leaves out the matches without one.
pub fn present_names(caps: &Vec<Option<String>>) -> (r: Vec<String>)
    ensures
        r.deep_view() == present(opt_views(caps@)),
{
    let ghost all = opt_views(caps@);
    let mut names: Vec<String> = Vec::new();
    let mut i: usize = 0;
    while i < caps.len()
        invariant
            all == opt_views(caps@),
            0 <= i <= caps.len(),
            names.deep_view() == present(all.take(i as int)),
        decreases caps.len() - i,
    {
        assert(all.take(i + 1).drop_last() =~= all.take(i as int));
        match &caps[i] {
            Some(s) => {
                let ghost before = names.deep_view();
                names.push(s.clone());
                assert(names.deep_view() =~= before.push(s@));
            },
            None => {},
        }
        i = i + 1;
    }
    assert(all.take(caps.len() as int) =~= all);
    names
}

/// Finds the command names of each source text, compiling the pattern once.
/// Entry `i` of the result holds the names of `texts[i]`.
pub fn command_names_each(texts: &Vec<String>) -> (r: Vec<Vec<String>>)
    ensures
        r@.len() == texts@.len(),
        forall|i: int|
            0 <= i < texts@.len() ==> (#[trigger] r@[i]).deep_view() == command_names_in(
                texts@[i]@,
            ),
{
    match capture_group_one_each(COMMAND_PATTERN, texts) {
        // The command pattern always compiles: this arm is never taken.
        Err(_) => Vec::new(),
        Ok(caps) => {
            let mut out: Vec<Vec<String>> = Vec::new();
            let mut i: usize = 0;
            while i < caps.len()
                invariant
                    caps@.len() == texts@.len(),
                    forall|j: int|
                        0 <= j < texts@.len() ==> opt_views(#[trigger] caps@[j]@)
                            == group_one_captures(COMMAND_PATTERN@, texts@[j]@),
                    0 <= i <= caps.len(),
                    out@.len() == i,
                    forall|j: int|
                        0 <= j < i ==> (#[trigger] out@[j]).deep_view() == command_names_in(
                            texts@[j]@,
                        ),
                decreases caps.len() - i,
            {
                let names = present_names(&caps[i]);
                out.push(names);
                i = i + 1;
            }
            out
        },
    }
}

/// Finds the names of the functions marked as commands in one source text.
pub fn command_names(text: &str) -> (r: Vec<String>)
    ensures
        r.deep_view() == command_names_in(text@),
{
    let texts: Vec<String> = vec![String::from_str(text)];
    let mut each = command_names_each(&texts);
    assert(texts@[0]@ == text@);
    each.remove(0)
}

} // verus!
