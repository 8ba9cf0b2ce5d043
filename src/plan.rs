//! Where the repositories to maintain come from, and what a run does first.

use vstd::prelude::*;
use vstd::string::*;

verus! {

/// Where the list of repositories comes from.
#[derive(Clone, Debug)]
pub enum RepoSource {
    /// A text file that names one repository per line.
    File(String),
    /// Repositories named one by one.
    List(Vec<String>),
    /// A walk beneath a root directory.
    Scan { root: String, recursive: bool },
}

/// How a run begins once its repositories are known.
#[derive(Clone, Debug)]
pub enum RunPlan {
    /// Print this message and stop: there is nothing to maintain.
    NothingFound(String),
    /// Maintain these repositories one after the other, in this order.
    Maintain(Vec<String>),
}

/// The message printed when a scan finds no repository.
pub open spec fn nothing_found_text() -> Seq<char> {
    "No Git repositories found."@
}

/// Picks the source of repositories: a file wins over a list, a non-empty
/// list over a scan, and a scan without a root starts at the current
/// directory.
pub fn choose_source(
    file: Option<String>,
    list: Vec<String>,
    root: Option<String>,
    recursive: bool,
) -> (r: RepoSource)
    ensures
        file matches Some(f) ==> r == RepoSource::File(f),
        file is None && list.len() > 0 ==> r == RepoSource::List(list),
        file is None && list.len() == 0 ==> (r matches RepoSource::Scan { root: d, recursive: rec }
            && rec == recursive && d@ == (match root {
            Some(x) => x@,
            None => "."@,
        })),
{
    match file {
        Some(f) => RepoSource::File(f),
        None => {
            if list.len() > 0 {
                RepoSource::List(list)
            } else {
                let d = match root {
                    Some(x) => x,
                    None => String::from_str("."),
                };
                RepoSource::Scan { root: d, recursive }
            }
        },
    }
}

/// Begins a run over the repositories that were found: with none, the run
/// only reports that; otherwise each one is maintained, in the order given.
pub fn plan_run(repos: Vec<String>) -> (r: RunPlan)
    ensures
        repos.len() == 0 <==> r is NothingFound,
        r matches RunPlan::NothingFound(m) ==> m@ == nothing_found_text(),
        r matches RunPlan::Maintain(v) ==> v == repos,
{
    if repos.len() == 0 {
        RunPlan::NothingFound(String::from_str("No Git repositories found."))
    } else {
        RunPlan::Maintain(repos)
    }
}

/// A line without the carriage return that may end it.
pub open spec fn without_cr(l: Seq<char>) -> Seq<char> {
    if l.len() > 0 && l.last() == '\r' {
        l.drop_last()
    } else {
        l
    }
}

/// The line as a list of at most one name: none for a blank line.
pub open spec fn line_entry(l: Seq<char>) -> Seq<Seq<char>> {
    if without_cr(l).len() == 0 {
        Seq::empty()
    } else {
        seq![without_cr(l)]
    }
}

/// The names on the lines of `s` from the line that starts at `start`, the
/// scan having reached `i` without meeting a line break.
pub open spec fn lines_scan(s: Seq<char>, start: int, i: int) -> Seq<Seq<char>>
    decreases s.len() - i,
{
    if i >= s.len() {
        line_entry(s.subrange(start, s.len() as int))
    } else if s[i] == '\n' {
        line_entry(s.subrange(start, i)) + lines_scan(s, i + 1, i + 1)
    } else {
        lines_scan(s, start, i + 1)
    }
}

/// The names that a text lists one per line, blank lines left out.
pub open spec fn listed_names(s: Seq<char>) -> Seq<Seq<char>> {
    lines_scan(s, 0, 0)
}

fn push_line(r: &mut Vec<String>, text: &str, start: usize, end: usize)
    requires
        start <= end <= text@.len(),
    ensures
        final(r)@.map_values(|x: String| x@) == old(r)@.map_values(|x: String| x@) + line_entry(
            text@.subrange(start as int, end as int),
        ),
{
    let ghost l = text@.subrange(start as int, end as int);
    let mut stop = end;
    if stop > start && text.get_char(stop - 1) == '\r' {
        stop = stop - 1;
    }
    assert(text@.subrange(start as int, stop as int) == without_cr(l));
    if stop > start {
        let line = String::from_str(text.substring_char(start, stop));
        let ghost before = r@;
        r.push(line);
        assert(r@.map_values(|x: String| x@) =~= before.map_values(|x: String| x@) + line_entry(l));
    } else {
        assert(r@.map_values(|x: String| x@) =~= r@.map_values(|x: String| x@) + line_entry(l));
    }
}

/// The repositories that a text names, one per line: a line break ends each
/// line, a carriage return before it is dropped, and blank lines are skipped.
pub fn repositories_from_text(text: &str) -> (r: Vec<String>)
    ensures
        r@.map_values(|x: String| x@) == listed_names(text@),
{
    let n = text.unicode_len();
    let mut r: Vec<String> = Vec::new();
    let mut start: usize = 0;
    let mut i: usize = 0;
    while i < n
        invariant
            n == text@.len(),
            0 <= start <= i <= n,
            r@.map_values(|x: String| x@) + lines_scan(text@, start as int, i as int) == listed_names(
                text@,
            ),
        decreases n - i,
    {
        if text.get_char(i) == '\n' {
            let ghost before = r@.map_values(|x: String| x@);
            push_line(&mut r, text, start, i);
            assert(before + lines_scan(text@, start as int, i as int) =~= r@.map_values(
                |x: String| x@,
            ) + lines_scan(text@, i + 1, i + 1));
            start = i + 1;
        }
        i = i + 1;
    }
    let ghost before = r@.map_values(|x: String| x@);
    push_line(&mut r, text, start, n);
    r
}

} // verus!
