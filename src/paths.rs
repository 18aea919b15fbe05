//! Paths derived from an exercise's path: its chapter, hint, solution, and the
//! name of the private copy that its tests run on.

use crate::exercise::Exercise;
use vstd::prelude::*;

verus! {

/// What `std::path::Path::parent` gives for a path.
pub uninterp spec fn parent_of(p: Seq<char>) -> Option<Seq<char>>;

/// What `std::path::Path::file_name` gives for a path.
pub uninterp spec fn file_name_of(p: Seq<char>) -> Option<Seq<char>>;

/// What `std::path::Path::file_stem` gives for a path.
pub uninterp spec fn file_stem_of(p: Seq<char>) -> Option<Seq<char>>;

pub open spec fn opt_view(o: Option<String>) -> Option<Seq<char>> {
    match o {
        Some(s) => Some(s@),
        None => None,
    }
}

/// Relies on `std::path::Path::parent`: the path without its final component.
#[verifier::external_body]
fn parent(p: &str) -> (r: Option<String>)
    ensures
        opt_view(r) == parent_of(p@),
{
    std::path::Path::new(p).parent().map(|q| q.to_string_lossy().into_owned())
}

/// Relies on `std::path::Path::file_name`: the final component of the path.
#[verifier::external_body]
fn file_name(p: &str) -> (r: Option<String>)
    ensures
        opt_view(r) == file_name_of(p@),
{
    std::path::Path::new(p).file_name().map(|q| q.to_string_lossy().into_owned())
}

/// Relies on `std::path::Path::file_stem`: the final component without its extension.
#[verifier::external_body]
fn file_stem(p: &str) -> (r: Option<String>)
    ensures
        opt_view(r) == file_stem_of(p@),
{
    std::path::Path::new(p).file_stem().map(|q| q.to_string_lossy().into_owned())
}

/// Relies on `format!`: the two strings one after the other.
#[verifier::external_body]
fn concat(a: &str, b: &str) -> (r: String)
    ensures
        r@ == a@ + b@,
{
    format!("{}{}", a, b)
}

/// Relies on `str::starts_with`: whether `s` begins with `prefix`.
#[verifier::external_body]
pub(crate) fn starts_with(s: &str, prefix: &str) -> (r: bool)
    ensures
        r == is_prefix(prefix@, s@),
{
    s.starts_with(prefix)
}

/// `prefix` is a prefix of `s`.
pub open spec fn is_prefix(prefix: Seq<char>, s: Seq<char>) -> bool {
    prefix.len() <= s.len() && s.subrange(0, prefix.len() as int) == prefix
}

/// The name of the directory that holds the file at `p`: its chapter.
pub open spec fn chapter_of(p: Seq<char>) -> Option<Seq<char>> {
    match parent_of(p) {
        Some(q) => file_name_of(q),
        None => None,
    }
}

/// `dir`, then `name` under it.
pub open spec fn joined(dir: Seq<char>, name: Seq<char>) -> Seq<char> {
    dir + seq!['/'] + name
}

/// `base`, with `name` under it when there is one.
pub open spec fn joined_opt(base: Seq<char>, name: Option<Seq<char>>) -> Seq<char> {
    match name {
        Some(n) => joined(base, n),
        None => base,
    }
}

/// The hint of the exercise at `p`: `hints/<chapter>/<stem>.md`.
pub open spec fn hint_path_of(p: Seq<char>) -> Seq<char> {
    joined_opt(
        joined_opt(seq!['h', 'i', 'n', 't', 's'], chapter_of(p)),
        match file_stem_of(p) {
            Some(s) => Some(s + seq!['.', 'm', 'd']),
            None => None,
        },
    )
}

/// The solution of the exercise at `p`: `solutions/<chapter>/<file name>`.
pub open spec fn solution_path_of(p: Seq<char>) -> Seq<char> {
    joined_opt(
        joined_opt(seq!['s', 'o', 'l', 'u', 't', 'i', 'o', 'n', 's'], chapter_of(p)),
        file_name_of(p),
    )
}

/// `test-`.
pub open spec fn test_prefix() -> Seq<char> {
    seq!['t', 'e', 's', 't', '-']
}

/// The name of the private copy that the tests of a file named `name` run on:
/// the name itself when it already begins with `test-`, else `test-` before it.
pub open spec fn test_copy_name_of(name: Seq<char>) -> Seq<char> {
    if is_prefix(test_prefix(), name) {
        name
    } else {
        test_prefix() + name
    }
}

/// The file name the test copy is named after, when the path has none.
pub open spec fn fallback_file_name() -> Seq<char> {
    seq!['e', 'x', 'e', 'r', 'c', 'i', 's', 'e', '.', 's', 'e', 'q']
}

fn join(dir: &str, name: &str) -> (r: String)
    ensures
        r@ == joined(dir@, name@),
{
    proof {
        reveal_strlit("/");
    }
    let d = concat(dir, "/");
    concat(d.as_str(), name)
}

impl Exercise {
    /// The chapter of the exercise: the name of the directory that holds it.
    pub fn chapter(&self) -> (r: Option<String>)
        ensures
            opt_view(r) == chapter_of(self.path@),
    {
        match parent(self.path.as_str()) {
            Some(q) => file_name(q.as_str()),
            None => None,
        }
    }

    /// Where the exercise's hint lives: `hints/<chapter>/<stem>.md`.
    pub fn hint_path(&self) -> (r: String)
        ensures
            r@ == hint_path_of(self.path@),
    {
        proof {
            reveal_strlit("hints");
            reveal_strlit(".md");
        }
        let mut out = "hints".to_owned();
        assert(out@ =~= seq!['h', 'i', 'n', 't', 's']);
        if let Some(topic) = self.chapter() {
            out = join(out.as_str(), topic.as_str());
        }
        if let Some(stem) = file_stem(self.path.as_str()) {
            let name = concat(stem.as_str(), ".md");
            assert(name@ =~= stem@ + seq!['.', 'm', 'd']);
            out = join(out.as_str(), name.as_str());
        }
        out
    }

    /// Where the exercise's solution lives: `solutions/<chapter>/<file name>`.
    pub fn solution_path(&self) -> (r: String)
        ensures
            r@ == solution_path_of(self.path@),
    {
        proof {
            reveal_strlit("solutions");
        }
        let mut out = "solutions".to_owned();
        assert(out@ =~= seq!['s', 'o', 'l', 'u', 't', 'i', 'o', 'n', 's']);
        if let Some(topic) = self.chapter() {
            out = join(out.as_str(), topic.as_str());
        }
        if let Some(name) = file_name(self.path.as_str()) {
            out = join(out.as_str(), name.as_str());
        }
        out
    }

    /// The file name of the private copy that the exercise's tests run on.
    pub fn test_copy_name(&self) -> (r: String)
        ensures
            r@ == test_copy_name_of(
                match file_name_of(self.path@) {
                    Some(n) => n,
                    None => fallback_file_name(),
                },
            ),
    {
        proof {
            reveal_strlit("exercise.seq");
            reveal_strlit("test-");
        }
        let name = match file_name(self.path.as_str()) {
            Some(n) => n,
            None => "exercise.seq".to_owned(),
        };
        assert(fallback_file_name() =~= "exercise.seq"@);
        assert(test_prefix() =~= "test-"@);
        if starts_with(name.as_str(), "test-") {
            name
        } else {
            concat("test-", name.as_str())
        }
    }
}

} // verus!
