//! The path validator: which request paths may reach the filesystem.
//!
//! Both `/` and `\` count as separators, so a path means the same on every
//! host. Inspection is syntactic: symbolic links are not resolved, so a link
//! inside the storage root can still lead out of it.

use vstd::prelude::*;
use vstd::string::*;
use crate::error::AppError;
use crate::request::HeaderField;

verus! {

/// A character that separates path components.
pub open spec fn is_separator(c: char) -> bool {
    c == '/' || c == '\\'
}

/// A path that starts with a drive letter and a colon, such as `C:`.
pub open spec fn has_drive_prefix(p: Seq<char>) -> bool {
    p.len() >= 2 && p[1] == ':' && (('a' <= p[0] && p[0] <= 'z') || ('A' <= p[0] && p[0] <= 'Z'))
}

/// A path that does not start inside the storage root: it starts at a root,
/// or names a drive.
pub open spec fn is_absolute_path(p: Seq<char>) -> bool {
    (p.len() > 0 && is_separator(p[0])) || has_drive_prefix(p)
}

/// A `..` component starts at index `i` of `p`.
pub open spec fn parent_component_at(p: Seq<char>, i: int) -> bool {
    &&& 0 <= i
    &&& i + 2 <= p.len()
    &&& p[i] == '.'
    &&& p[i + 1] == '.'
    &&& (i == 0 || is_separator(p[i - 1]))
    &&& (i + 2 == p.len() || is_separator(p[i + 2]))
}

/// Some component of `p` is `..`.
pub open spec fn has_parent_component(p: Seq<char>) -> bool {
    exists|i: int| parent_component_at(p, i)
}

/// A path that stays inside the storage root, as far as its text shows.
pub open spec fn is_safe_path(p: Seq<char>) -> bool {
    !is_absolute_path(p) && !has_parent_component(p)
}

/// Why a path header cannot name a file to work on.
#[derive(Clone, Copy, Debug, PartialEq, Eq, Structural)]
pub enum PathProblem {
    /// The header was not sent.
    Missing,
    /// The header's value is not text.
    NotText,
    /// The path starts at a root or names a drive.
    Absolute,
    /// The path has a `..` component.
    Traversal,
}

/// What is wrong with a path, absoluteness first; `None` where it is safe.
pub open spec fn path_problem(p: Seq<char>) -> Option<PathProblem> {
    if is_absolute_path(p) {
        Some(PathProblem::Absolute)
    } else if has_parent_component(p) {
        Some(PathProblem::Traversal)
    } else {
        None
    }
}

/// What is wrong with a path header; `None` where it names a safe path.
pub open spec fn header_problem(h: HeaderField) -> Option<PathProblem> {
    match h {
        HeaderField::Missing => Some(PathProblem::Missing),
        HeaderField::NotText => Some(PathProblem::NotText),
        HeaderField::Text(s) => path_problem(s@),
    }
}

impl PathProblem {
    /// How a save request is told of the problem.
    pub open spec fn spec_save_text(self) -> Seq<char> {
        match self {
            PathProblem::Missing => "Missing Path header"@,
            PathProblem::NotText => "Invalid Path header"@,
            PathProblem::Absolute => "Absolute paths are not allowed"@,
            PathProblem::Traversal => "Path traversal is not allowed"@,
        }
    }

    /// How a delete request is told of the problem.
    pub open spec fn spec_delete_text(self) -> Seq<char> {
        match self {
            PathProblem::Missing => "Missing Path header"@,
            PathProblem::NotText => "Invalid UTF-8 in Path header"@,
            PathProblem::Absolute => "Absolute paths are not allowed"@,
            PathProblem::Traversal => "Path traversal not allowed"@,
        }
    }

    pub fn save_text(self) -> (r: String)
        ensures
            r@ == self.spec_save_text(),
    {
        match self {
            PathProblem::Missing => String::from_str("Missing Path header"),
            PathProblem::NotText => String::from_str("Invalid Path header"),
            PathProblem::Absolute => String::from_str("Absolute paths are not allowed"),
            PathProblem::Traversal => String::from_str("Path traversal is not allowed"),
        }
    }

    pub fn delete_text(self) -> (r: String)
        ensures
            r@ == self.spec_delete_text(),
    {
        match self {
            PathProblem::Missing => String::from_str("Missing Path header"),
            PathProblem::NotText => String::from_str("Invalid UTF-8 in Path header"),
            PathProblem::Absolute => String::from_str("Absolute paths are not allowed"),
            PathProblem::Traversal => String::from_str("Path traversal not allowed"),
        }
    }
}

/// Why a save request's path header is refused, or `None` where it names a
/// safe path.
pub open spec fn path_rejection(h: HeaderField) -> Option<Seq<char>> {
    match header_problem(h) {
        Some(p) => Some(p.spec_save_text()),
        None => None,
    }
}

/// Why a delete request's path header is refused, or `None` where it names a
/// safe path.
pub open spec fn delete_path_rejection(h: HeaderField) -> Option<Seq<char>> {
    match header_problem(h) {
        Some(p) => Some(p.spec_delete_text()),
        None => None,
    }
}

/// The characters of `s`, in order.
fn chars_of(s: &str) -> (r: Vec<char>)
    ensures
        r@ == s@,
{
    let mut r: Vec<char> = Vec::new();
    for c in it: s.chars()
        invariant
            r@ == it.seq().take(it.index() as int),
    {
        r.push(c);
    }
    r
}

/// Whether some component of `p` is `..`.
fn find_parent_component(p: &Vec<char>) -> (r: bool)
    ensures
        r == has_parent_component(p@),
{
    let n = p.len();
    let mut i: usize = 0;
    while i < n && i + 1 < n
        invariant
            i <= n,
            n == p@.len(),
            forall|j: int| 0 <= j < i ==> !parent_component_at(p@, j),
        decreases n - i,
    {
        if p[i] == '.' && p[i + 1] == '.' && (i == 0 || p[i - 1] == '/' || p[i - 1] == '\\') && (i
            + 2 == n || p[i + 2] == '/' || p[i + 2] == '\\') {
            assert(parent_component_at(p@, i as int));
            return true;
        }
        i += 1;
    }
    assert forall|j: int| !parent_component_at(p@, j) by {
        if 0 <= j < i {
        }
    }
    false
}

/// A relative path with no `..` component: the only form of path that the
/// save and remove steps accept.
pub struct ValidatedPath {
    path: String,
}

impl View for ValidatedPath {
    type V = Seq<char>;

    closed spec fn view(&self) -> Seq<char> {
        self.path@
    }
}

impl ValidatedPath {
    #[verifier::type_invariant]
    spec fn inv(&self) -> bool {
        is_safe_path(self.path@)
    }

    /// The path's text.
    pub fn as_str(&self) -> (r: &str)
        ensures
            r@ == self@,
            is_safe_path(r@),
    {
        proof {
            use_type_invariant(self);
        }
        self.path.as_str()
    }
}

/// Whether `p` starts at a root or names a drive.
fn starts_absolute(p: &Vec<char>) -> (r: bool)
    ensures
        r == is_absolute_path(p@),
{
    let root = p.len() > 0 && (p[0] == '/' || p[0] == '\\');
    let drive = p.len() >= 2 && p[1] == ':' && (('a' <= p[0] && p[0] <= 'z') || ('A' <= p[0]
        && p[0] <= 'Z'));
    root || drive
}

/// Checks a raw path, and says what is wrong with it where it is not safe.
pub fn check_path(raw: &str) -> (r: Result<ValidatedPath, PathProblem>)
    ensures
        r is Ok <==> path_problem(raw@) is None,
        r matches Ok(v) ==> v@ == raw@,
        r matches Err(p) ==> path_problem(raw@) == Some(p),
{
    let chars = chars_of(raw);
    if starts_absolute(&chars) {
        return Err(PathProblem::Absolute);
    }
    if find_parent_component(&chars) {
        return Err(PathProblem::Traversal);
    }
    Ok(ValidatedPath { path: raw.to_string() })
}

/// Checks the path header of a request: it must be present, be text, and
/// name a safe path.
pub fn check_header(h: &HeaderField) -> (r: Result<ValidatedPath, PathProblem>)
    ensures
        r is Ok <==> header_problem(*h) is None,
        r matches Ok(v) ==> (h matches HeaderField::Text(s) && v@ == s@),
        r matches Err(p) ==> header_problem(*h) == Some(p),
{
    match h {
        HeaderField::Missing => Err(PathProblem::Missing),
        HeaderField::NotText => Err(PathProblem::NotText),
        HeaderField::Text(s) => check_path(s.as_str()),
    }
}

/// Checks a raw path: absolute paths and paths with a `..` component are
/// refused as invalid requests, before anything touches the filesystem.
pub fn validate(raw: &str) -> (r: Result<ValidatedPath, AppError>)
    ensures
        r is Ok <==> is_safe_path(raw@),
        r matches Ok(v) ==> v@ == raw@,
        r matches Err(e) ==> (e matches AppError::InvalidRequest(m) && path_problem(raw@) matches Some(
            p,
        ) && m@ == p.spec_save_text()),
{
    match check_path(raw) {
        Ok(v) => Ok(v),
        Err(p) => Err(AppError::InvalidRequest(p.save_text())),
    }
}

/// Checks the path header of a save request, with the save's refusal texts.
pub fn validate_header(h: &HeaderField) -> (r: Result<ValidatedPath, AppError>)
    ensures
        r is Ok <==> path_rejection(*h) is None,
        r matches Ok(v) ==> (h matches HeaderField::Text(s) && v@ == s@),
        r matches Err(e) ==> (e matches AppError::InvalidRequest(m) && path_rejection(*h) == Some(
            m@,
        )),
{
    match check_header(h) {
        Ok(v) => Ok(v),
        Err(p) => Err(AppError::InvalidRequest(p.save_text())),
    }
}

/// The directory that holds `p`, as std's `Path::parent` gives it: `p`
/// without its final component, or nothing where `p` has none.
pub uninterp spec fn parent_directory(p: Seq<char>) -> Option<Seq<char>>;

/// Relies on std's `Path::parent` (through `Path::new`, and
/// `to_string_lossy`, which is exact on text that came from a `str`): the
/// path without its final component, `None` where there is none.
#[verifier::external_body]
pub(crate) fn parent_of(p: &str) -> (r: Option<String>)
    ensures
        r is None <==> parent_directory(p@) is None,
        r matches Some(q) ==> parent_directory(p@) == Some(q@),
{
    std::path::Path::new(p).parent().map(|q| q.to_string_lossy().into_owned())
}

} // verus!
