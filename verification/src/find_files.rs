//! The find-files tool: its parameter and result records and its name
//! matching. Walking the file system is I/O and lives with the embedding
//! application, which hands each candidate name to the matcher here.

use vstd::prelude::*;

use crate::strutil::starts_with_spec;

verus! {

/// Parameters for a file search.
#[derive(Debug, Clone)]
pub struct FindFilesParams {
    /// The pattern to match file names against.
    pub pattern: String,
    /// The directory to search in; the current directory when absent.
    pub path: Option<String>,
    /// Whether the pattern is a regular expression rather than a glob.
    pub regex: Option<bool>,
    /// Whether to search recursively.
    pub recursive: Option<bool>,
    /// The largest number of results to return.
    pub max_results: Option<usize>,
    /// File extensions to include.
    pub extensions: Option<Vec<String>>,
}

/// A single found file.
#[derive(Debug, Clone)]
pub struct FoundFile {
    /// Path to the file.
    pub path: String,
    /// File name only.
    pub name: String,
    /// File size in bytes.
    pub size: u64,
    /// Whether the entry is a file, a directory or a symlink.
    pub file_type: String,
}

/// The outcome of a file search.
#[derive(Debug, Clone)]
pub struct FindFilesResult {
    /// The files that matched the pattern.
    pub files: Vec<FoundFile>,
    /// The pattern that was searched for.
    pub pattern: String,
    /// The path that was searched.
    pub search_path: String,
    /// How many matches were found in all.
    pub total_matches: usize,
    /// Whether the result limit cut the search short.
    pub limit_reached: bool,
    /// Whether the search succeeded.
    pub success: bool,
}

/// Whether `pattern` is a valid regular expression that compiles under
/// the crate's default size limits.
pub uninterp spec fn regex_compiles(pattern: Seq<char>) -> bool;

/// Whether the regular expression `pattern` matches somewhere in `text`.
pub uninterp spec fn regex_matches(pattern: Seq<char>, text: Seq<char>) -> bool;

/// Relies on `regex::Regex::new` and `regex::Regex::is_match`: whether the
/// pattern compiles, and whether it matches a text, depend on the pattern
/// and the text alone.
#[verifier::external_body]
fn regex_match(pattern: &str, text: &str) -> (r: Result<bool, String>)
    ensures
        r is Ok <==> regex_compiles(pattern@),
        r matches Ok(b) ==> b == regex_matches(pattern@, text@),
{
    match regex::Regex::new(pattern) {
        Ok(re) => Ok(re.is_match(text)),
        Err(e) => Err(e.to_string()),
    }
}

/// Whether `pattern` parses as a glob and compiles into a matcher under
/// the crate's fixed size limits.
pub uninterp spec fn glob_compiles(pattern: Seq<char>) -> bool;

/// Whether the glob `pattern` matches the path `text`. Globset normalizes
/// path separators per compile target, so this is a fixed function of its
/// arguments on any one target.
pub uninterp spec fn glob_matches(pattern: Seq<char>, text: Seq<char>) -> bool;

/// Relies on `globset::Glob::new`, `GlobSetBuilder::build` and
/// `GlobSet::is_match`: whether the pattern parses and compiles, and
/// whether it matches a path, depend on the pattern and the path alone.
/// The builder is used rather than `Glob::compile_matcher` because the
/// builder reports a regex over the size limit as an error instead of
/// panicking.
#[verifier::external_body]
fn glob_match(pattern: &str, text: &str) -> (r: Result<bool, String>)
    ensures
        r is Ok <==> glob_compiles(pattern@),
        r matches Ok(b) ==> b == glob_matches(pattern@, text@),
{
    match globset::Glob::new(pattern) {
        Ok(glob) => {
            let mut builder = globset::GlobSetBuilder::new();
            builder.add(glob);
            match builder.build() {
                Ok(set) => Ok(set.is_match(text)),
                Err(e) => Err(e.to_string()),
            }
        },
        Err(e) => Err(e.to_string()),
    }
}

/// Finds files by name pattern: glob or regular-expression matching,
/// recursive traversal, extension filtering and result limiting. The
/// traversal lives with the embedding application.
#[derive(Debug, Clone, Copy, PartialEq, Eq, Structural)]
pub struct FindFilesTool;

impl FindFilesTool {
    /// Create a new tool instance.
    pub fn new() -> (r: FindFilesTool)
        ensures
            r == FindFilesTool,
    {
        FindFilesTool
    }

    /// Whether `name` matches `pattern`, read as a regular expression or
    /// as a glob; an invalid pattern is reported with a message naming
    /// which kind failed.
    pub fn matches_pattern(&self, name: &str, pattern: &str, use_regex: bool) -> (r: Result<
        bool,
        String,
    >)
        ensures
            use_regex ==> {
                &&& (r is Ok <==> regex_compiles(pattern@))
                &&& (r matches Ok(b) ==> b == regex_matches(pattern@, name@))
                &&& (r matches Err(e) ==> starts_with_spec(e@, "Invalid regex pattern: "@))
            },
            !use_regex ==> {
                &&& (r is Ok <==> glob_compiles(pattern@))
                &&& (r matches Ok(b) ==> b == glob_matches(pattern@, name@))
                &&& (r matches Err(e) ==> starts_with_spec(e@, "Invalid glob pattern: "@))
            },
    {
        if use_regex {
            match regex_match(pattern, name) {
                Ok(b) => Ok(b),
                Err(e) => {
                    let mut msg = String::from_str("Invalid regex pattern: ");
                    msg.append(e.as_str());
                    proof {
                        assert(msg@.subrange(0, "Invalid regex pattern: "@.len() as int)
                            =~= "Invalid regex pattern: "@);
                    }
                    Err(msg)
                },
            }
        } else {
            match glob_match(pattern, name) {
                Ok(b) => Ok(b),
                Err(e) => {
                    let mut msg = String::from_str("Invalid glob pattern: ");
                    msg.append(e.as_str());
                    proof {
                        assert(msg@.subrange(0, "Invalid glob pattern: "@.len() as int)
                            =~= "Invalid glob pattern: "@);
                    }
                    Err(msg)
                },
            }
        }
    }
}

} // verus!
