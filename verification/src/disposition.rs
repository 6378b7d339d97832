//! Resolves command-line stream flags into one routing decision per stream.
//!
//! Each standard stream of the child is driven by a group of mutually
//! exclusive flags: a "null" flag, a "share with the sibling" flag (stdout
//! and stderr only), and a path-taking flag. Precedence when several are
//! given is null over shared over path; with none of them the stream is
//! inherited. A path of the single placeholder character `-` also means
//! "inherit the parent's own stream".

use vstd::prelude::*;
use vstd::string::StrSliceExecFns;

verus! {

/// Routing decision for the child's standard input.
#[derive(Debug)]
pub enum StdinDisposition {
    Null,
    Inherit,
    Redirect(String),
}

/// Routing decision for the child's stdout or stderr.
#[derive(Debug)]
pub enum StreamDisposition {
    Null,
    Inherit,
    Redirect(String),
    Shared,
}

/// A path argument of exactly the one placeholder character that asks for
/// the parent's own stream instead of naming a file.
pub open spec fn is_passthrough(s: Seq<char>) -> bool {
    s.len() == 1 && s[0] == '-'
}

/// The disposition owed to stdin: the null flag wins over a path; a path of
/// the placeholder, or no path at all, inherits.
pub open spec fn spec_resolve_stdin(null_flag: bool, path: Option<String>) -> StdinDisposition {
    if null_flag {
        StdinDisposition::Null
    } else {
        match path {
            Option::None => StdinDisposition::Inherit,
            Option::Some(p) => if is_passthrough(p@) {
                StdinDisposition::Inherit
            } else {
                StdinDisposition::Redirect(p)
            },
        }
    }
}

/// The disposition owed to stdout or stderr: null wins over shared, which
/// wins over a path; a path of the placeholder, or no path at all, inherits.
pub open spec fn spec_resolve_stream(
    null_flag: bool,
    shared_flag: bool,
    path: Option<String>,
) -> StreamDisposition {
    if null_flag {
        StreamDisposition::Null
    } else if shared_flag {
        StreamDisposition::Shared
    } else {
        match path {
            Option::None => StreamDisposition::Inherit,
            Option::Some(p) => if is_passthrough(p@) {
                StreamDisposition::Inherit
            } else {
                StreamDisposition::Redirect(p)
            },
        }
    }
}

/// True exactly when `s` is the one-character placeholder `-`.
fn is_placeholder(s: &String) -> (r: bool)
    ensures
        r == is_passthrough(s@),
{
    let st: &str = s.as_str();
    if st.unicode_len() == 1 {
        st.get_char(0) == '-'
    } else {
        false
    }
}

/// Resolves the stdin flag group to a disposition.
pub fn resolve_stdin(null_flag: bool, path: Option<String>) -> (d: StdinDisposition)
    ensures
        d == spec_resolve_stdin(null_flag, path),
{
    if null_flag {
        StdinDisposition::Null
    } else {
        match path {
            Option::None => StdinDisposition::Inherit,
            Option::Some(p) => {
                if is_placeholder(&p) {
                    StdinDisposition::Inherit
                } else {
                    StdinDisposition::Redirect(p)
                }
            },
        }
    }
}

/// Resolves the flag group of stdout or stderr to a disposition.
pub fn resolve_stream(null_flag: bool, shared_flag: bool, path: Option<String>) -> (d:
    StreamDisposition)
    ensures
        d == spec_resolve_stream(null_flag, shared_flag, path),
{
    if null_flag {
        StreamDisposition::Null
    } else if shared_flag {
        StreamDisposition::Shared
    } else {
        match path {
            Option::None => StreamDisposition::Inherit,
            Option::Some(p) => {
                if is_placeholder(&p) {
                    StreamDisposition::Inherit
                } else {
                    StreamDisposition::Redirect(p)
                }
            },
        }
    }
}

} // verus!
