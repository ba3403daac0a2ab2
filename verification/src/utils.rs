//! Where a file is first written before it is renamed into place.

use crate::error::Error;
use vstd::prelude::*;
use vstd::string::StrSliceExecFns;
use vstd::string::StringExecFns;

verus! {

/// The final component of a path, as `std::path::Path::file_name` gives it.
pub uninterp spec fn path_file_name(path: Seq<char>) -> Option<Seq<char>>;

/// A path without its final component, as `std::path::Path::parent` gives it.
pub uninterp spec fn path_parent(path: Seq<char>) -> Option<Seq<char>>;

/// A path with another adjoined, as `std::path::Path::join` does on Unix:
/// an absolute `tail` replaces `base`; otherwise `tail` is appended, after a
/// `/` unless `base` is empty or already ends in one.
pub open spec fn path_join(base: Seq<char>, tail: Seq<char>) -> Seq<char> {
    if tail.len() > 0 && tail[0] == '/' {
        tail
    } else if base.len() == 0 || base.last() == '/' {
        base + tail
    } else {
        base + seq!['/'] + tail
    }
}

/// An optional string by its view.
pub open spec fn opt_view(o: Option<String>) -> Option<Seq<char>> {
    match o {
        Some(s) => Some(s@),
        None => None,
    }
}

/// The final component of `path`, by `std::path::Path::file_name`.
#[verifier::external_body]
fn file_name_of(path: &str) -> (r: Option<String>)
    ensures
        opt_view(r) == path_file_name(path@),
{
    std::path::Path::new(path).file_name().map(|f| f.to_string_lossy().into_owned())
}

/// `path` without its final component, by `std::path::Path::parent`.
#[verifier::external_body]
fn parent_of(path: &str) -> (r: Option<String>)
    ensures
        opt_view(r) == path_parent(path@),
{
    std::path::Path::new(path).parent().map(|p| p.to_string_lossy().into_owned())
}

/// `tail` adjoined to `base`, as a path.
pub fn join_path(base: &str, tail: &str) -> (r: String)
    ensures
        r@ == path_join(base@, tail@),
        tail@.len() > 0 && tail@[0] == '/' ==> r@ == tail@,
        !(tail@.len() > 0 && tail@[0] == '/') ==> r@.subrange(0, base@.len() as int) == base@
            && r@.subrange(r@.len() - tail@.len(), r@.len() as int) == tail@,
{
    proof {
        law_join_keeps_base_and_tail(base@, tail@);
    }
    let tail_len = tail.unicode_len();
    if tail_len > 0 && tail.get_char(0) == '/' {
        return String::from_str(tail);
    }
    let base_len = base.unicode_len();
    if base_len == 0 || base.get_char(base_len - 1) == '/' {
        String::from_str(base).concat(tail)
    } else {
        proof {
            reveal_strlit("/");
            assert("/"@ =~= seq!['/']);
        }
        String::from_str(base).concat("/").concat(tail)
    }
}

/// The temporary file to write before `filename` is replaced: the file
/// name with a dot in front, in the same directory.
pub open spec fn temp_path_spec(filename: Seq<char>) -> Result<Seq<char>, Seq<char>> {
    match path_file_name(filename) {
        None => Err("pid path illegal "@ + filename),
        Some(f) => match path_parent(filename) {
            None => Err("failed to create tmp path"@),
            Some(p) => Ok(path_join(p, seq!['.'] + f)),
        },
    }
}

/// Where the temporary file goes, from the file name and parent directory
/// that `filename` has (as the path functions give them): the parent, and
/// the file name with a dot in front; or an invalid argument error when
/// there is no file name, or else no parent.
pub fn temp_path_parts(filename: &str, file_name: Option<String>, parent: Option<String>) -> (r:
    Result<(String, String), Error>)
    ensures
        match file_name {
            None => r matches Err(Error::InvalidArgument(e)) && e@ == "pid path illegal "@
                + filename@,
            Some(f) => match parent {
                None => r matches Err(Error::InvalidArgument(e)) && e@
                    == "failed to create tmp path"@,
                Some(p) => r matches Ok((d, t)) && d@ == p@ && t@ == seq!['.'] + f@,
            },
        },
{
    match file_name {
        None => {
            let msg = String::from_str("pid path illegal ").concat(filename);
            Err(Error::InvalidArgument(msg))
        },
        Some(file) => match parent {
            None => Err(Error::InvalidArgument(String::from_str("failed to create tmp path"))),
            Some(dir) => {
                let tail = String::from_str(".").concat(file.as_str());
                proof {
                    reveal_strlit(".");
                    assert("."@ =~= seq!['.']);
                }
                Ok((dir, tail))
            },
        },
    }
}

/// The temporary file to write before `filename` is replaced, or an invalid
/// argument error when `filename` has no file name or no parent.
pub fn temp_path_for(filename: &str) -> (r: Result<String, Error>)
    ensures
        match temp_path_spec(filename@) {
            Ok(t) => r matches Ok(s) && s@ == t,
            Err(m) => r matches Err(Error::InvalidArgument(e)) && e@ == m,
        },
        path_file_name(filename@) is None ==> r is Err,
        path_file_name(filename@) matches Some(f) ==> (path_parent(filename@) matches Some(p)
            ==> r matches Ok(s) && s@.subrange(0, p.len() as int) == p && s@.subrange(
            s@.len() - f.len() - 1,
            s@.len() as int,
        ) == seq!['.'] + f),
{
    proof {
        if let Some(f) = path_file_name(filename@) {
            if let Some(p) = path_parent(filename@) {
                law_temp_file_beside_target(p, f);
            }
        }
    }
    let file_name = file_name_of(filename);
    let parent = parent_of(filename);
    match temp_path_parts(filename, file_name, parent) {
        Ok((dir, tail)) => Ok(join_path(dir.as_str(), tail.as_str())),
        Err(e) => Err(e),
    }
}

/// Adjoining a relative path keeps the base as a prefix and the adjoined
/// path as a suffix, with at most one separator between them; an absolute
/// path replaces the base.
pub proof fn law_join_keeps_base_and_tail(base: Seq<char>, tail: Seq<char>)
    ensures
        tail.len() > 0 && tail[0] == '/' ==> path_join(base, tail) == tail,
        !(tail.len() > 0 && tail[0] == '/') ==> {
            let j = path_join(base, tail);
            &&& j.subrange(0, base.len() as int) == base
            &&& j.subrange(j.len() - tail.len(), j.len() as int) == tail
            &&& base.len() + tail.len() <= j.len() <= base.len() + tail.len() + 1
        },
{
    let j = path_join(base, tail);
    if !(tail.len() > 0 && tail[0] == '/') {
        if base.len() == 0 || base.last() == '/' {
            assert(j.subrange(0, base.len() as int) =~= base);
            assert(j.subrange(j.len() - tail.len(), j.len() as int) =~= tail);
        } else {
            assert(j.subrange(0, base.len() as int) =~= base);
            assert(j.subrange(j.len() - tail.len(), j.len() as int) =~= tail);
        }
    }
}

/// The temporary file sits in the target's directory: its path starts with
/// the target's parent and ends with a dot and the target's file name.
pub proof fn law_temp_file_beside_target(parent: Seq<char>, file: Seq<char>)
    ensures
        ({
            let t = path_join(parent, seq!['.'] + file);
            &&& t.subrange(0, parent.len() as int) == parent
            &&& t.subrange(t.len() - file.len() - 1, t.len() as int) == seq!['.'] + file
        }),
{
    let tail = seq!['.'] + file;
    assert(tail[0] == '.');
    law_join_keeps_base_and_tail(parent, tail);
}

} // verus!
