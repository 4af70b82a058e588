//! Staging: every new or modified file of the working tree goes into the
//! index, and the names of the staged files make the commit message.

use vstd::prelude::*;
use vstd::string::*;
use crate::backend::{
    has_nul, index_add_all, index_write, index_write_tree, repository_index, status_file,
};
use crate::error::RepoError;
use crate::repository::{backend_error, Repository};
use crate::working_tree_status::{WT_MODIFIED, WT_NEW};

verus! {

/// Whether a file with these status bits is staged: it is new in the
/// working tree, or modified there.
pub open spec fn stageable(status: u32) -> bool {
    status & WT_MODIFIED != 0 || status & WT_NEW != 0
}

/// The message after one more staged path: the path itself for the first,
/// and a comma, a space and the path after that.
pub open spec fn extend_message(message: Seq<char>, path: Seq<char>) -> Seq<char> {
    if message.len() == 0 {
        path
    } else {
        message + ", "@ + path
    }
}

/// The message after the paths of `paths` have been staged one after the
/// other.
pub open spec fn extend_all(message: Seq<char>, paths: Seq<Seq<char>>) -> Seq<char>
    decreases paths.len(),
{
    if paths.len() == 0 {
        message
    } else {
        extend_all(extend_message(message, paths[0]), paths.drop_first())
    }
}

/// The message that a list of staged paths makes: the paths in order,
/// separated by a comma and a space.
pub open spec fn message_of(paths: Seq<Seq<char>>) -> Seq<char> {
    extend_all(Seq::empty(), paths)
}

/// Whether a text is the message of some list of staged paths.
pub open spec fn is_staging_message(message: Seq<char>) -> bool {
    exists|paths: Seq<Seq<char>>| message == message_of(paths)
}

/// Decides about one path that the walk over the working tree found, and
/// keeps the message. The answer is 0 where the path is to be staged and 1
/// where it is to be skipped; a path is staged exactly where its status
/// says so, and then the message grows by it.
pub fn note_path(message: &mut String, path: &str, status: u32) -> (res: i32)
    ensures
        res == (if stageable(status) { 0i32 } else { 1i32 }),
        final(message)@ == (if stageable(status) {
            extend_message(old(message)@, path@)
        } else {
            old(message)@
        }),
{
    if status & WT_MODIFIED != 0 || status & WT_NEW != 0 {
        if message.as_str().is_empty() {
            assert(old(message)@ + path@ =~= path@);
            message.append(path);
        } else {
            message.append(", ");
            message.append(path);
        }
        0
    } else {
        1
    }
}

/// Asks the backend for the status of `path` and decides with
/// [`note_path`]. Where the status cannot be read the answer is -1, which
/// ends the walk; it cannot be read of a path that the backend cannot
/// take. Answer and message are what the status amounts to.
pub fn stage_path(repository: &Repository, message: &mut String, path: &str) -> (res: i32)
    ensures
        exists|status: Option<u32>|
            {
                &&& has_nul(path@) ==> status is None
                &&& res == #[trigger] spec_answer(status)
                &&& final(message)@ == spec_noted(old(message)@, path@, status)
            },
{
    match status_file(repository, path) {
        Ok(status) => {
            let answer = note_path(message, path, status);
            proof {
                assert(answer == spec_answer(Some(status)));
                assert(message@ == spec_noted(old(message)@, path@, Some(status)));
            }
            answer
        },
        Err(_) => {
            proof {
                assert(-1 == spec_answer(None));
                assert(message@ == spec_noted(old(message)@, path@, None));
            }
            -1
        },
    }
}

/// The answer for one path, for the status that the backend gave of it,
/// if it gave one: 0 where the path is to be staged, 1 where it is to be
/// skipped, and -1, which ends the walk, where the status could not be
/// read.
pub open spec fn spec_answer(status: Option<u32>) -> int {
    match status {
        Some(bits) => if stageable(bits) {
            0
        } else {
            1
        },
        None => -1,
    }
}

/// The message after one path was asked about: it grows by the path where
/// the path is staged, and stays as it is otherwise.
pub open spec fn spec_noted(message: Seq<char>, path: Seq<char>, status: Option<u32>) -> Seq<char> {
    if spec_answer(status) == 0 {
        extend_message(message, path)
    } else {
        message
    }
}

/// Stages every new or modified file and writes the index as a tree.
/// Returns the tree's id and the message that the staged paths make.
pub fn add(repository: &Repository) -> (res: Result<(git2::Oid, String), RepoError>)
    ensures
        res matches Ok((_, message)) ==> is_staging_message(message@),
        res matches Err(e) ==> e is Backend,
{
    let mut index = match repository_index(repository) {
        Ok(index) => index,
        Err(e) => return Err(backend_error(&e)),
    };
    let mut message = String::new();
    match index_add_all(&mut index, repository, &mut message) {
        Ok(()) => {},
        Err(e) => return Err(backend_error(&e)),
    }
    proof {
        let paths = choose|paths: Seq<Seq<char>>| message@ == extend_all(Seq::empty(), paths);
        assert(message@ == message_of(paths));
    }
    match index_write(&mut index) {
        Ok(()) => {},
        Err(e) => return Err(backend_error(&e)),
    }
    match index_write_tree(&mut index) {
        Ok(id) => Ok((id, message)),
        Err(e) => Err(backend_error(&e)),
    }
}

} // verus!
