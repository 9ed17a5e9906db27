//! What the FUSE mount helper checks of a mountpoint before mounting on it.
//! Creating the directory, looking at it and mounting are the caller's part.

use vstd::prelude::*;

use crate::text::cat;

verus! {

/// Why a mountpoint cannot be mounted on.
pub enum MountpointProblem {
    Missing,
    NotADirectory,
    NotEmpty,
}

/// A mountpoint must exist, be a directory, and be empty (a directory that
/// cannot be read counts as not empty).
pub open spec fn mountpoint_problem(exists: bool, is_dir: bool, has_entries: bool) -> Option<MountpointProblem> {
    if !exists {
        Some(MountpointProblem::Missing)
    } else if !is_dir {
        Some(MountpointProblem::NotADirectory)
    } else if has_entries {
        Some(MountpointProblem::NotEmpty)
    } else {
        None
    }
}

pub open spec fn problem_message(p: MountpointProblem, path: Seq<char>) -> Seq<char> {
    match p {
        MountpointProblem::Missing => "mountpoint does not exist: "@ + path,
        MountpointProblem::NotADirectory => "mountpoint is not a directory: "@ + path,
        MountpointProblem::NotEmpty => "mountpoint is not empty or is inaccessible: "@ + path,
    }
}

/// Checks the mountpoint at `path`, given what the caller found there.
pub fn check_mountpoint(path: &str, exists: bool, is_dir: bool, has_entries: bool) -> (r: Result<(), (MountpointProblem, String)>)
    ensures
        match (r, mountpoint_problem(exists, is_dir, has_entries)) {
            (Ok(()), None) => true,
            (Err((p, msg)), Some(q)) => p == q && msg@ == problem_message(q, path@),
            _ => false,
        },
{
    if !exists {
        Err((MountpointProblem::Missing, cat(String::from_str("mountpoint does not exist: "), path)))
    } else if !is_dir {
        Err((MountpointProblem::NotADirectory, cat(String::from_str("mountpoint is not a directory: "), path)))
    } else if has_entries {
        Err((MountpointProblem::NotEmpty, cat(String::from_str("mountpoint is not empty or is inaccessible: "), path)))
    } else {
        Ok(())
    }
}

} // verus!
