//! The single-instance coordinator's logic: the request to open paths that a
//! launcher forwards to the running backend.

use vstd::prelude::*;
use crate::envelope::{ProxyNotification, RpcMessage};

verus! {

/// What a path names on disk.
#[derive(Clone, Copy, Debug, PartialEq, Eq, Structural)]
pub enum PathKind {
    Directory,
    File,
    /// Neither a directory nor a regular file (or nothing at all).
    Other,
}

/// A path with what it names.
#[derive(Clone, Debug, PartialEq, Eq)]
pub struct PathEntry {
    pub path: String,
    pub kind: PathKind,
}

/// The paths of `s` that name a `kind`, in order.
pub open spec fn paths_of_kind(s: Seq<PathEntry>, kind: PathKind) -> Seq<String>
    decreases s.len(),
{
    if s.len() == 0 {
        Seq::empty()
    } else {
        let rest = paths_of_kind(s.drop_last(), kind);
        if s.last().kind == kind {
            rest.push(s.last().path)
        } else {
            rest
        }
    }
}

/// Partitions paths into folders and files, in order; a path that names
/// neither is dropped.
pub fn partition_paths(paths: &Vec<PathEntry>) -> (r: (Vec<String>, Vec<String>))
    ensures
        r.0@ == paths_of_kind(paths@, PathKind::Directory),
        r.1@ == paths_of_kind(paths@, PathKind::File),
{
    let mut folders: Vec<String> = Vec::new();
    let mut files: Vec<String> = Vec::new();
    let mut i: usize = 0;
    while i < paths.len()
        invariant
            i <= paths@.len(),
            folders@ == paths_of_kind(paths@.subrange(0, i as int), PathKind::Directory),
            files@ == paths_of_kind(paths@.subrange(0, i as int), PathKind::File),
        decreases paths@.len() - i,
    {
        assert(paths@.subrange(0, i as int + 1).drop_last() =~= paths@.subrange(0, i as int));
        let entry = &paths[i];
        match entry.kind {
            PathKind::Directory => folders.push(entry.path.clone()),
            PathKind::File => files.push(entry.path.clone()),
            PathKind::Other => {},
        }
        i = i + 1;
    }
    assert(paths@.subrange(0, i as int) =~= paths@);
    (folders, files)
}

/// The one envelope a launcher sends to the running backend: a notification
/// to open the given paths, partitioned into folders and files.
pub fn open_paths_message<Q, N, R>(paths: &Vec<PathEntry>) -> (r: RpcMessage<
    Q,
    ProxyNotification<N>,
    R,
>)
    ensures
        r matches RpcMessage::Notification(ProxyNotification::OpenPaths { folders, files }) && folders@
            == paths_of_kind(paths@, PathKind::Directory) && files@ == paths_of_kind(
            paths@,
            PathKind::File,
        ),
{
    let (folders, files) = partition_paths(paths);
    RpcMessage::Notification(ProxyNotification::OpenPaths { folders, files })
}

} // verus!
