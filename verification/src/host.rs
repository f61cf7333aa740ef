//! What the library asks of the host by itself: the search for a tool and the
//! capacity figures of a mount point. Their answers are taken as they come.

use crate::protocol::{FsStats, Reply, Request};
use vstd::prelude::*;

verus! {

/// `which::which`: looks for an executable named `tool` in the directories of
/// the search path. What it finds depends on the host, so nothing is claimed
/// of the answer.
#[verifier::external_body]
pub(crate) fn on_search_path(tool: &str) -> (found: bool) {
    which::which(tool).is_ok()
}

/// `nix::sys::statvfs::statvfs`: asks the operating system for the capacity
/// figures of the filesystem mounted at `mount_point`; `None` where the call
/// fails. What it returns depends on the host, so nothing is claimed of the
/// answer.
#[verifier::external_body]
pub(crate) fn filesystem_stats(mount_point: &str) -> (stats: Option<FsStats>) {
    match nix::sys::statvfs::statvfs(mount_point) {
        Ok(stat) => Some(
            FsStats {
                fragment_size: stat.fragment_size() as u64,
                blocks: stat.blocks() as u64,
                blocks_free: stat.blocks_free() as u64,
                blocks_available: stat.blocks_available() as u64,
            },
        ),
        Err(_) => None,
    }
}

/// Answers the requests that need no more than a query of the host: the
/// search for a tool and the capacity figures of a mount point. Every other
/// request is left to the caller, which runs the tools, reads the files and
/// sleeps.
pub fn answer(request: &Request) -> (reply: Option<Reply>)
    ensures
        request@ is Locate ==> reply matches Some(Reply::Located(_)),
        request@ is Stat ==> reply matches Some(Reply::Stats(_)),
        !(request@ is Locate || request@ is Stat) ==> reply is None,
{
    match request {
        Request::Locate { tool } => Some(Reply::Located(on_search_path(tool.as_str()))),
        Request::Stat { mount_point } => Some(
            Reply::Stats(filesystem_stats(mount_point.as_str())),
        ),
        _ => None,
    }
}

} // verus!
