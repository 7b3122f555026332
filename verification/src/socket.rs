//! Local transport addressing: the evidence daemon is reached over a
//! Unix-domain socket whose configured path selects one of two addressing
//! modes — a leading `@` sigil names an abstract-namespace socket (sigil
//! stripped, no filesystem entry), anything else is a filesystem path. The
//! daemon's own startup check on its bind path also lives here.

use vstd::prelude::*;
use crate::kbs::Error;

verus! {

/// Where a configured socket path points.
#[derive(Debug, Clone)]
pub enum SocketAddress {
    /// Abstract-namespace name, the sigil already stripped.
    Abstract(Vec<u8>),
    /// Conventional filesystem path.
    Filesystem(Vec<u8>),
}

/// A path selects the abstract namespace exactly when it starts with `@`.
pub open spec fn spec_is_abstract(path: Seq<u8>) -> bool {
    path.len() > 0 && path[0] == '@' as u8
}

/// Splits a configured socket path into its addressing mode: a leading `@`
/// names an abstract socket on the rest of the path, anything else is a
/// filesystem path taken verbatim.
pub fn parse_socket_path(path: &Vec<u8>) -> (r: SocketAddress)
    ensures
        spec_is_abstract(path@) ==> (r matches SocketAddress::Abstract(n) && n@ == path@.subrange(
            1,
            path@.len() as int,
        )),
        !spec_is_abstract(path@) ==> (r matches SocketAddress::Filesystem(p) && p@ == path@),
{
    if path.len() > 0 && path[0] == '@' as u8 {
        let mut name: Vec<u8> = Vec::new();
        let mut i: usize = 1;
        while i < path.len()
            invariant
                1 <= i <= path.len(),
                name@ == path@.subrange(1, i as int),
            decreases path.len() - i,
        {
            name.push(path[i]);
            i = i + 1;
            proof {
                assert(name@ =~= path@.subrange(1, i as int));
            }
        }
        SocketAddress::Abstract(name)
    } else {
        SocketAddress::Filesystem(path.clone())
    }
}

/// The directory part of a socket path: the bytes before the last slash.
/// `None` when the path has no slash at all.
pub open spec fn spec_parent(path: Seq<u8>) -> Option<Seq<u8>>
    decreases path.len(),
{
    if path.len() == 0 {
        None
    } else if path.last() == '/' as u8 {
        Some(path.drop_last())
    } else {
        spec_parent(path.drop_last())
    }
}

/// The directory a daemon socket path lives in: the bytes before the last
/// slash (empty for a path directly under the root), or `None` for a bare
/// name with no directory part.
pub fn socket_parent(path: &Vec<u8>) -> (r: Option<Vec<u8>>)
    ensures
        match r {
            Some(p) => spec_parent(path@) == Some(p@),
            None => spec_parent(path@) is None,
        },
{
    let mut i: usize = path.len();
    proof {
        assert(path@.subrange(0, path@.len() as int) =~= path@);
    }
    while i > 0
        invariant
            i <= path.len(),
            spec_parent(path@) == spec_parent(path@.subrange(0, i as int)),
        decreases i,
    {
        proof {
            assert(path@.subrange(0, i as int).last() == path@[i - 1]);
            assert(path@.subrange(0, i as int).drop_last() =~= path@.subrange(0, i - 1));
        }
        if path[i - 1] == '/' as u8 {
            let mut p: Vec<u8> = Vec::new();
            let mut j: usize = 0;
            while j < i - 1
                invariant
                    j <= i - 1,
                    i <= path.len(),
                    p@ == path@.subrange(0, j as int),
                decreases i - j,
            {
                p.push(path[j]);
                j = j + 1;
                proof {
                    assert(p@ =~= path@.subrange(0, j as int));
                }
            }
            return Some(p);
        }
        i = i - 1;
    }
    proof {
        assert(path@.subrange(0, 0) =~= Seq::<u8>::empty());
    }
    None
}

/// The daemon's startup gate: it refuses to bind when the socket path's
/// directory does not exist, before any listen is attempted. The stale-file
/// removal that follows a passed gate is best-effort and outside this check.
pub fn bind_precheck(parent_exists: bool) -> (r: Result<(), Error>)
    ensures
        r is Ok <==> parent_exists,
        !parent_exists ==> (r matches Err(e) && e is DaemonStart),
{
    if parent_exists {
        Ok(())
    } else {
        Err(Error::DaemonStart)
    }
}

} // verus!
