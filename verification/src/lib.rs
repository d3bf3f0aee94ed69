//! A browser-automation driver, verified: a session that owns a focus
//! lock, tabs whose operations run as lock-guarded critical sections
//! against a window-focused backend, and a dialog-tolerant close protocol.
//!
//! The backend's window focus is global, mutable, server-side state, and
//! commands such as navigation or script execution always apply to the
//! focused window — so concurrent callers could race a focus switch in
//! between. The discipline proved here: every focus-dependent operation
//! brackets its (focus, act) pair with the one [`lock::TaskManager`] its
//! session owns, and releases it on every exit path.
//!
//! - [`lock`] — the focus lock, with a machine-checked mutual-exclusion
//!   proof over any number of concurrent callers;
//! - [`backend`] — the backend the protocol assumes, as a model: truthful
//!   window enumeration, handles never reused, deletes a page dialog may
//!   absorb, and transport failures injectable before any command;
//! - [`session`] — session identity, tab enumeration and the open
//!   protocol (claim the initial window once, then blank-window-and-diff);
//! - [`tab`] — the per-window operations and the bounded, dialog-tolerant
//!   close protocol;
//! - [`json`] — the documents on the wire, as plain values, with the
//!   field readers the protocol's responses go through;
//! - [`error`] — one typed failure per way an interaction can go wrong.
//!
//! The unverified shell around the library does what a proof cannot reach
//! — HTTP, process spawning, waiting — and hands every decision to the
//! functions here.
use vstd::prelude::*;

pub mod backend;
pub mod error;
pub mod lock;
pub mod json;
pub mod session;
pub mod tab;

verus! {

/// How a caller-supplied path is to be realised: either taken as it stands,
/// or joined (by the unverified shell) under the running program's directory.
pub enum PathResolution {
    /// The path is used unchanged.
    AsIs(Vec<u8>),
    /// The path, already stripped and normalised, is to be joined under the
    /// directory of the running executable.
    UnderRoot(Vec<u8>),
}

/// The byte that separates path segments in caller input.
pub const SLASH: u8 = 47;

/// The platform separator the backend profile paths are normalised to.
pub const BACKSLASH: u8 = 92;

/// `path` with a single leading `/` or `\` removed, if one is there.
pub open spec fn strip_lead(path: Seq<u8>) -> Seq<u8> {
    if path.len() > 0 && (path[0] == SLASH || path[0] == BACKSLASH) {
        path.skip(1)
    } else {
        path
    }
}

/// `path` with every `/` replaced by `\`.
pub open spec fn to_backslashes(path: Seq<u8>) -> Seq<u8> {
    path.map_values(|b: u8| if b == SLASH { BACKSLASH } else { b })
}

/// What a path starting with `/` becomes relative to the program root:
/// the leading separator goes, and the separators are normalised.
pub open spec fn root_relative_spec(path: Seq<u8>) -> Seq<u8> {
    to_backslashes(strip_lead(path))
}

/// Strips a leading separator and normalises `/` to `\`, byte for byte.
pub fn root_relative(path: &Vec<u8>) -> (r: Vec<u8>)
    ensures
        r@ == root_relative_spec(path@),
{
    let start: usize = if path.len() > 0 && (path[0] == SLASH || path[0] == BACKSLASH) {
        1
    } else {
        0
    };
    let mut out: Vec<u8> = Vec::new();
    let mut i: usize = start;
    proof {
        assert(strip_lead(path@) =~= path@.skip(start as int));
    }
    while i < path.len()
        invariant
            start <= i <= path.len(),
            out@ == to_backslashes(path@.skip(start as int)).take(i - start),
        decreases path.len() - i,
    {
        let b = path[i];
        if b == SLASH {
            out.push(BACKSLASH);
        } else {
            out.push(b);
        }
        i = i + 1;
        proof {
            assert(out@ =~= to_backslashes(path@.skip(start as int)).take(i - start));
        }
    }
    proof {
        assert(to_backslashes(path@.skip(start as int)).take(
            path@.len() - start,
        ) =~= to_backslashes(strip_lead(path@)));
    }
    out
}

/// Decides how a path is realised: a path starting with `/` is resolved
/// under the program root (its separators normalised), any other path is
/// taken as it stands.
pub fn new_path(path: Vec<u8>) -> (r: PathResolution)
    ensures
        path@.len() > 0 && path@[0] == SLASH ==> (r matches PathResolution::UnderRoot(v)
            && v@ == root_relative_spec(path@)),
        !(path@.len() > 0 && path@[0] == SLASH) ==> (r matches PathResolution::AsIs(v)
            && v@ == path@),
{
    if path.len() > 0 && path[0] == SLASH {
        let rel = root_relative(&path);
        PathResolution::UnderRoot(rel)
    } else {
        PathResolution::AsIs(path)
    }
}

} // verus!
