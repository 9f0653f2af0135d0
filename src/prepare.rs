use vstd::prelude::*;

verus! {

/// Permission bits given to a local-channel socket when no mode is asked for:
/// write for owner and group, no read, no execute.
pub const DEFAULT_SOCKET_MODE: u32 = 0o222;

/// What binding a local-channel listener does around the bind itself.
#[derive(Clone, Copy, Debug, PartialEq, Eq)]
pub struct UnixBindPlan {
    /// Delete the entry already at the path before binding.
    pub remove_existing: bool,
    /// Permission bits to set on the path once bound.
    pub mode: u32,
}

/// The permission bits for a bound local-channel socket: `mode` if given,
/// else the restrictive default.
pub open spec fn socket_mode_of(mode: Option<u32>) -> u32 {
    match mode {
        Some(m) => m,
        None => DEFAULT_SOCKET_MODE,
    }
}

impl UnixBindPlan {
    /// Decides the steps around binding a local-channel listener: a stale
    /// entry is removed only when asked for and when one exists, and the
    /// permission bits are `mode` or the default.
    pub fn new(remove: bool, path_exists: bool, mode: Option<u32>) -> (r: UnixBindPlan)
        ensures
            r.remove_existing == (remove && path_exists),
            r.mode == socket_mode_of(mode),
    {
        let m = match mode {
            Some(m) => m,
            None => DEFAULT_SOCKET_MODE,
        };
        UnixBindPlan { remove_existing: remove && path_exists, mode: m }
    }
}

} // verus!
