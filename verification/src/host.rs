//! What the bootstrap payload says of the invoking user.

use vstd::prelude::*;
use crate::text::Text;

verus! {

/// The user on whose behalf a container is created. The entrypoint creates a
/// matching user inside the container and drops to it.
#[derive(Debug, Clone)]
pub struct HostUser {
    pub name: String,
    pub uid: u32,
    pub gid: u32,
}

/// Model of a [`HostUser`].
pub struct HostUserSpec {
    pub name: Text,
    pub uid: nat,
    pub gid: nat,
}

impl View for HostUser {
    type V = HostUserSpec;

    open spec fn view(&self) -> HostUserSpec {
        HostUserSpec { name: self.name@, uid: self.uid as nat, gid: self.gid as nat }
    }
}

/// Calls `whoami::username`.
///
/// The answer depends on the machine and on who runs the process, so nothing
/// is claimed of it.
#[verifier::external_body]
pub(crate) fn current_username() -> (name: String) {
    whoami::username()
}

impl HostUser {
    /// The invoking user: the name as the host reports it, with the given
    /// numeric ids.
    pub fn current(uid: u32, gid: u32) -> (user: HostUser)
        ensures
            user.uid == uid,
            user.gid == gid,
    {
        HostUser { name: current_username(), uid, gid }
    }
}

} // verus!
