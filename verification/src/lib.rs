//! Linux network and user namespaces as addressable, persistable
//! objects: identities for kernel namespace instances, bind-mount
//! persistence under a per-node store, the planning side of the
//! unprivileged user-namespace bootstrap, collision-free subnet
//! allocation with deterministic veth naming, and the descriptor
//! hand-off protocol. Syscalls stand behind narrow trusted boundaries;
//! every decision around them is verified.

pub mod bytesutil;
pub mod errors;
pub mod ns;
pub mod osops;
pub mod paths;
pub mod probe;
pub mod sysutil;
pub mod userns;
pub mod veth;

use vstd::prelude::*;

verus! {

/// A node of the object graph that stands for the namespaces this process
/// was started in. On the assumption that the default namespaces do not
/// change across boots, one such node is enough.
pub struct ObjectNode {}

impl ObjectNode {
    /// The default node needs no construction data.
    pub fn this() {
    }
}

} // verus!
