use vstd::prelude::*;

use crate::bytesutil::{append_bytes, path_join, push_decimal, spec_decimal, spec_path_join};
use crate::errors::Error;

verus! {

// ---------------------------------------------------------------------------
// Literal path fragments.
// ---------------------------------------------------------------------------

/// "/run/user/"
pub open spec fn spec_lit_run_user() -> Seq<u8> {
    seq![47u8, 114, 117, 110, 47, 117, 115, 101, 114, 47]
}

/// "/nsproxy"
pub open spec fn spec_lit_tool_dir() -> Seq<u8> {
    seq![47u8, 110, 115, 112, 114, 111, 120, 121]
}

/// "/var/lib/nsproxy"
pub open spec fn spec_lit_root_state() -> Seq<u8> {
    seq![47u8, 118, 97, 114, 47, 108, 105, 98, 47, 110, 115, 112, 114, 111, 120, 121]
}

/// "binds"
pub open spec fn spec_lit_binds() -> Seq<u8> {
    seq![98u8, 105, 110, 100, 115]
}

/// "private"
pub open spec fn spec_lit_private() -> Seq<u8> {
    seq![112u8, 114, 105, 118, 97, 116, 101]
}

/// "user"
pub open spec fn spec_lit_user() -> Seq<u8> {
    seq![117u8, 115, 101, 114]
}

/// "mnt"
pub open spec fn spec_lit_mnt() -> Seq<u8> {
    seq![109u8, 110, 116]
}

fn lit_binds() -> (r: Vec<u8>)
    ensures
        r@ == spec_lit_binds(),
{
    let r = vec![98u8, 105, 110, 100, 115];
    proof {
        assert(r@ =~= spec_lit_binds());
    }
    r
}

fn lit_private() -> (r: Vec<u8>)
    ensures
        r@ == spec_lit_private(),
{
    let r = vec![112u8, 114, 105, 118, 97, 116, 101];
    proof {
        assert(r@ =~= spec_lit_private());
    }
    r
}

fn lit_user() -> (r: Vec<u8>)
    ensures
        r@ == spec_lit_user(),
{
    let r = vec![117u8, 115, 101, 114];
    proof {
        assert(r@ =~= spec_lit_user());
    }
    r
}

pub fn lit_mnt() -> (r: Vec<u8>)
    ensures
        r@ == spec_lit_mnt(),
{
    let r = vec![109u8, 110, 116];
    proof {
        assert(r@ =~= spec_lit_mnt());
    }
    r
}

// ---------------------------------------------------------------------------
// The persistence store.
// ---------------------------------------------------------------------------

/// Directory layout derived from a state base directory.
pub open spec fn spec_binds_dir(base: Seq<u8>) -> Seq<u8> {
    spec_path_join(base, spec_lit_binds())
}

/// Bind-mount anchor directory of one node.
pub open spec fn spec_node_dir(base: Seq<u8>, id: nat) -> Seq<u8> {
    spec_path_join(spec_binds_dir(base), spec_decimal(id))
}

/// Anchor directory of the user-namespace bootstrap.
pub open spec fn spec_private_dir(base: Seq<u8>) -> Seq<u8> {
    spec_path_join(base, spec_lit_private())
}

/// Bootstrap anchor for the user namespace.
pub open spec fn spec_user_anchor(base: Seq<u8>) -> Seq<u8> {
    spec_path_join(base, spec_lit_user())
}

/// Bootstrap anchor for the mount namespace.
pub open spec fn spec_mnt_anchor(base: Seq<u8>) -> Seq<u8> {
    spec_path_join(spec_private_dir(base), spec_lit_mnt())
}

/// A node's anchor directory is named by the decimal of its id, and bulk
/// teardown parses directory names back to ids: the two agree exactly,
/// so every node written into the store is found again.
pub proof fn lemma_node_dir_name_round_trip(id: u32)
    ensures
        crate::bytesutil::spec_is_digits(spec_decimal(id as nat)),
        crate::bytesutil::spec_digits_val(spec_decimal(id as nat)) == id as nat,
{
    crate::bytesutil::lemma_decimal_digits(id as nat);
}

/// Maps node identifiers to the filesystem locations that serve as
/// bind-mount anchors. Read-only after construction.
pub struct PathState {
    /// State directory of the invoking (non-root) user.
    pub state: Vec<u8>,
    /// State directory used when acting as root.
    pub root_state: Vec<u8>,
}

/// The per-user state base directory: /run/user/<uid>/nsproxy.
pub open spec fn spec_user_state_dir(uid: nat) -> Seq<u8> {
    spec_lit_run_user() + spec_decimal(uid) + spec_lit_tool_dir()
}

impl PathState {
    /// The store for the user with the given uid.
    pub fn default(uid: u32) -> (r: Result<PathState, Error>)
        ensures
            match r {
                Ok(p) => p.state@ == spec_user_state_dir(uid as nat) && p.root_state@
                    == spec_lit_root_state(),
                Err(_) => false,
            },
    {
        let mut state: Vec<u8> = vec![47u8, 114, 117, 110, 47, 117, 115, 101, 114, 47];
        proof {
            assert(state@ =~= spec_lit_run_user());
        }
        push_decimal(uid, &mut state);
        let tail = vec![47u8, 110, 115, 112, 114, 111, 120, 121];
        proof {
            assert(tail@ =~= spec_lit_tool_dir());
        }
        append_bytes(&mut state, &tail);
        let root_state = vec![47u8, 118, 97, 114, 47, 108, 105, 98, 47, 110, 115, 112, 114, 111,
            120, 121];
        proof {
            assert(root_state@ =~= spec_lit_root_state());
        }
        Ok(PathState { state, root_state })
    }

    /// The state base directory selected by the root flag.
    pub fn base(&self, root: bool) -> (r: &Vec<u8>)
        ensures
            r@ == if root {
                self.root_state@
            } else {
                self.state@
            },
    {
        if root {
            &self.root_state
        } else {
            &self.state
        }
    }

    /// The directory that holds one anchor directory per node id.
    pub fn binds(&self, root: bool) -> (r: Vec<u8>)
        ensures
            r@ == spec_binds_dir(if root {
                self.root_state@
            } else {
                self.state@
            }),
    {
        let b = lit_binds();
        path_join(self.base(root), &b)
    }

    /// The bind-mount anchor directory of the given node.
    pub fn mount(&self, id: u32, root: bool) -> (r: Vec<u8>)
        ensures
            r@ == spec_node_dir(
                if root {
                    self.root_state@
                } else {
                    self.state@
                },
                id as nat,
            ),
    {
        let binds = self.binds(root);
        let digits = crate::bytesutil::u32_decimal(id);
        path_join(&binds, &digits)
    }

    /// The bootstrap anchor directory.
    pub fn private(&self, root: bool) -> (r: Vec<u8>)
        ensures
            r@ == spec_private_dir(if root {
                self.root_state@
            } else {
                self.state@
            }),
    {
        let p = lit_private();
        path_join(self.base(root), &p)
    }

    /// The bootstrap anchor file for the user namespace.
    pub fn user(&self) -> (r: Vec<u8>)
        ensures
            r@ == spec_user_anchor(self.state@),
    {
        let u = lit_user();
        path_join(&self.state, &u)
    }
}

} // verus!
