use vstd::prelude::*;

use crate::bytesutil::{append_bytes, bytes_eq, path_join, spec_decimal, u32_decimal};
use crate::errors::Error;
use crate::ns::{is_dot_entry, umount_failure_is_fatal, ExactNS, NSGroup, NSSlot, NSSource};
use crate::osops;
use crate::osops::MountEntry;
use crate::paths::{lit_mnt, spec_lit_mnt, spec_mnt_anchor, spec_private_dir, spec_user_anchor,
    PathState};

verus! {

// ---------------------------------------------------------------------------
// The bootstrap step plans.
//
// The bootstrap itself needs a fork and a two-phase rendezvous between the
// parent and a transient child, which no verified function can perform.
// The decisions — which files to touch, with what contents, in what order —
// are computed here and handed to the runner as explicit step lists.
// ---------------------------------------------------------------------------

/// A step the caller performs before forking.
pub enum PreStep {
    /// Bind-mount the anchor directory onto itself, so its propagation
    /// mode can be changed independently of the rest of the mount table.
    BindMountSelf { path: Vec<u8> },
    /// Set the mount's propagation to private through the raw
    /// mount-attribute syscall.
    MakePrivate { path: Vec<u8> },
    /// Create an empty anchor file.
    CreateAnchor { path: Vec<u8> },
    /// Create the connected pair of handshake endpoints.
    MakeSocketPair,
    /// Fork into parent and child.
    ForkNow,
}

/// A step the transient child performs, in order.
#[derive(Clone, Copy, Debug, PartialEq, Eq, Structural)]
pub enum ChildStep {
    /// Switch real, effective and saved uid to the namespace owner.
    BecomeOwner { uid: u32 },
    /// Re-enable core-dumpability, revoked by the uid switch and needed
    /// for the parent's /proc writes.
    SetDumpable,
    /// Unshare into a new user plus mount namespace.
    UnshareUserMount,
    /// Send the single readiness byte to the parent.
    SignalReady,
    /// Block until the release byte arrives.
    AwaitRelease,
    /// Exit with status zero; the bind mounts now pin the namespaces.
    ExitZero,
}

/// A step the parent performs after forking, in order.
pub enum ParentStep {
    /// Block until the child's readiness byte arrives.
    AwaitReady,
    /// Write `content` to the file at `path`.
    WriteFile { path: Vec<u8>, content: Vec<u8> },
    /// Bind-mount `src` onto `dst`.
    BindMount { src: Vec<u8>, dst: Vec<u8> },
    /// Send the release byte to the child.
    SignalRelease,
}

/// "0 0 4294967295": the full-range identity mapping written to the
/// child's uid and gid maps.
pub open spec fn spec_full_map_line() -> Seq<u8> {
    seq![48u8, 32, 48, 32, 52, 50, 57, 52, 57, 54, 55, 50, 57, 53]
}

/// The full-range identity map line as bytes.
pub fn full_map_line() -> (r: Vec<u8>)
    ensures
        r@ == spec_full_map_line(),
{
    let r = vec![48u8, 32, 48, 32, 52, 50, 57, 52, 57, 54, 55, 50, 57, 53];
    proof {
        assert(r@ =~= spec_full_map_line());
    }
    r
}

/// "/proc/<pid>/uid_map"
pub open spec fn spec_uid_map_path(pid: nat) -> Seq<u8> {
    seq![47u8, 112, 114, 111, 99, 47] + spec_decimal(pid) + seq![47u8, 117, 105, 100, 95, 109, 97,
        112]
}

/// "/proc/<pid>/gid_map"
pub open spec fn spec_gid_map_path(pid: nat) -> Seq<u8> {
    seq![47u8, 112, 114, 111, 99, 47] + spec_decimal(pid) + seq![47u8, 103, 105, 100, 95, 109, 97,
        112]
}

/// Builds "/proc/<pid>/uid_map".
pub fn uid_map_path(pid: u32) -> (r: Vec<u8>)
    ensures
        r@ == spec_uid_map_path(pid as nat),
{
    let mut out: Vec<u8> = vec![47u8, 112, 114, 111, 99, 47];
    let digits = u32_decimal(pid);
    append_bytes(&mut out, &digits);
    let tail = vec![47u8, 117, 105, 100, 95, 109, 97, 112];
    append_bytes(&mut out, &tail);
    proof {
        assert(out@ =~= spec_uid_map_path(pid as nat));
    }
    out
}

/// Builds "/proc/<pid>/gid_map".
pub fn gid_map_path(pid: u32) -> (r: Vec<u8>)
    ensures
        r@ == spec_gid_map_path(pid as nat),
{
    let mut out: Vec<u8> = vec![47u8, 112, 114, 111, 99, 47];
    let digits = u32_decimal(pid);
    append_bytes(&mut out, &digits);
    let tail = vec![47u8, 103, 105, 100, 95, 109, 97, 112];
    append_bytes(&mut out, &tail);
    proof {
        assert(out@ =~= spec_gid_map_path(pid as nat));
    }
    out
}

/// The child's protocol, as a function of the intended namespace owner.
pub open spec fn spec_child_steps(owner: u32) -> Seq<ChildStep> {
    seq![
        ChildStep::BecomeOwner { uid: owner },
        ChildStep::SetDumpable,
        ChildStep::UnshareUserMount,
        ChildStep::SignalReady,
        ChildStep::AwaitRelease,
        ChildStep::ExitZero,
    ]
}

/// The exact step list the transient child must run.
pub fn child_steps(owner: u32) -> (r: Vec<ChildStep>)
    ensures
        r@ == spec_child_steps(owner),
{
    let mut r: Vec<ChildStep> = Vec::new();
    r.push(ChildStep::BecomeOwner { uid: owner });
    r.push(ChildStep::SetDumpable);
    r.push(ChildStep::UnshareUserMount);
    r.push(ChildStep::SignalReady);
    r.push(ChildStep::AwaitRelease);
    r.push(ChildStep::ExitZero);
    proof {
        assert(r@ =~= spec_child_steps(owner));
    }
    r
}

/// Manages one durable, unprivileged user-plus-mount namespace pair,
/// published as bind mounts under the store's bootstrap anchors.
pub struct UserNS<'p>(pub &'p PathState);

impl<'p> UserNS<'p> {
    /// The two bootstrap anchors: the user-namespace file and the
    /// mount-namespace file inside the private directory.
    pub fn paths(&self) -> (r: (Vec<u8>, Vec<u8>))
        ensures
            r.0@ == spec_user_anchor(self.0.state@),
            r.1@ == spec_mnt_anchor(self.0.state@),
    {
        let user = self.0.user();
        let private = self.0.private(false);
        let m = lit_mnt();
        let mnt = path_join(&private, &m);
        (user, mnt)
    }

    /// The steps the caller performs before forking, in order.
    pub fn pre_fork_steps(&self) -> (r: Vec<PreStep>)
        ensures
            r@.len() == 6,
            (r@[0] matches PreStep::BindMountSelf { path } && path@ == spec_private_dir(
                self.0.state@,
            )),
            (r@[1] matches PreStep::MakePrivate { path } && path@ == spec_private_dir(
                self.0.state@,
            )),
            (r@[2] matches PreStep::CreateAnchor { path } && path@ == spec_mnt_anchor(
                self.0.state@,
            )),
            (r@[3] matches PreStep::CreateAnchor { path } && path@ == spec_user_anchor(
                self.0.state@,
            )),
            (r@[4] matches PreStep::MakeSocketPair),
            (r@[5] matches PreStep::ForkNow),
    {
        let (user, mnt) = self.paths();
        let private = self.0.private(false);
        let private2 = self.0.private(false);
        let mut r: Vec<PreStep> = Vec::new();
        r.push(PreStep::BindMountSelf { path: private });
        r.push(PreStep::MakePrivate { path: private2 });
        r.push(PreStep::CreateAnchor { path: mnt });
        r.push(PreStep::CreateAnchor { path: user });
        r.push(PreStep::MakeSocketPair);
        r.push(PreStep::ForkNow);
        r
    }

    /// The steps the parent performs once it knows the child's pid, in
    /// order: wait for readiness, write the full-range uid and gid maps,
    /// bind the child's namespace files onto the durable anchors, then
    /// release the child.
    pub fn parent_steps(&self, child: u32) -> (r: Vec<ParentStep>)
        ensures
            r@.len() == 6,
            (r@[0] matches ParentStep::AwaitReady),
            (r@[1] matches ParentStep::WriteFile { path, content } && path@ == spec_uid_map_path(
                child as nat,
            ) && content@ == spec_full_map_line()),
            (r@[2] matches ParentStep::WriteFile { path, content } && path@ == spec_gid_map_path(
                child as nat,
            ) && content@ == spec_full_map_line()),
            (r@[3] matches ParentStep::BindMount { src, dst } && src@
                == crate::ns::spec_proc_ns_path(
                crate::ns::PidPath::N(child),
                crate::ns::NSKind::User,
            ) && dst@ == spec_user_anchor(self.0.state@)),
            (r@[4] matches ParentStep::BindMount { src, dst } && src@
                == crate::ns::spec_proc_ns_path(
                crate::ns::PidPath::N(child),
                crate::ns::NSKind::Mnt,
            ) && dst@ == spec_mnt_anchor(self.0.state@)),
            (r@[5] matches ParentStep::SignalRelease),
    {
        let (user, mnt) = self.paths();
        let mut r: Vec<ParentStep> = Vec::new();
        r.push(ParentStep::AwaitReady);
        r.push(ParentStep::WriteFile { path: uid_map_path(child), content: full_map_line() });
        r.push(ParentStep::WriteFile { path: gid_map_path(child), content: full_map_line() });
        r.push(ParentStep::BindMount {
            src: crate::ns::proc_ns_path(crate::ns::PidPath::N(child), crate::ns::NSKind::User),
            dst: user,
        });
        r.push(ParentStep::BindMount {
            src: crate::ns::proc_ns_path(crate::ns::PidPath::N(child), crate::ns::NSKind::Mnt),
            dst: mnt,
        });
        r.push(ParentStep::SignalRelease);
        r
    }

    /// Checks the durability invariant cheaply: both anchors must appear
    /// as mount points in the live mount table. The scan compares whole
    /// mount-point fields, deliberately: an anchor counts as present
    /// only when something is mounted exactly on it, never because its
    /// text happens to occur inside another line.
    pub fn exist(&self) -> (r: Result<bool, Error>)
        ensures
            r matches Err(e) ==> e matches Error::Os(_),
    {
        let (user, mnt) = self.paths();
        let entries = match osops::mount_table() {
            Ok(v) => v,
            Err(e) => {
                return Err(Error::Os(e));
            },
        };
        Ok(Self::exist_in(&entries, &user, &mnt))
    }

    /// Both anchor paths occur as mount points among the entries.
    pub open spec fn spec_exist_in(entries: Seq<MountEntry>, user: Seq<u8>, mnt: Seq<u8>) -> bool {
        (exists|i: int| 0 <= i < entries.len() && (#[trigger] entries.index(i)).dest@ == user)
            && (exists|j: int| 0 <= j < entries.len() && (#[trigger] entries.index(j)).dest@ == mnt)
    }

    /// The pure scan behind `exist`: looks for both anchors among the
    /// given mount-table entries.
    pub fn exist_in(entries: &Vec<MountEntry>, user: &Vec<u8>, mnt: &Vec<u8>) -> (r: bool)
        ensures
            r == Self::spec_exist_in(entries@, user@, mnt@),
    {
        let mut ux = false;
        let mut px = false;
        let mut i: usize = 0;
        while i < entries.len()
            invariant
                0 <= i <= entries@.len(),
                ux == (exists|k: int| 0 <= k < i && (#[trigger] entries@.index(k)).dest@ == user@),
                px == (exists|k: int| 0 <= k < i && (#[trigger] entries@.index(k)).dest@ == mnt@),
            decreases entries@.len() - i,
        {
            let e = &entries[i];
            if bytes_eq(&e.dest, user) {
                ux = true;
            }
            if bytes_eq(&e.dest, mnt) {
                px = true;
            }
            i = i + 1;
        }
        ux && px
    }

    /// A bootstrap that completed leaves both anchors standing in the
    /// mount table; on every table in that state the durability check
    /// reports true. The bridge from the bootstrap's success to the
    /// table's state is the kernel's, so it stands here as the premise.
    pub proof fn lemma_exist_after_init(entries: Seq<MountEntry>, user: Seq<u8>, mnt: Seq<u8>)
        requires
            exists|i: int| 0 <= i < entries.len() && (#[trigger] entries.index(i)).dest@ == user,
            exists|j: int| 0 <= j < entries.len() && (#[trigger] entries.index(j)).dest@ == mnt,
        ensures
            Self::spec_exist_in(entries, user, mnt),
    {
    }

    /// A teardown that completed leaves neither anchor in the mount
    /// table; on every table in that state the durability check reports
    /// false. The bridge from the teardown's success to the table's
    /// state is the kernel's, so it stands here as the premise.
    pub proof fn lemma_exist_after_deinit(entries: Seq<MountEntry>, user: Seq<u8>, mnt: Seq<u8>)
        requires
            forall|i: int| 0 <= i < entries.len() ==> (#[trigger] entries.index(i)).dest@ != user,
        ensures
            !Self::spec_exist_in(entries, user, mnt),
    {
    }

    /// Reverses `init`: unmounts and removes both anchors. An unmount of a
    /// target that is not mounted counts as already done, so a second call
    /// in a row succeeds as well.
    pub fn deinit(&self) -> (r: Result<(), Error>)
        ensures
            r matches Err(e) ==> e matches Error::Os(_),
    {
        let (user, mnt) = self.paths();
        let private = self.0.private(false);
        if osops::path_exists(&private) {
            match osops::umount_once(&private) {
                Ok(()) => {
                    // sweep the anchor files left inside, then remove the
                    // directory itself
                    let names = match osops::dir_names(&private) {
                        Ok(v) => v,
                        Err(e) => {
                            return Err(Error::Os(e));
                        },
                    };
                    let mut i: usize = 0;
                    while i < names.len()
                        decreases names@.len() - i,
                    {
                        let name = &names[i];
                        if !is_dot_entry(name) {
                            let p = path_join(&private, name);
                            if let Err(e) = osops::unlink_path(&p) {
                                return Err(Error::Os(e));
                            }
                        }
                        i = i + 1;
                    }
                    if let Err(e) = osops::remove_dir(&private) {
                        return Err(Error::Os(e));
                    }
                },
                Err(e) => {
                    if umount_failure_is_fatal(e) {
                        // fall back to unmounting the mnt anchor itself
                        match osops::umount_once(&mnt) {
                            Ok(()) => {
                                if let Err(e2) = osops::unlink_path(&mnt) {
                                    return Err(Error::Os(e2));
                                }
                            },
                            Err(e2) => {
                                if umount_failure_is_fatal(e2) {
                                    return Err(Error::Os(e2));
                                }
                            },
                        }
                    }
                    // otherwise the parent mount was already gone
                },
            }
        }
        if osops::path_exists(&user) {
            match osops::umount_once(&user) {
                Ok(()) => (),
                Err(e) => {
                    if umount_failure_is_fatal(e) {
                        return Err(Error::Os(e));
                    }
                },
            }
            if let Err(e) = osops::unlink_path(&user) {
                return Err(Error::Os(e));
            }
        }
        Ok(())
    }

    /// Builds a group straight from the two anchor paths, without touching
    /// the mount table: the user and mnt slots are provided, every other
    /// slot stays absent.
    pub fn procns(&self) -> (r: Result<NSGroup, Error>)
        ensures
            match r {
                Ok(g) => {
                    &&& (g.user matches NSSlot::Provided(e) && e.source matches NSSource::Path(b)
                        && b@ == spec_user_anchor(self.0.state@))
                    &&& (g.mnt matches NSSlot::Provided(e) && e.source matches NSSource::Path(b)
                        && b@ == spec_mnt_anchor(self.0.state@))
                    &&& g.net matches NSSlot::Absent
                    &&& g.pid matches NSSlot::Absent
                    &&& g.uts matches NSSlot::Absent
                    &&& g.ipc matches NSSlot::Absent
                    &&& g.cgroup matches NSSlot::Absent
                },
                Err(e) => e matches Error::Os(_),
            },
    {
        let (user, mnt) = self.paths();
        let ue = match ExactNS::from_path(&user) {
            Ok(e) => e,
            Err(e) => {
                return Err(e);
            },
        };
        let me = match ExactNS::from_path(&mnt) {
            Ok(e) => e,
            Err(e) => {
                return Err(e);
            },
        };
        Ok(NSGroup {
            user: NSSlot::Provided(ue),
            mnt: NSSlot::Provided(me),
            net: NSSlot::Absent,
            pid: NSSlot::Absent,
            uts: NSSlot::Absent,
            ipc: NSSlot::Absent,
            cgroup: NSSlot::Absent,
        })
    }
}

} // verus!
