use vstd::prelude::*;

use crate::bytesutil::{append_bytes, bytes_eq, clone_bytes, contains_byte, has_prefix, parse_u32,
    path_join, spec_contains_byte, spec_decimal, spec_has_prefix, spec_path_join, suffix_from,
    u32_decimal};
use crate::errors::{Error, ERRNO_NOT_DIR, ERRNO_NOT_MOUNTED};
use crate::osops;
use crate::osops::MountEntry;
use crate::paths::{spec_node_dir, PathState};

verus! {

// ---------------------------------------------------------------------------
// Namespace kinds.
// ---------------------------------------------------------------------------

/// The closed set of kernel namespace kinds one node can hold.
#[derive(Clone, Copy, Debug, PartialEq, Eq, Structural)]
pub enum NSKind {
    User,
    Mnt,
    Net,
    Pid,
    Uts,
    Ipc,
    Cgroup,
}

/// The file name each namespace kind has under /proc/<pid>/ns.
pub open spec fn spec_kind_name(k: NSKind) -> Seq<u8> {
    match k {
        NSKind::User => seq![117u8, 115, 101, 114],
        NSKind::Mnt => seq![109u8, 110, 116],
        NSKind::Net => seq![110u8, 101, 116],
        NSKind::Pid => seq![112u8, 105, 100],
        NSKind::Uts => seq![117u8, 116, 115],
        NSKind::Ipc => seq![105u8, 112, 99],
        NSKind::Cgroup => seq![99u8, 103, 114, 111, 117, 112],
    }
}

/// The file name of a namespace kind as a byte vector.
pub fn kind_name(k: NSKind) -> (r: Vec<u8>)
    ensures
        r@ == spec_kind_name(k),
{
    let r = match k {
        NSKind::User => vec![117u8, 115, 101, 114],
        NSKind::Mnt => vec![109u8, 110, 116],
        NSKind::Net => vec![110u8, 101, 116],
        NSKind::Pid => vec![112u8, 105, 100],
        NSKind::Uts => vec![117u8, 116, 115],
        NSKind::Ipc => vec![105u8, 112, 99],
        NSKind::Cgroup => vec![99u8, 103, 114, 111, 117, 112],
    };
    proof {
        assert(r@ =~= spec_kind_name(k));
    }
    r
}

/// The kind whose file name is `s`, if any.
pub open spec fn spec_kind_of_name(s: Seq<u8>) -> Option<NSKind> {
    if s == spec_kind_name(NSKind::User) {
        Some(NSKind::User)
    } else if s == spec_kind_name(NSKind::Mnt) {
        Some(NSKind::Mnt)
    } else if s == spec_kind_name(NSKind::Net) {
        Some(NSKind::Net)
    } else if s == spec_kind_name(NSKind::Pid) {
        Some(NSKind::Pid)
    } else if s == spec_kind_name(NSKind::Uts) {
        Some(NSKind::Uts)
    } else if s == spec_kind_name(NSKind::Ipc) {
        Some(NSKind::Ipc)
    } else if s == spec_kind_name(NSKind::Cgroup) {
        Some(NSKind::Cgroup)
    } else {
        None
    }
}

/// Looks a kind up by its file name.
pub fn kind_of_name(s: &Vec<u8>) -> (r: Option<NSKind>)
    ensures
        r == spec_kind_of_name(s@),
{
    if bytes_eq(s, &kind_name(NSKind::User)) {
        Some(NSKind::User)
    } else if bytes_eq(s, &kind_name(NSKind::Mnt)) {
        Some(NSKind::Mnt)
    } else if bytes_eq(s, &kind_name(NSKind::Net)) {
        Some(NSKind::Net)
    } else if bytes_eq(s, &kind_name(NSKind::Pid)) {
        Some(NSKind::Pid)
    } else if bytes_eq(s, &kind_name(NSKind::Uts)) {
        Some(NSKind::Uts)
    } else if bytes_eq(s, &kind_name(NSKind::Ipc)) {
        Some(NSKind::Ipc)
    } else if bytes_eq(s, &kind_name(NSKind::Cgroup)) {
        Some(NSKind::Cgroup)
    } else {
        None
    }
}

/// A kind's file name is recovered to the kind itself.
pub proof fn lemma_kind_name_round_trip(k: NSKind)
    ensures
        spec_kind_of_name(spec_kind_name(k)) == Some(k),
{
    assert(spec_kind_name(NSKind::User).len() == 4);
    assert(spec_kind_name(NSKind::Mnt).len() == 3);
    assert(spec_kind_name(NSKind::Net).len() == 3);
    assert(spec_kind_name(NSKind::Pid).len() == 3);
    assert(spec_kind_name(NSKind::Uts).len() == 3);
    assert(spec_kind_name(NSKind::Ipc).len() == 3);
    assert(spec_kind_name(NSKind::Cgroup).len() == 6);
    assert(spec_kind_name(NSKind::Mnt)[0] == 109);
    assert(spec_kind_name(NSKind::Net)[0] == 110);
    assert(spec_kind_name(NSKind::Pid)[0] == 112);
    assert(spec_kind_name(NSKind::Uts)[0] == 117);
    assert(spec_kind_name(NSKind::Ipc)[0] == 105);
}

/// No kind's file name holds a slash.
pub proof fn lemma_kind_name_no_slash(k: NSKind)
    ensures
        !spec_contains_byte(spec_kind_name(k), 47),
{
    let s = spec_kind_name(k);
    assert forall|i: int| 0 <= i < s.len() implies s[i] != 47 by {
        match k {
            NSKind::User => {
                assert(s[0] == 117 && s[1] == 115 && s[2] == 101 && s[3] == 114);
            },
            NSKind::Mnt => {
                assert(s[0] == 109 && s[1] == 110 && s[2] == 116);
            },
            NSKind::Net => {
                assert(s[0] == 110 && s[1] == 101 && s[2] == 116);
            },
            NSKind::Pid => {
                assert(s[0] == 112 && s[1] == 105 && s[2] == 100);
            },
            NSKind::Uts => {
                assert(s[0] == 117 && s[1] == 116 && s[2] == 115);
            },
            NSKind::Ipc => {
                assert(s[0] == 105 && s[1] == 112 && s[2] == 99);
            },
            NSKind::Cgroup => {
                assert(s[0] == 99 && s[1] == 103 && s[2] == 114 && s[3] == 111 && s[4] == 117
                    && s[5] == 112);
            },
        }
    }
}

// ---------------------------------------------------------------------------
// Namespace identity.
// ---------------------------------------------------------------------------

/// How a process is named when resolving /proc/<pid>/ns/<kind>.
#[derive(Clone, Copy, Debug, PartialEq, Eq, Structural)]
pub enum PidPath {
    /// The calling process itself, spelled "self".
    Selfproc,
    /// A concrete process id.
    N(u32),
}

/// The path fragment a PidPath contributes under /proc.
pub open spec fn spec_pid_bytes(p: PidPath) -> Seq<u8> {
    match p {
        PidPath::Selfproc => seq![115u8, 101, 108, 102],
        PidPath::N(n) => spec_decimal(n as nat),
    }
}

/// The path fragment of a PidPath as bytes.
pub fn pid_bytes(p: PidPath) -> (r: Vec<u8>)
    ensures
        r@ == spec_pid_bytes(p),
{
    match p {
        PidPath::Selfproc => {
            let r = vec![115u8, 101, 108, 102];
            proof {
                assert(r@ =~= spec_pid_bytes(p));
            }
            r
        },
        PidPath::N(n) => u32_decimal(n),
    }
}

/// "/proc/<pid>/ns/<kind>"
pub open spec fn spec_proc_ns_path(p: PidPath, k: NSKind) -> Seq<u8> {
    seq![47u8, 112, 114, 111, 99, 47] + spec_pid_bytes(p) + seq![47u8, 110, 115, 47]
        + spec_kind_name(k)
}

/// Builds the /proc path of one namespace file.
pub fn proc_ns_path(p: PidPath, k: NSKind) -> (r: Vec<u8>)
    ensures
        r@ == spec_proc_ns_path(p, k),
{
    let mut out: Vec<u8> = vec![47u8, 112, 114, 111, 99, 47];
    let pidb = pid_bytes(p);
    append_bytes(&mut out, &pidb);
    let mid = vec![47u8, 110, 115, 47];
    append_bytes(&mut out, &mid);
    let kn = kind_name(k);
    append_bytes(&mut out, &kn);
    proof {
        assert(out@ =~= spec_proc_ns_path(p, k));
    }
    out
}

/// Where a namespace can be reached: a bind-mounted file, a live process,
/// or nowhere.
#[derive(Debug)]
pub enum NSSource {
    Path(Vec<u8>),
    Pid(PidPath),
    Unavail,
}

/// The device and inode pair that identifies one kernel namespace object.
#[derive(Clone, Copy, Debug, PartialEq, Eq, Structural)]
pub struct UniqueFile {
    pub dev: u64,
    pub ino: u64,
}

/// A namespace's enduring identity: how it was reached, and the kernel
/// object key. Two values with equal `unique` denote the same namespace
/// however each was reached.
#[derive(Debug)]
pub struct ExactNS {
    pub source: NSSource,
    pub unique: UniqueFile,
}

impl ExactNS {
    /// Identity of the namespace bind-mounted (or otherwise present) at a
    /// path; the `stat` result supplies the unique key.
    pub fn from_path(p: &Vec<u8>) -> (r: Result<ExactNS, Error>)
        ensures
            match r {
                Ok(e) => e.source matches NSSource::Path(b) && b@ == p@,
                Err(e) => e matches Error::Os(_),
            },
    {
        match osops::stat_path(p) {
            Ok((dev, ino)) => Ok(ExactNS {
                source: NSSource::Path(clone_bytes(p)),
                unique: UniqueFile { dev, ino },
            }),
            Err(e) => Err(Error::Os(e)),
        }
    }

    /// Identity of one namespace of a live process.
    pub fn from_pid(pid: PidPath, kind: NSKind) -> (r: Result<ExactNS, Error>)
        ensures
            match r {
                Ok(e) => e.source matches NSSource::Pid(q) && q == pid,
                Err(e) => e matches Error::Os(_),
            },
    {
        let path = proc_ns_path(pid, kind);
        match osops::stat_path(&path) {
            Ok((dev, ino)) => Ok(ExactNS { source: NSSource::Pid(pid), unique: UniqueFile {
                dev,
                ino,
            } }),
            Err(e) => Err(Error::Os(e)),
        }
    }
}

// ---------------------------------------------------------------------------
// Slots and groups.
// ---------------------------------------------------------------------------

/// One per-kind slot of a namespace group. The kind-specific auxiliary
/// state such a slot once carried beside the identity held values of
/// outside crates; it is modeled away here, and the slot holds the
/// identity alone.
#[derive(Debug)]
pub enum NSSlot {
    Absent,
    Provided(ExactNS),
}

/// "/proc/<pid>/ns/<kind>" bind-mounted at "<node_dir>/<kind>".
pub open spec fn spec_ns_file_path(node_dir: Seq<u8>, k: NSKind) -> Seq<u8> {
    spec_path_join(node_dir, spec_kind_name(k))
}

/// Resolves one namespace of a process, captures its identity, and — only
/// when `really` is set — creates the anchor file under `node_dir` and
/// bind-mounts the namespace file onto it. With `really` false no side
/// effect is made, so an identity can be computed for lookup alone.
pub fn mount_single(pid: PidPath, node_dir: &Vec<u8>, really: bool, kind: NSKind) -> (r: Result<
    ExactNS,
    Error,
>)
    ensures
        match r {
            Ok(e) => e.source matches NSSource::Path(b) && b@ == spec_ns_file_path(node_dir@, kind),
            Err(e) => e matches Error::Os(_),
        },
{
    let path = proc_ns_path(pid, kind);
    let st = match osops::stat_path(&path) {
        Ok(st) => st,
        Err(e) => {
            return Err(Error::Os(e));
        },
    };
    let kn = kind_name(kind);
    let bindat = path_join(node_dir, &kn);
    if really {
        if let Err(e) = osops::create_file(&bindat) {
            return Err(Error::Os(e));
        }
        if let Err(e) = osops::bind_mount(&path, &bindat) {
            return Err(Error::Os(e));
        }
    }
    Ok(ExactNS { source: NSSource::Path(bindat), unique: UniqueFile { dev: st.0, ino: st.1 } })
}

impl NSSlot {
    /// Mounts one namespace of a process into a `Provided` slot.
    pub fn mount(pid: PidPath, node_dir: &Vec<u8>, really: bool, kind: NSKind) -> (r: Result<
        NSSlot,
        Error,
    >)
        ensures
            match r {
                Ok(s) => s matches NSSlot::Provided(e) && e.source matches NSSource::Path(b) && b@
                    == spec_ns_file_path(node_dir@, kind),
                Err(e) => e matches Error::Os(_),
            },
    {
        match mount_single(pid, node_dir, really, kind) {
            Ok(e) => Ok(NSSlot::Provided(e)),
            Err(e) => Err(e),
        }
    }

    /// Replaces the held identity's source in place; a no-op when absent.
    pub fn source(self, replace: NSSource) -> (r: Self)
        ensures
            (self matches NSSlot::Absent ==> r matches NSSlot::Absent),
            (self matches NSSlot::Provided(e) ==> r matches NSSlot::Provided(e2) && e2.source
                == replace && e2.unique == e.unique),
    {
        match self {
            NSSlot::Absent => NSSlot::Absent,
            NSSlot::Provided(mut n) => {
                n.source = replace;
                NSSlot::Provided(n)
            },
        }
    }

    /// True when no namespace of this kind is known.
    pub fn absent(&self) -> (r: bool)
        ensures
            r == (self matches NSSlot::Absent),
    {
        match self {
            NSSlot::Absent => true,
            NSSlot::Provided(_) => false,
        }
    }
}

/// One slot per namespace kind: everything known of one logical node.
#[derive(Debug)]
pub struct NSGroup {
    pub user: NSSlot,
    pub mnt: NSSlot,
    pub net: NSSlot,
    pub pid: NSSlot,
    pub uts: NSSlot,
    pub ipc: NSSlot,
    pub cgroup: NSSlot,
}

/// The slot a group holds for a kind.
pub open spec fn spec_slot(g: NSGroup, k: NSKind) -> NSSlot {
    match k {
        NSKind::User => g.user,
        NSKind::Mnt => g.mnt,
        NSKind::Net => g.net,
        NSKind::Pid => g.pid,
        NSKind::Uts => g.uts,
        NSKind::Ipc => g.ipc,
        NSKind::Cgroup => g.cgroup,
    }
}

/// Every slot of the group is absent.
pub open spec fn spec_group_all_absent(g: NSGroup) -> bool {
    &&& g.user matches NSSlot::Absent
    &&& g.mnt matches NSSlot::Absent
    &&& g.net matches NSSlot::Absent
    &&& g.pid matches NSSlot::Absent
    &&& g.uts matches NSSlot::Absent
    &&& g.ipc matches NSSlot::Absent
    &&& g.cgroup matches NSSlot::Absent
}

impl Default for NSGroup {
    /// A group with every slot absent.
    fn default() -> (r: Self)
        ensures
            spec_group_all_absent(r),
    {
        NSGroup {
            user: NSSlot::Absent,
            mnt: NSSlot::Absent,
            net: NSSlot::Absent,
            pid: NSSlot::Absent,
            uts: NSSlot::Absent,
            ipc: NSSlot::Absent,
            cgroup: NSSlot::Absent,
        }
    }
}

impl NSGroup {
    /// Stores `slot` for `kind`, leaving every other kind unchanged.
    pub fn set_slot(&mut self, kind: NSKind, slot: NSSlot)
        ensures
            spec_slot(*final(self), kind) == slot,
            forall|k2: NSKind| k2 != kind ==> spec_slot(*final(self), k2) == spec_slot(
                *old(self),
                k2,
            ),
    {
        match kind {
            NSKind::User => {
                self.user = slot;
            },
            NSKind::Mnt => {
                self.mnt = slot;
            },
            NSKind::Net => {
                self.net = slot;
            },
            NSKind::Pid => {
                self.pid = slot;
            },
            NSKind::Uts => {
                self.uts = slot;
            },
            NSKind::Ipc => {
                self.ipc = slot;
            },
            NSKind::Cgroup => {
                self.cgroup = slot;
            },
        }
    }

    /// The canonical identity used to deduplicate nodes: the network
    /// namespace of the given process.
    pub fn key_ident(pid: PidPath) -> (r: Result<ExactNS, Error>)
        ensures
            match r {
                Ok(e) => e.source matches NSSource::Pid(q) && q == pid,
                Err(e) => e matches Error::Os(_),
            },
    {
        ExactNS::from_pid(pid, NSKind::Net)
    }
}

// ---------------------------------------------------------------------------
// Discovery from the live mount table.
// ---------------------------------------------------------------------------

/// "nsfs"
pub open spec fn spec_lit_nsfs() -> Seq<u8> {
    seq![110u8, 115, 102, 115]
}

fn lit_nsfs() -> (r: Vec<u8>)
    ensures
        r@ == spec_lit_nsfs(),
{
    let r = vec![110u8, 115, 102, 115];
    proof {
        assert(r@ =~= spec_lit_nsfs());
    }
    r
}

/// What one mount-table line contributes to a node's group: nothing (not
/// an nsfs mount whose source lies directly under `node_dir`), one
/// kind's slot, or a malformed entry — an nsfs mount under the directory
/// whose remainder is nested or no known kind name. A malformed entry
/// indicates on-disk corruption, and discovery treats it as fatal.
#[derive(Clone, Copy, Debug, PartialEq, Eq, Structural)]
pub enum EntryClass {
    Irrelevant,
    Kind(NSKind),
    Malformed,
}

/// The class of one mount-table line with the given source and fstype.
pub open spec fn spec_classify_entry(source: Seq<u8>, fstype: Seq<u8>, node_dir: Seq<u8>)
    -> EntryClass {
    let pre = node_dir + seq![47u8];
    if fstype == spec_lit_nsfs() && spec_has_prefix(source, pre) {
        let rest = source.subrange(pre.len() as int, source.len() as int);
        if spec_contains_byte(rest, 47) {
            EntryClass::Malformed
        } else {
            match spec_kind_of_name(rest) {
                Some(k) => EntryClass::Kind(k),
                None => EntryClass::Malformed,
            }
        }
    } else {
        EntryClass::Irrelevant
    }
}

/// The class of a mount-table entry value.
pub open spec fn spec_entry_class(e: MountEntry, node_dir: Seq<u8>) -> EntryClass {
    spec_classify_entry(e.source@, e.fstype@, node_dir)
}

/// Decides what one mount-table line contributes to a node's group.
pub fn classify_entry(source: &Vec<u8>, fstype: &Vec<u8>, node_dir: &Vec<u8>) -> (r: EntryClass)
    ensures
        r == spec_classify_entry(source@, fstype@, node_dir@),
{
    let mut pre = clone_bytes(node_dir);
    pre.push(47);
    proof {
        assert(pre@ =~= node_dir@ + seq![47u8]);
    }
    let nsfs = lit_nsfs();
    if !bytes_eq(fstype, &nsfs) {
        return EntryClass::Irrelevant;
    }
    if !has_prefix(source, &pre) {
        return EntryClass::Irrelevant;
    }
    let rest = suffix_from(source, pre.len());
    if contains_byte(&rest, 47) {
        return EntryClass::Malformed;
    }
    match kind_of_name(&rest) {
        Some(k) => EntryClass::Kind(k),
        None => EntryClass::Malformed,
    }
}

/// A path written by `mount_single` under a node's anchor directory is
/// recovered to exactly the kind it was mounted for.
pub proof fn lemma_mounted_path_round_trip(node_dir: Seq<u8>, k: NSKind)
    ensures
        spec_classify_entry(spec_ns_file_path(node_dir, k), spec_lit_nsfs(), node_dir)
            == EntryClass::Kind(k),
{
    let pre = node_dir + seq![47u8];
    let source = spec_ns_file_path(node_dir, k);
    assert(source =~= pre + spec_kind_name(k));
    assert(spec_has_prefix(source, pre)) by {
        assert(source.subrange(0, pre.len() as int) =~= pre);
    }
    let rest = source.subrange(pre.len() as int, source.len() as int);
    assert(rest =~= spec_kind_name(k));
    lemma_kind_name_no_slash(k);
    lemma_kind_name_round_trip(k);
}

/// Classification inverted: an entry that classifies to kind `k` has as
/// its source exactly the path `mount_single` writes for `k`.
pub proof fn lemma_classified_source(source: Seq<u8>, fstype: Seq<u8>, node_dir: Seq<u8>, k: NSKind)
    requires
        spec_classify_entry(source, fstype, node_dir) == EntryClass::Kind(k),
    ensures
        source == spec_ns_file_path(node_dir, k),
{
    let pre = node_dir + seq![47u8];
    let rest = source.subrange(pre.len() as int, source.len() as int);
    assert(rest == spec_kind_name(k));
    assert(source =~= source.subrange(0, pre.len() as int) + rest);
    assert(spec_ns_file_path(node_dir, k) =~= pre + spec_kind_name(k));
}

/// Index of the last entry before `i` that classifies to kind `k`.
pub open spec fn spec_last_match(entries: Seq<MountEntry>, node_dir: Seq<u8>, k: NSKind, i: int)
    -> Option<int>
    decreases i,
{
    if i <= 0 {
        None
    } else if spec_entry_class(entries[i - 1], node_dir) == EntryClass::Kind(k) {
        Some(i - 1)
    } else {
        spec_last_match(entries, node_dir, k, i - 1)
    }
}

/// The last matching entry indeed classifies to its kind.
proof fn lemma_last_match_classifies(
    entries: Seq<MountEntry>,
    node_dir: Seq<u8>,
    k: NSKind,
    i: int,
    j: int,
)
    requires
        spec_last_match(entries, node_dir, k, i) == Some(j),
    ensures
        0 <= j < i,
        spec_entry_class(entries[j], node_dir) == EntryClass::Kind(k),
    decreases i,
{
    if i <= 0 {
    } else if spec_entry_class(entries[i - 1], node_dir) == EntryClass::Kind(k) {
    } else {
        lemma_last_match_classifies(entries, node_dir, k, i - 1, j);
    }
}

impl NSGroup {
    /// The pure assembly behind discovery: folds mount-table entries into
    /// at most one group for the node whose anchor directory is
    /// `node_dir`. For each kind, the slot comes back provided exactly
    /// when some entry classifies to that kind, and holds the last such
    /// entry's source path (last write wins); a malformed nsfs entry
    /// under the directory is fatal. The `stat` of each chosen source
    /// supplies the unique keys, of which nothing further can be said.
    pub fn from_entries(entries: &Vec<MountEntry>, node_dir: &Vec<u8>) -> (r: Result<
        Option<NSGroup>,
        Error,
    >)
        ensures
            match r {
                Ok(og) => {
                    &&& ((og is Some) <==> exists|k: NSKind| (#[trigger] spec_last_match(
                        entries@,
                        node_dir@,
                        k,
                        entries@.len() as int,
                    )) is Some)
                    &&& (og matches Some(g) ==> forall|k: NSKind| match (#[trigger] spec_last_match(
                        entries@,
                        node_dir@,
                        k,
                        entries@.len() as int,
                    )) {
                        Some(j) => spec_slot(g, k) matches NSSlot::Provided(e) && e.source matches
                            NSSource::Path(b) && b@ == entries@[j].source@,
                        None => spec_slot(g, k) matches NSSlot::Absent,
                    })
                    &&& (forall|t: int| 0 <= t < entries@.len() ==> spec_entry_class(
                        #[trigger] entries@[t],
                        node_dir@,
                    ) != EntryClass::Malformed)
                },
                Err(e) => e matches Error::Os(_) || e == Error::Parse,
            },
    {
        let mut acc: Option<NSGroup> = None;
        let mut i: usize = 0;
        while i < entries.len()
            invariant
                0 <= i <= entries@.len(),
                forall|t: int| 0 <= t < i ==> spec_entry_class(#[trigger] entries@[t], node_dir@)
                    != EntryClass::Malformed,
                (acc is Some) <==> exists|k: NSKind| (#[trigger] spec_last_match(
                    entries@,
                    node_dir@,
                    k,
                    i as int,
                )) is Some,
                acc matches Some(g) ==> forall|k: NSKind| match (#[trigger] spec_last_match(
                    entries@,
                    node_dir@,
                    k,
                    i as int,
                )) {
                    Some(j) => spec_slot(g, k) matches NSSlot::Provided(e) && e.source matches
                        NSSource::Path(b) && b@ == entries@[j].source@,
                    None => spec_slot(g, k) matches NSSlot::Absent,
                },
            decreases entries@.len() - i,
        {
            let entry = &entries[i];
            let class = classify_entry(&entry.source, &entry.fstype, node_dir);
            proof {
                assert(spec_entry_class(entries@[i as int], node_dir@) == class);
            }
            match class {
                EntryClass::Malformed => {
                    return Err(Error::Parse);
                },
                EntryClass::Irrelevant => {
                    proof {
                        assert forall|k: NSKind| (#[trigger] spec_last_match(
                            entries@,
                            node_dir@,
                            k,
                            i as int + 1,
                        )) == spec_last_match(entries@, node_dir@, k, i as int) by {
                            assert(spec_entry_class(entries@[i as int], node_dir@)
                                != EntryClass::Kind(k));
                        }
                        if acc is Some {
                            let k0 = choose|k: NSKind| (#[trigger] spec_last_match(
                                entries@,
                                node_dir@,
                                k,
                                i as int,
                            )) is Some;
                            assert(spec_last_match(entries@, node_dir@, k0, i as int + 1)
                                is Some);
                        }
                        if exists|k: NSKind| (#[trigger] spec_last_match(
                            entries@,
                            node_dir@,
                            k,
                            i as int + 1,
                        )) is Some {
                            let k1 = choose|k: NSKind| (#[trigger] spec_last_match(
                                entries@,
                                node_dir@,
                                k,
                                i as int + 1,
                            )) is Some;
                            assert(spec_last_match(entries@, node_dir@, k1, i as int) is Some);
                        }
                    }
                },
                EntryClass::Kind(kind) => {
                    let e = match ExactNS::from_path(&entry.source) {
                        Ok(e) => e,
                        Err(err) => {
                            return Err(err);
                        },
                    };
                    let ghost acc_was = acc;
                    let mut g = if let Some(g0) = acc {
                        g0
                    } else {
                        NSGroup::default()
                    };
                    let ghost g_was = g;
                    g.set_slot(kind, NSSlot::Provided(e));
                    proof {
                        assert(spec_last_match(entries@, node_dir@, kind, i as int + 1) == Some(
                            i as int,
                        ));
                        assert forall|k: NSKind| match (#[trigger] spec_last_match(
                            entries@,
                            node_dir@,
                            k,
                            i as int + 1,
                        )) {
                            Some(j) => spec_slot(g, k) matches NSSlot::Provided(e2) && e2.source
                                matches NSSource::Path(b) && b@ == entries@[j].source@,
                            None => spec_slot(g, k) matches NSSlot::Absent,
                        } by {
                            if k == kind {
                                assert(spec_slot(g, kind) == NSSlot::Provided(e));
                            } else {
                                assert(spec_entry_class(entries@[i as int], node_dir@)
                                    != EntryClass::Kind(k));
                                assert(spec_last_match(entries@, node_dir@, k, i as int + 1)
                                    == spec_last_match(entries@, node_dir@, k, i as int));
                                assert(spec_slot(g, k) == spec_slot(g_was, k));
                                if acc_was is None {
                                    assert(spec_last_match(entries@, node_dir@, k, i as int)
                                        is None);
                                }
                            }
                        }
                    }
                    acc = Some(g);
                },
            }
            i = i + 1;
        }
        match acc {
            Some(g) => Ok(Some(g)),
            None => Ok(None),
        }
    }

    /// Rebuilds the per-node groups from the live mount table, through
    /// `from_entries`. Only the given node's anchor directory is scanned
    /// — following the store's layout, against the table's source field —
    /// so at most one node comes back, and every provided slot's source
    /// is exactly the anchor path `mount_single` writes for its kind.
    pub fn mounted(paths: &PathState, id: u32, root: bool) -> (r: Result<
        Vec<(u32, NSGroup)>,
        Error,
    >)
        ensures
            match r {
                Ok(v) => {
                    &&& v@.len() <= 1
                    &&& (v@.len() == 1 ==> v@[0].0 == id && (forall|k: NSKind| (#[trigger] spec_slot(
                        v@[0].1,
                        k,
                    )) matches NSSlot::Provided(e) ==> e.source matches NSSource::Path(b) && b@
                        == spec_ns_file_path(
                        spec_node_dir(
                            if root {
                                paths.root_state@
                            } else {
                                paths.state@
                            },
                            id as nat,
                        ),
                        k,
                    )))
                },
                Err(e) => e matches Error::Os(_) || e == Error::Parse,
            },
    {
        let node_dir = paths.mount(id, root);
        let entries = match osops::mount_table() {
            Ok(v) => v,
            Err(e) => {
                return Err(Error::Os(e));
            },
        };
        let og = match Self::from_entries(&entries, &node_dir) {
            Ok(og) => og,
            Err(e) => {
                return Err(e);
            },
        };
        let mut out: Vec<(u32, NSGroup)> = Vec::new();
        if let Some(g) = og {
            proof {
                let n = entries@.len() as int;
                assert forall|k: NSKind| ((#[trigger] spec_slot(g, k)) matches NSSlot::Provided(e)
                    ==> e.source matches NSSource::Path(b) && b@ == spec_ns_file_path(
                    node_dir@,
                    k,
                )) by {
                    let m = spec_last_match(entries@, node_dir@, k, n);
                    if m is None {
                        assert(spec_slot(g, k) matches NSSlot::Absent);
                    } else {
                        let j = choose|j: int| spec_last_match(entries@, node_dir@, k, n) == Some(
                            j,
                        );
                        lemma_last_match_classifies(entries@, node_dir@, k, n, j);
                        lemma_classified_source(
                            entries@[j].source@,
                            entries@[j].fstype@,
                            node_dir@,
                            k,
                        );
                    }
                }
            }
            out.push((id, g));
        }
        Ok(out)
    }

    /// Unmounts every entry of a node's anchor directory with lazy and
    /// forced semantics. An unmount that fails because the target was not
    /// mounted is treated as already done; any other errno is fatal.
    pub fn umount(id: u32, paths: &PathState, root: bool) -> (r: Result<(), Error>)
        ensures
            r matches Err(e) ==> e matches Error::Os(_),
    {
        let node_dir = paths.mount(id, root);
        let names = match osops::dir_names(&node_dir) {
            Ok(v) => v,
            Err(e) => {
                return Err(Error::Os(e));
            },
        };
        let mut i: usize = 0;
        while i < names.len()
            decreases names@.len() - i,
        {
            let name = &names[i];
            if !is_dot_entry(name) {
                let p = path_join(&node_dir, name);
                match osops::umount_detach(&p) {
                    Ok(()) => (),
                    Err(e) => {
                        if umount_failure_is_fatal(e) {
                            return Err(Error::Os(e));
                        }
                    },
                }
            }
            i = i + 1;
        }
        Ok(())
    }

    /// Tears down every node whose anchor directory has a numeric name;
    /// non-numeric names are skipped, as are entries that are no
    /// directories.
    pub fn rmall(paths: &PathState, root: bool) -> (r: Result<(), Error>)
        ensures
            r matches Err(e) ==> e matches Error::Os(_),
    {
        let binds = paths.binds(root);
        let names = match osops::dir_names(&binds) {
            Ok(v) => v,
            Err(e) => {
                return Err(Error::Os(e));
            },
        };
        let mut i: usize = 0;
        while i < names.len()
            decreases names@.len() - i,
        {
            let name = &names[i];
            if !is_dot_entry(name) {
                if let Some(id) = parse_u32(name) {
                    match Self::umount(id, paths, root) {
                        Ok(()) => (),
                        Err(Error::Os(e)) => {
                            if rmall_failure_is_fatal(e) {
                                return Err(Error::Os(e));
                            }
                        },
                        Err(e) => {
                            return Err(e);
                        },
                    }
                }
            }
            i = i + 1;
        }
        Ok(())
    }
}

/// True for the "." and ".." directory entries.
pub fn is_dot_entry(name: &Vec<u8>) -> (r: bool)
    ensures
        r == (name@ == seq![46u8] || name@ == seq![46u8, 46u8]),
{
    let dot = vec![46u8];
    let dotdot = vec![46u8, 46u8];
    proof {
        assert(dot@ =~= seq![46u8]);
        assert(dotdot@ =~= seq![46u8, 46u8]);
    }
    bytes_eq(name, &dot) || bytes_eq(name, &dotdot)
}

/// An unmount errno is fatal unless it reports a target that was not
/// mounted at all.
pub fn umount_failure_is_fatal(e: i32) -> (r: bool)
    ensures
        r == (e != ERRNO_NOT_MOUNTED),
{
    e != ERRNO_NOT_MOUNTED
}

/// During bulk teardown a per-node errno is fatal unless it only says
/// the entry was no directory: such entries are skipped, as non-numeric
/// names are.
pub fn rmall_failure_is_fatal(e: i32) -> (r: bool)
    ensures
        r == (e != ERRNO_NOT_DIR),
{
    e != ERRNO_NOT_DIR
}

// ---------------------------------------------------------------------------
// Entering namespaces.
// ---------------------------------------------------------------------------

/// Something that can move the calling thread into kernel namespaces.
pub trait NSEnter {
    /// Whether entry may be attempted at all.
    spec fn enter_ok(&self) -> bool;

    /// Moves the calling thread into the namespaces of the given kinds.
    /// Whether entry succeeds is the kernel's to decide; a failure is
    /// always a propagated errno.
    fn enter(&self, kinds: &Vec<NSKind>) -> (r: Result<(), Error>)
        requires
            self.enter_ok(),
        ensures
            r matches Err(e) ==> e matches Error::Os(_),
    ;
}

impl NSEnter for NSSource {
    /// An unavailable source must never be dereferenced for entry.
    open spec fn enter_ok(&self) -> bool {
        !(self matches NSSource::Unavail)
    }

    fn enter(&self, kinds: &Vec<NSKind>) -> (r: Result<(), Error>) {
        match self {
            NSSource::Path(p) => {
                let fd = match osops::open_fd_read(p) {
                    Ok(fd) => fd,
                    Err(e) => {
                        return Err(Error::Os(e));
                    },
                };
                let mut i: usize = 0;
                while i < kinds.len()
                    decreases kinds@.len() - i,
                {
                    if let Err(e) = osops::setns_kind(fd, kinds[i]) {
                        osops::close_fd(fd);
                        return Err(Error::Os(e));
                    }
                    i = i + 1;
                }
                osops::close_fd(fd);
                Ok(())
            },
            NSSource::Pid(pp) => {
                let mut i: usize = 0;
                while i < kinds.len()
                    decreases kinds@.len() - i,
                {
                    let path = proc_ns_path(*pp, kinds[i]);
                    let fd = match osops::open_fd_read(&path) {
                        Ok(fd) => fd,
                        Err(e) => {
                            return Err(Error::Os(e));
                        },
                    };
                    if let Err(e) = osops::setns_kind(fd, kinds[i]) {
                        osops::close_fd(fd);
                        return Err(Error::Os(e));
                    }
                    osops::close_fd(fd);
                    i = i + 1;
                }
                Ok(())
            },
            NSSource::Unavail => {
                // excluded by the precondition: entering an unavailable
                // source is a programming error, not a recoverable one
                proof {
                    assert(false);
                }
                Err(Error::Parse)
            },
        }
    }
}

impl NSEnter for ExactNS {
    /// Entry goes through the source.
    open spec fn enter_ok(&self) -> bool {
        self.source.enter_ok()
    }

    fn enter(&self, kinds: &Vec<NSKind>) -> (r: Result<(), Error>) {
        self.source.enter(kinds)
    }
}

} // verus!
