use vstd::prelude::*;

use crate::bytesutil::{append_bytes, parse_u32, push_decimal, spec_decimal, spec_digits_val,
    spec_is_digits, u32_decimal};
use crate::errors::{Error, ERRNO_SHORT_WRITE};
use crate::ns::{ExactNS, NSGroup, NSKind, NSSlot, NSSource, PidPath};
use crate::osops;

verus! {

// ---------------------------------------------------------------------------
// Capability pre-flight.
// ---------------------------------------------------------------------------

/// The verdict on a capability probe: missing CAP_SYS_ADMIN is fatal.
pub fn capsys_verdict(has: bool) -> (r: Result<(), Error>)
    ensures
        r is Ok <==> has,
        (has == false) ==> r == Result::<(), Error>::Err(Error::CapRequired),
{
    if has {
        Ok(())
    } else {
        Err(Error::CapRequired)
    }
}

/// Pre-flight check that the process holds CAP_SYS_ADMIN; the error names
/// the missing capability.
pub fn check_capsys() -> (r: Result<(), Error>)
    ensures
        r matches Err(e) ==> (e matches Error::Os(_) || e == Error::CapRequired),
{
    match osops::has_cap_sys_admin() {
        Ok(has) => capsys_verdict(has),
        Err(e) => Err(Error::Os(e)),
    }
}

// ---------------------------------------------------------------------------
// The non-root uid the program keeps in mind.
// ---------------------------------------------------------------------------

/// The uid-resolution rule over the identity hints the environment
/// offers, in precedence order: an explicit uid; the tool's own override;
/// SUDO_UID; KDE_SESSION_UID; then the real uid when it is not root; and
/// root itself only when allowed. A hint that is present but not numeric
/// is an error, not a fallback.
pub open spec fn spec_what_uid(
    uid: Option<u32>,
    hint: Option<Vec<u8>>,
    sudo: Option<Vec<u8>>,
    real_uid: u32,
    kde: Option<Vec<u8>>,
    allow_root: bool,
) -> Result<u32, Error> {
    match uid {
        Some(u) => Ok(u),
        None => match hint {
            Some(h) => if spec_is_digits(h@) && spec_digits_val(h@) <= u32::MAX as nat {
                Ok((spec_digits_val(h@) as u32))
            } else {
                Err(Error::Parse)
            },
            None => match sudo {
                Some(s) => if spec_is_digits(s@) && spec_digits_val(s@) <= u32::MAX as nat {
                    Ok((spec_digits_val(s@) as u32))
                } else {
                    Err(Error::Parse)
                },
                None => match kde {
                    Some(k) => if spec_is_digits(k@) && spec_digits_val(k@) <= u32::MAX as nat {
                        Ok((spec_digits_val(k@) as u32))
                    } else {
                        Err(Error::Parse)
                    },
                    None => if real_uid != 0 {
                        Ok(real_uid)
                    } else if allow_root {
                        Ok(0u32)
                    } else {
                        Err(Error::NoUid)
                    },
                },
            },
        },
    }
}

/// Resolves the non-root uid from the hints the caller gathered from its
/// environment. Pure: reading the environment is the caller's part.
pub fn what_uid(
    uid: Option<u32>,
    hint: Option<Vec<u8>>,
    sudo: Option<Vec<u8>>,
    real_uid: u32,
    kde: Option<Vec<u8>>,
    allow_root: bool,
) -> (r: Result<u32, Error>)
    ensures
        r == spec_what_uid(uid, hint, sudo, real_uid, kde, allow_root),
{
    match uid {
        Some(u) => Ok(u),
        None => match &hint {
            Some(h) => match parse_u32(h) {
                Some(v) => Ok(v),
                None => Err(Error::Parse),
            },
            None => match &sudo {
                Some(s) => match parse_u32(s) {
                    Some(v) => Ok(v),
                    None => Err(Error::Parse),
                },
                None => match &kde {
                    Some(k) => match parse_u32(k) {
                        Some(v) => Ok(v),
                        None => Err(Error::Parse),
                    },
                    None => if real_uid != 0 {
                        Ok(real_uid)
                    } else if allow_root {
                        Ok(0)
                    } else {
                        Err(Error::NoUid)
                    },
                },
            },
        },
    }
}

// ---------------------------------------------------------------------------
// Whole-line writes into proc files.
// ---------------------------------------------------------------------------

/// Writes `content` whole: a write the kernel cut short is an error, not
/// a partial success.
fn write_exact(path: &Vec<u8>, content: &Vec<u8>) -> (r: Result<(), Error>)
    ensures
        r matches Err(e) ==> e matches Error::Os(_),
{
    match osops::write_file(path, content) {
        Ok(n) => {
            if n == content.len() {
                Ok(())
            } else {
                Err(Error::Os(ERRNO_SHORT_WRITE))
            }
        },
        Err(e) => Err(Error::Os(e)),
    }
}

// ---------------------------------------------------------------------------
// Ping range control.
// ---------------------------------------------------------------------------

/// "/proc/sys/net/ipv4/ping_group_range"
pub open spec fn spec_ping_range_path() -> Seq<u8> {
    seq![47u8, 112, 114, 111, 99, 47, 115, 121, 115, 47, 110, 101, 116, 47, 105, 112, 118, 52, 47,
        112, 105, 110, 103, 95, 103, 114, 111, 117, 112, 95, 114, 97, 110, 103, 101]
}

fn ping_range_path() -> (r: Vec<u8>)
    ensures
        r@ == spec_ping_range_path(),
{
    let r = vec![47u8, 112, 114, 111, 99, 47, 115, 121, 115, 47, 110, 101, 116, 47, 105, 112, 118,
        52, 47, 112, 105, 110, 103, 95, 103, 114, 111, 117, 112, 95, 114, 97, 110, 103, 101];
    proof {
        assert(r@ =~= spec_ping_range_path());
    }
    r
}

/// "0 2147483647": the range that opens ping sockets to every group.
pub open spec fn spec_ping_range_all() -> Seq<u8> {
    seq![48u8, 32, 50, 49, 52, 55, 52, 56, 51, 54, 52, 55]
}

/// "<gid> <gid>": the range that opens ping sockets to one group.
pub open spec fn spec_ping_range_gid(gid: nat) -> Seq<u8> {
    spec_decimal(gid) + seq![32u8] + spec_decimal(gid)
}

/// The single-group range line as bytes.
pub fn ping_range_gid_content(gid: u32) -> (r: Vec<u8>)
    ensures
        r@ == spec_ping_range_gid(gid as nat),
{
    let mut out = u32_decimal(gid);
    out.push(32);
    push_decimal(gid, &mut out);
    proof {
        assert(out@ =~= spec_ping_range_gid(gid as nat));
    }
    out
}

/// Opens ping sockets to every group by writing the full range.
pub fn enable_ping_all() -> (r: Result<(), Error>)
    ensures
        r matches Err(e) ==> e matches Error::Os(_),
{
    let path = ping_range_path();
    let content = vec![48u8, 32, 50, 49, 52, 55, 52, 56, 51, 54, 52, 55];
    proof {
        assert(content@ =~= spec_ping_range_all());
    }
    write_exact(&path, &content)
}

/// Opens ping sockets to one group by writing its degenerate range.
pub fn enable_ping_gid(gid: u32) -> (r: Result<(), Error>)
    ensures
        r matches Err(e) ==> e matches Error::Os(_),
{
    let path = ping_range_path();
    let content = ping_range_gid_content(gid);
    write_exact(&path, &content)
}

// ---------------------------------------------------------------------------
// Standalone rootless unshare.
// ---------------------------------------------------------------------------

/// "<id> <id> 1": the single-identity map line written for a standalone
/// unshare.
pub open spec fn spec_single_map_line(id: nat) -> Seq<u8> {
    spec_decimal(id) + seq![32u8] + spec_decimal(id) + seq![32u8, 49]
}

/// The single-identity map line as bytes.
pub fn single_map_line(id: u32) -> (r: Vec<u8>)
    ensures
        r@ == spec_single_map_line(id as nat),
{
    let mut out = u32_decimal(id);
    out.push(32);
    push_decimal(id, &mut out);
    out.push(32);
    out.push(49);
    proof {
        assert(out@ =~= spec_single_map_line(id as nat));
    }
    out
}

/// "/proc/self/uid_map"
pub open spec fn spec_self_uid_map() -> Seq<u8> {
    seq![47u8, 112, 114, 111, 99, 47, 115, 101, 108, 102, 47, 117, 105, 100, 95, 109, 97, 112]
}

/// "/proc/self/gid_map"
pub open spec fn spec_self_gid_map() -> Seq<u8> {
    seq![47u8, 112, 114, 111, 99, 47, 115, 101, 108, 102, 47, 103, 105, 100, 95, 109, 97, 112]
}

/// "/proc/self/setgroups"
pub open spec fn spec_self_setgroups() -> Seq<u8> {
    seq![47u8, 112, 114, 111, 99, 47, 115, 101, 108, 102, 47, 115, 101, 116, 103, 114, 111, 117,
        112, 115]
}

/// Unshares the calling process into a fresh rootless user namespace
/// (and, when asked, a mount namespace), maps one single uid and gid, and
/// reports the new group: the user slot provided from the process itself,
/// everything else absent.
pub fn unshare_user_standalone(uid: u32, gid: u32, mnt: bool) -> (r: Result<NSGroup, Error>)
    ensures
        match r {
            Ok(g) => {
                &&& (g.user matches NSSlot::Provided(e) && e.source matches NSSource::Pid(p) && p
                    == PidPath::Selfproc)
                &&& g.mnt matches NSSlot::Absent
                &&& g.net matches NSSlot::Absent
                &&& g.pid matches NSSlot::Absent
                &&& g.uts matches NSSlot::Absent
                &&& g.ipc matches NSSlot::Absent
                &&& g.cgroup matches NSSlot::Absent
            },
            Err(e) => e matches Error::Os(_),
        },
{
    if let Err(e) = osops::unshare_user(mnt) {
        return Err(Error::Os(e));
    }
    let uid_map = vec![47u8, 112, 114, 111, 99, 47, 115, 101, 108, 102, 47, 117, 105, 100, 95,
        109, 97, 112];
    proof {
        assert(uid_map@ =~= spec_self_uid_map());
    }
    let uid_line = single_map_line(uid);
    if let Err(e) = write_exact(&uid_map, &uid_line) {
        return Err(e);
    }
    let setgroups = vec![47u8, 112, 114, 111, 99, 47, 115, 101, 108, 102, 47, 115, 101, 116, 103,
        114, 111, 117, 112, 115];
    let deny = vec![100u8, 101, 110, 121];
    proof {
        assert(setgroups@ =~= spec_self_setgroups());
    }
    if let Err(e) = write_exact(&setgroups, &deny) {
        return Err(e);
    }
    let gid_map = vec![47u8, 112, 114, 111, 99, 47, 115, 101, 108, 102, 47, 103, 105, 100, 95,
        109, 97, 112];
    proof {
        assert(gid_map@ =~= spec_self_gid_map());
    }
    let gid_line = single_map_line(gid);
    if let Err(e) = write_exact(&gid_map, &gid_line) {
        return Err(e);
    }
    let user = match ExactNS::from_pid(PidPath::Selfproc, NSKind::User) {
        Ok(e) => e,
        Err(e) => {
            return Err(e);
        },
    };
    Ok(NSGroup {
        user: NSSlot::Provided(user),
        mnt: NSSlot::Absent,
        net: NSSlot::Absent,
        pid: NSSlot::Absent,
        uts: NSSlot::Absent,
        ipc: NSSlot::Absent,
        cgroup: NSSlot::Absent,
    })
}

} // verus!
