use vstd::prelude::*;

use crate::ns::NSKind;

verus! {

/// One line of the live mount table, reduced to the fields the library
/// reads: the mount source, the mount point, and the filesystem type.
pub struct MountEntry {
    pub source: Vec<u8>,
    pub dest: Vec<u8>,
    pub fstype: Vec<u8>,
}

/// Relies on nix::sys::stat::stat: returns the device and inode pair of
/// the file at `path`, or the errno. The result depends on what is on
/// disk, so nothing is promised of the values.
#[verifier::external_body]
pub(crate) fn stat_path(path: &Vec<u8>) -> (r: Result<(u64, u64), i32>) {
    match nix::sys::stat::stat(&path[..]) {
        Ok(s) => Ok((s.st_dev, s.st_ino)),
        Err(e) => Err(e as i32),
    }
}

/// Relies on nix::sys::stat::stat: reports whether `path` names an
/// existing file. The result depends on what is on disk.
#[verifier::external_body]
pub(crate) fn path_exists(path: &Vec<u8>) -> (r: bool) {
    nix::sys::stat::stat(&path[..]).is_ok()
}

/// Relies on nix::fcntl::open with O_CREAT: creates an empty file at
/// `path` (or leaves an existing one as it is) and closes the descriptor.
#[verifier::external_body]
pub(crate) fn create_file(path: &Vec<u8>) -> (r: Result<(), i32>) {
    match nix::fcntl::open(&path[..],
        nix::fcntl::OFlag::O_CREAT | nix::fcntl::OFlag::O_WRONLY | nix::fcntl::OFlag::O_CLOEXEC,
        nix::sys::stat::Mode::from_bits_truncate(0o644)) {
        Ok(fd) => {
            let _ = nix::unistd::close(fd);
            Ok(())
        },
        Err(e) => Err(e as i32),
    }
}

/// Relies on nix::mount::mount with MS_BIND: bind-mounts `src` onto `dst`.
#[verifier::external_body]
pub(crate) fn bind_mount(src: &Vec<u8>, dst: &Vec<u8>) -> (r: Result<(), i32>) {
    match nix::mount::mount(Some(&src[..]), &dst[..], None::<&[u8]>,
        nix::mount::MsFlags::MS_BIND, None::<&[u8]>) {
        Ok(()) => Ok(()),
        Err(e) => Err(e as i32),
    }
}

/// Relies on nix::mount::umount2 with MNT_DETACH | MNT_FORCE: unmounts
/// `path` lazily and forcibly, or reports the errno.
#[verifier::external_body]
pub(crate) fn umount_detach(path: &Vec<u8>) -> (r: Result<(), i32>) {
    match nix::mount::umount2(&path[..],
        nix::mount::MntFlags::MNT_DETACH | nix::mount::MntFlags::MNT_FORCE) {
        Ok(()) => Ok(()),
        Err(e) => Err(e as i32),
    }
}

/// Relies on nix::mount::umount: unmounts `path`, or reports the errno.
#[verifier::external_body]
pub(crate) fn umount_once(path: &Vec<u8>) -> (r: Result<(), i32>) {
    match nix::mount::umount(&path[..]) {
        Ok(()) => Ok(()),
        Err(e) => Err(e as i32),
    }
}

/// Relies on nix::unistd::unlink: removes the file at `path`.
#[verifier::external_body]
pub(crate) fn unlink_path(path: &Vec<u8>) -> (r: Result<(), i32>) {
    match nix::unistd::unlink(&path[..]) {
        Ok(()) => Ok(()),
        Err(e) => Err(e as i32),
    }
}

/// Relies on nix::unistd::unlinkat with RemoveDir: removes the empty
/// directory at `path`.
#[verifier::external_body]
pub(crate) fn remove_dir(path: &Vec<u8>) -> (r: Result<(), i32>) {
    match nix::unistd::unlinkat(None, &path[..], nix::unistd::UnlinkatFlags::RemoveDir) {
        Ok(()) => Ok(()),
        Err(e) => Err(e as i32),
    }
}

/// Relies on nix::dir::Dir: returns the names of all entries of the
/// directory at `path`, the "." and ".." entries included. The result
/// depends on what is on disk.
#[verifier::external_body]
pub(crate) fn dir_names(path: &Vec<u8>) -> (r: Result<Vec<Vec<u8>>, i32>) {
    let d = match nix::dir::Dir::open(&path[..],
        nix::fcntl::OFlag::O_RDONLY | nix::fcntl::OFlag::O_DIRECTORY | nix::fcntl::OFlag::O_CLOEXEC,
        nix::sys::stat::Mode::empty()) {
        Ok(d) => d,
        Err(e) => return Err(e as i32),
    };
    let mut out: Vec<Vec<u8>> = Vec::new();
    for entry in d {
        match entry {
            Ok(en) => out.push(en.file_name().to_bytes().to_vec()),
            Err(e) => return Err(e as i32),
        }
    }
    Ok(out)
}

/// Relies on proc_mounts::MountIter: reads the live mount table and hands
/// back its lines as (source, mount point, fstype) triples. The result
/// depends on the state of the machine.
#[verifier::external_body]
pub(crate) fn mount_table() -> (r: Result<Vec<MountEntry>, i32>) {
    let it = proc_mounts::MountIter::new().map_err(|e| e.raw_os_error().unwrap_or(-1))?;
    let mut out: Vec<MountEntry> = Vec::new();
    for m in it {
        let m = m.map_err(|e| e.raw_os_error().unwrap_or(-1))?;
        out.push(MountEntry {
            source: m.source.to_string_lossy().into_owned().into_bytes(),
            dest: m.dest.to_string_lossy().into_owned().into_bytes(),
            fstype: m.fstype.into_bytes(),
        });
    }
    Ok(out)
}

/// Relies on nix::fcntl::open: opens `path` read-only and returns the raw
/// descriptor.
#[verifier::external_body]
pub(crate) fn open_fd_read(path: &Vec<u8>) -> (r: Result<i32, i32>) {
    match nix::fcntl::open(&path[..], nix::fcntl::OFlag::O_RDONLY | nix::fcntl::OFlag::O_CLOEXEC,
        nix::sys::stat::Mode::empty()) {
        Ok(fd) => Ok(fd),
        Err(e) => Err(e as i32),
    }
}

/// Relies on nix::unistd::close: closes the raw descriptor.
#[verifier::external_body]
pub(crate) fn close_fd(fd: i32) {
    let _ = nix::unistd::close(fd);
}

/// Relies on nix::sched::setns: moves the calling thread into the
/// namespace of the given kind that `fd` refers to.
#[verifier::external_body]
pub(crate) fn setns_kind(fd: i32, kind: NSKind) -> (r: Result<(), i32>) {
    let flag = match kind {
        NSKind::User => nix::sched::CloneFlags::CLONE_NEWUSER,
        NSKind::Mnt => nix::sched::CloneFlags::CLONE_NEWNS,
        NSKind::Net => nix::sched::CloneFlags::CLONE_NEWNET,
        NSKind::Pid => nix::sched::CloneFlags::CLONE_NEWPID,
        NSKind::Uts => nix::sched::CloneFlags::CLONE_NEWUTS,
        NSKind::Ipc => nix::sched::CloneFlags::CLONE_NEWIPC,
        NSKind::Cgroup => nix::sched::CloneFlags::CLONE_NEWCGROUP,
    };
    match nix::sched::setns(fd, flag) {
        Ok(()) => Ok(()),
        Err(e) => Err(e as i32),
    }
}

/// Relies on nix::sched::unshare: detaches the process into a new user
/// namespace, and a new mount namespace as well when `mnt` is set.
#[verifier::external_body]
pub(crate) fn unshare_user(mnt: bool) -> (r: Result<(), i32>) {
    let mut flags = nix::sched::CloneFlags::CLONE_NEWUSER;
    if mnt {
        flags |= nix::sched::CloneFlags::CLONE_NEWNS;
    }
    match nix::sched::unshare(flags) {
        Ok(()) => Ok(()),
        Err(e) => Err(e as i32),
    }
}

/// Relies on nix::fcntl::open and nix::unistd::write: opens `path` for
/// writing and makes one write call with `content`; hands back how many
/// bytes the kernel accepted. Whether that is all of them is the
/// caller's to judge.
#[verifier::external_body]
pub(crate) fn write_file(path: &Vec<u8>, content: &Vec<u8>) -> (r: Result<usize, i32>) {
    let fd = match nix::fcntl::open(&path[..],
        nix::fcntl::OFlag::O_WRONLY | nix::fcntl::OFlag::O_CLOEXEC,
        nix::sys::stat::Mode::empty()) {
        Ok(fd) => fd,
        Err(e) => return Err(e as i32),
    };
    let res = nix::unistd::write(fd, &content[..]);
    let _ = nix::unistd::close(fd);
    match res {
        Ok(n) => Ok(n),
        Err(e) => Err(e as i32),
    }
}

/// Relies on nix::sys::socket::socket: creates a CLOEXEC-flagged,
/// stream-type, IPv4 TCP socket and returns its raw descriptor.
#[verifier::external_body]
pub(crate) fn socket_tcp() -> (r: Result<i32, i32>) {
    match nix::sys::socket::socket(nix::sys::socket::AddressFamily::Inet,
        nix::sys::socket::SockType::Stream, nix::sys::socket::SockFlag::SOCK_CLOEXEC,
        nix::sys::socket::SockProtocol::Tcp) {
        Ok(fd) => Ok(fd),
        Err(e) => Err(e as i32),
    }
}

/// Relies on nix::sys::socket::socket: creates a CLOEXEC-flagged,
/// stream-type Unix domain socket and returns its raw descriptor.
#[verifier::external_body]
pub(crate) fn socket_unix_stream() -> (r: Result<i32, i32>) {
    match nix::sys::socket::socket(nix::sys::socket::AddressFamily::Unix,
        nix::sys::socket::SockType::Stream, nix::sys::socket::SockFlag::SOCK_CLOEXEC, None) {
        Ok(fd) => Ok(fd),
        Err(e) => Err(e as i32),
    }
}

/// Relies on nix::sys::socket::connect: connects the socket `fd` to the
/// Unix domain socket listening at `path`.
#[verifier::external_body]
pub(crate) fn connect_unix(fd: i32, path: &Vec<u8>) -> (r: Result<(), i32>) {
    let addr = match nix::sys::socket::UnixAddr::new(&path[..]) {
        Ok(a) => a,
        Err(e) => return Err(e as i32),
    };
    match nix::sys::socket::connect(fd, &addr) {
        Ok(()) => Ok(()),
        Err(e) => Err(e as i32),
    }
}

/// Relies on passfd::FdPassingExt::send_fd: transmits the raw descriptor
/// `fd` itself over the connected Unix domain socket `conn` as ancillary
/// data.
#[verifier::external_body]
pub(crate) fn send_fd_over(conn: i32, fd: i32) -> (r: Result<(), i32>) {
    match passfd::FdPassingExt::send_fd(&conn, fd) {
        Ok(()) => Ok(()),
        Err(e) => Err(e.raw_os_error().unwrap_or(-1)),
    }
}

/// Relies on capctl::CapState::get_current: reports whether CAP_SYS_ADMIN
/// is in the effective set of the calling process.
#[verifier::external_body]
pub(crate) fn has_cap_sys_admin() -> (r: Result<bool, i32>) {
    match capctl::CapState::get_current() {
        Ok(st) => Ok(st.effective.has(capctl::Cap::SYS_ADMIN)),
        Err(e) => Err(e.code()),
    }
}

} // verus!
