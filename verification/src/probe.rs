use vstd::prelude::*;

use crate::bytesutil::clone_bytes;
use crate::errors::Error;
use crate::osops;

verus! {

/// MTU given to a handed-off TUN device when the request names none.
pub const DEFAULT_MTU: i32 = 1500;

/// The link layer a TUN device operates on.
#[derive(Clone, Copy, Debug, PartialEq, Eq, Structural)]
pub enum TunLayer {
    /// Link layer (ethernet frames).
    L2,
    /// Network layer (IP packets).
    L3,
}

/// Request for a TUN device hand-off.
#[derive(Debug)]
pub struct TUNC {
    pub layer: TunLayer,
    pub tun_name: Option<Vec<u8>>,
    pub mtu: Option<i32>,
}

/// Request for a raw transport-layer socket hand-off: a CLOEXEC-flagged,
/// stream-type, IPv4 TCP socket, passed with no further configuration.
#[derive(Debug)]
pub struct SocketC {}

/// A hand-off order: what to create, and the path of the Unix domain
/// socket the receiving peer listens on.
#[derive(Debug)]
pub struct PassFD<C> {
    pub creation: C,
    pub listener: Vec<u8>,
}

/// Everything the device creator must apply, fixed before any descriptor
/// exists: packet-information framing on, the library's interface
/// auto-apply off, the requested layer and name, the effective MTU, and
/// the enabled, non-blocking and persistent marks.
#[derive(Debug)]
pub struct TunPlan {
    pub layer: TunLayer,
    pub tun_name: Option<Vec<u8>>,
    pub mtu: i32,
    pub packet_information: bool,
    pub apply_settings: bool,
    pub enabled: bool,
    pub nonblocking: bool,
    pub persist: bool,
}

impl<C> PassFD<C> {
    /// The hand-off mechanism both request kinds share: connect as a
    /// client to the peer's well-known Unix domain socket and send the
    /// raw descriptor as ancillary data. There is no retry: the caller
    /// sequences peer startup before requesting a hand-off.
    pub fn connect_and_pass(&self, fd: i32) -> (r: Result<(), Error>)
        ensures
            r matches Err(e) ==> e matches Error::Os(_),
    {
        let conn = match osops::socket_unix_stream() {
            Ok(c) => c,
            Err(e) => {
                return Err(Error::Os(e));
            },
        };
        if let Err(e) = osops::connect_unix(conn, &self.listener) {
            osops::close_fd(conn);
            return Err(Error::Os(e));
        }
        if let Err(e) = osops::send_fd_over(conn, fd) {
            osops::close_fd(conn);
            return Err(Error::Os(e));
        }
        osops::close_fd(conn);
        Ok(())
    }
}

impl PassFD<SocketC> {
    /// Creates the raw transport-layer socket and passes its descriptor
    /// to the peer, with no further configuration.
    pub fn pass(&self) -> (r: Result<(), Error>)
        ensures
            r matches Err(e) ==> e matches Error::Os(_),
    {
        let sock = match osops::socket_tcp() {
            Ok(s) => s,
            Err(e) => {
                return Err(Error::Os(e));
            },
        };
        let r = self.connect_and_pass(sock);
        osops::close_fd(sock);
        r
    }
}

impl PassFD<TUNC> {
    /// The full device configuration implied by this request. The runner
    /// that creates the device must follow it field by field and refuse a
    /// device that reports packet-information framing off.
    pub fn device_plan(&self) -> (r: TunPlan)
        ensures
            r.layer == self.creation.layer,
            (self.creation.tun_name matches Some(n) ==> r.tun_name matches Some(n2) && n2@ == n@),
            (self.creation.tun_name is None ==> r.tun_name is None),
            r.mtu == (match self.creation.mtu {
                Some(m) => m,
                None => DEFAULT_MTU,
            }),
            r.packet_information == true,
            r.apply_settings == false,
            r.enabled == true,
            r.nonblocking == true,
            r.persist == true,
    {
        let name = match &self.creation.tun_name {
            Some(n) => Some(clone_bytes(n)),
            None => None,
        };
        let mtu = match self.creation.mtu {
            Some(m) => m,
            None => DEFAULT_MTU,
        };
        TunPlan {
            layer: self.creation.layer,
            tun_name: name,
            mtu,
            packet_information: true,
            apply_settings: false,
            enabled: true,
            nonblocking: true,
            persist: true,
        }
    }
}

} // verus!
