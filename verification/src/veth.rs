use vstd::prelude::*;

use crate::bytesutil::{append_bytes, push_decimal, spec_decimal};
use crate::errors::Error;

verus! {

// ---------------------------------------------------------------------------
// Address model: networks as plain integers plus a prefix length.
// ---------------------------------------------------------------------------

/// An IPv4 network: the network address and the prefix length.
#[derive(Clone, Copy, Debug, PartialEq, Eq, Structural)]
pub struct Ipv4Net {
    pub addr: u32,
    pub prefix: u8,
}

/// An IPv6 network: the network address and the prefix length.
#[derive(Clone, Copy, Debug, PartialEq, Eq, Structural)]
pub struct Ipv6Net {
    pub addr: u128,
    pub prefix: u8,
}

/// 100.67.0.0, the base of the fixed IPv4 allocation domain 100.67.0.0/16.
pub const DOM4_BASE: u32 = 0x6443_0000;

/// Number of /30 subnets inside the IPv4 domain.
pub const DOM4_SUBNETS: u32 = 0x4000;

/// fe80:2e::, the base of the fixed IPv6 allocation domain fe80:2e::/24.
pub const DOM6_BASE: u128 = 0xfe80_002e_0000_0000_0000_0000_0000_0000;

/// Number of /126 subnets between fe80:2e:: and the end of its /24.
pub const DOM6_SUBNETS: u128 = 0x3480_0000_0000_0000_0000_0000_00;

// ---------------------------------------------------------------------------
// First-fit allocation, specified.
// ---------------------------------------------------------------------------

/// The k-th address of the i-th /30 candidate subnet.
pub open spec fn spec_v4_addr(i: nat, k: nat) -> nat {
    DOM4_BASE as nat + 4 * i + k
}

/// The i-th candidate shares no address with the used set.
pub open spec fn spec_v4_free(used: Seq<u32>, i: nat) -> bool {
    forall|k: nat| k < 4 ==> !used.contains((spec_v4_addr(i, k) as u32))
}

/// Index of the first free /30 candidate at or after `i`.
pub open spec fn spec_first_free_v4(used: Seq<u32>, i: nat) -> Option<nat>
    decreases DOM4_SUBNETS as int - i,
{
    if i >= DOM4_SUBNETS as nat {
        None
    } else if spec_v4_free(used, i) {
        Some(i)
    } else {
        spec_first_free_v4(used, i + 1)
    }
}

/// The network address the IPv4 allocator yields for a used set.
pub open spec fn spec_alloc_v4(used: Seq<u32>) -> Option<u32> {
    match spec_first_free_v4(used, 0) {
        Some(i) => Some(((DOM4_BASE as nat + 4 * i) as u32)),
        None => None,
    }
}

/// The k-th address of the i-th /126 candidate subnet.
pub open spec fn spec_v6_addr(i: nat, k: nat) -> nat {
    DOM6_BASE as nat + 4 * i + k
}

/// The i-th candidate shares no address with the used set.
pub open spec fn spec_v6_free(used: Seq<u128>, i: nat) -> bool {
    forall|k: nat| k < 4 ==> !used.contains((spec_v6_addr(i, k) as u128))
}

/// Index of the first free /126 candidate at or after `i`.
pub open spec fn spec_first_free_v6(used: Seq<u128>, i: nat) -> Option<nat>
    decreases DOM6_SUBNETS as int - i,
{
    if i >= DOM6_SUBNETS as nat {
        None
    } else if spec_v6_free(used, i) {
        Some(i)
    } else {
        spec_first_free_v6(used, i + 1)
    }
}

/// The network address the IPv6 allocator yields for a used set.
pub open spec fn spec_alloc_v6(used: Seq<u128>) -> Option<u128> {
    match spec_first_free_v6(used, 0) {
        Some(i) => Some(((DOM6_BASE as nat + 4 * i) as u128)),
        None => None,
    }
}

// ---------------------------------------------------------------------------
// First-fit allocation, executed.
// ---------------------------------------------------------------------------

/// Membership test in the used IPv4 address set.
fn contains_u32(v: &Vec<u32>, x: u32) -> (r: bool)
    ensures
        r == v@.contains(x),
{
    let mut i: usize = 0;
    while i < v.len()
        invariant
            0 <= i <= v@.len(),
            forall|j: int| 0 <= j < i ==> v@[j] != x,
        decreases v@.len() - i,
    {
        if v[i] == x {
            return true;
        }
        i = i + 1;
    }
    false
}

/// Membership test in the used IPv6 address set.
fn contains_u128(v: &Vec<u128>, x: u128) -> (r: bool)
    ensures
        r == v@.contains(x),
{
    let mut i: usize = 0;
    while i < v.len()
        invariant
            0 <= i <= v@.len(),
            forall|j: int| 0 <= j < i ==> v@[j] != x,
        decreases v@.len() - i,
    {
        if v[i] == x {
            return true;
        }
        i = i + 1;
    }
    false
}

/// Picks the first /30 inside 100.67.0.0/16 whose four addresses are all
/// unused; exhaustion of the domain is an error.
pub fn alloc_v4(used: &Vec<u32>) -> (r: Result<Ipv4Net, Error>)
    ensures
        match r {
            Ok(n) => {
                &&& n.prefix == 30
                &&& spec_alloc_v4(used@) == Some(n.addr)
                &&& DOM4_BASE <= n.addr
                &&& n.addr <= 0x6443_FFFCu32
            },
            Err(e) => e == Error::Exhausted && spec_alloc_v4(used@) is None,
        },
{
    let mut i: u32 = 0;
    while i < DOM4_SUBNETS
        invariant
            i <= DOM4_SUBNETS,
            spec_first_free_v4(used@, 0) == spec_first_free_v4(used@, i as nat),
        decreases DOM4_SUBNETS - i,
    {
        let base: u32 = DOM4_BASE + 4 * i;
        let a0 = contains_u32(used, base);
        let a1 = contains_u32(used, base + 1);
        let a2 = contains_u32(used, base + 2);
        let a3 = contains_u32(used, base + 3);
        if !a0 && !a1 && !a2 && !a3 {
            proof {
                assert forall|k: nat| k < 4 implies !used@.contains(
                    (spec_v4_addr(i as nat, k) as u32),
                ) by {
                    assert(spec_v4_addr(i as nat, k) == base + k);
                    if k == 0 {
                    } else if k == 1 {
                    } else if k == 2 {
                    } else {
                        assert(k == 3);
                    }
                }
                assert(spec_v4_free(used@, i as nat));
                assert(spec_first_free_v4(used@, i as nat) == Some(i as nat));
            }
            return Ok(Ipv4Net { addr: base, prefix: 30 });
        }
        proof {
            assert(!spec_v4_free(used@, i as nat)) by {
                if a0 {
                    assert(used@.contains((spec_v4_addr(i as nat, 0) as u32)));
                } else if a1 {
                    assert(used@.contains((spec_v4_addr(i as nat, 1) as u32)));
                } else if a2 {
                    assert(used@.contains((spec_v4_addr(i as nat, 2) as u32)));
                } else {
                    assert(used@.contains((spec_v4_addr(i as nat, 3) as u32)));
                }
            }
            assert(spec_first_free_v4(used@, i as nat) == spec_first_free_v4(
                used@,
                (i + 1) as nat,
            ));
        }
        i = i + 1;
    }
    Err(Error::Exhausted)
}

/// Picks the first /126 inside fe80:2e::/24 whose four addresses are all
/// unused; exhaustion of the domain is an error.
pub fn alloc_v6(used: &Vec<u128>) -> (r: Result<Ipv6Net, Error>)
    ensures
        match r {
            Ok(n) => {
                &&& n.prefix == 126
                &&& spec_alloc_v6(used@) == Some(n.addr)
                &&& DOM6_BASE <= n.addr
                &&& n.addr <= 0xfe80_00ff_ffff_ffff_ffff_ffff_ffff_fffcu128
            },
            Err(e) => e == Error::Exhausted && spec_alloc_v6(used@) is None,
        },
{
    let mut i: u128 = 0;
    while i < DOM6_SUBNETS
        invariant
            i <= DOM6_SUBNETS,
            spec_first_free_v6(used@, 0) == spec_first_free_v6(used@, i as nat),
        decreases DOM6_SUBNETS - i,
    {
        let base: u128 = DOM6_BASE + 4 * i;
        let a0 = contains_u128(used, base);
        let a1 = contains_u128(used, base + 1);
        let a2 = contains_u128(used, base + 2);
        let a3 = contains_u128(used, base + 3);
        if !a0 && !a1 && !a2 && !a3 {
            proof {
                assert forall|k: nat| k < 4 implies !used@.contains(
                    (spec_v6_addr(i as nat, k) as u128),
                ) by {
                    assert(spec_v6_addr(i as nat, k) == base + k);
                    if k == 0 {
                    } else if k == 1 {
                    } else if k == 2 {
                    } else {
                        assert(k == 3);
                    }
                }
                assert(spec_v6_free(used@, i as nat));
                assert(spec_first_free_v6(used@, i as nat) == Some(i as nat));
            }
            return Ok(Ipv6Net { addr: base, prefix: 126 });
        }
        proof {
            assert(!spec_v6_free(used@, i as nat)) by {
                if a0 {
                    assert(used@.contains((spec_v6_addr(i as nat, 0) as u128)));
                } else if a1 {
                    assert(used@.contains((spec_v6_addr(i as nat, 1) as u128)));
                } else if a2 {
                    assert(used@.contains((spec_v6_addr(i as nat, 2) as u128)));
                } else {
                    assert(used@.contains((spec_v6_addr(i as nat, 3) as u128)));
                }
            }
            assert(spec_first_free_v6(used@, i as nat) == spec_first_free_v6(
                used@,
                (i + 1) as nat,
            ));
        }
        i = i + 1;
    }
    Err(Error::Exhausted)
}

proof fn lemma_first_free_v4_is_free(used: Seq<u32>, i: nat, j: nat)
    requires
        spec_first_free_v4(used, i) == Some(j),
    ensures
        spec_v4_free(used, j),
        i <= j < DOM4_SUBNETS as nat,
    decreases DOM4_SUBNETS as int - i,
{
    if i >= DOM4_SUBNETS as nat {
    } else if spec_v4_free(used, i) {
    } else {
        lemma_first_free_v4_is_free(used, i + 1, j);
    }
}

proof fn lemma_first_free_v6_is_free(used: Seq<u128>, i: nat, j: nat)
    requires
        spec_first_free_v6(used, i) == Some(j),
    ensures
        spec_v6_free(used, j),
        i <= j < DOM6_SUBNETS as nat,
    decreases DOM6_SUBNETS as int - i,
{
    if i >= DOM6_SUBNETS as nat {
    } else if spec_v6_free(used, i) {
    } else {
        lemma_first_free_v6_is_free(used, i + 1, j);
    }
}

/// Subnet allocation is collision-free: whenever the IPv4 allocator
/// yields a /30 for a used-address set, none of the four addresses of
/// that subnet is in the used set.
pub proof fn lemma_subnet_allocation_collision_free_v4(used: Seq<u32>, addr: u32)
    requires
        spec_alloc_v4(used) == Some(addr),
    ensures
        forall|a: u32| addr <= a < addr + 4 ==> !used.contains(a),
{
    let j = choose|j: nat| spec_first_free_v4(used, 0) == Some(j);
    lemma_first_free_v4_is_free(used, 0, j);
    assert(addr == (DOM4_BASE as nat + 4 * j) as u32);
    assert(DOM4_BASE as nat + 4 * j + 3 < 0x1_0000_0000) by {
        assert(j < DOM4_SUBNETS as nat);
    }
    assert forall|a: u32| addr <= a < addr + 4 implies !used.contains(a) by {
        let k = (a - addr) as nat;
        assert(k < 4);
        assert(spec_v4_addr(j, k) as u32 == a);
        assert(!used.contains((spec_v4_addr(j, k) as u32)));
    }
}

/// Subnet allocation is collision-free: whenever the IPv6 allocator
/// yields a /126 for a used-address set, none of the four addresses of
/// that subnet is in the used set.
pub proof fn lemma_subnet_allocation_collision_free_v6(used: Seq<u128>, addr: u128)
    requires
        spec_alloc_v6(used) == Some(addr),
    ensures
        forall|a: u128| addr <= a < addr + 4 ==> !used.contains(a),
{
    let j = choose|j: nat| spec_first_free_v6(used, 0) == Some(j);
    lemma_first_free_v6_is_free(used, 0, j);
    assert(addr == (DOM6_BASE as nat + 4 * j) as u128);
    assert(DOM6_BASE as nat + 4 * j + 3 < 0x1_0000_0000_0000_0000_0000_0000_0000_0000) by {
        assert(j < DOM6_SUBNETS as nat);
    }
    assert forall|a: u128| addr <= a < addr + 4 implies !used.contains(a) by {
        let k = (a - addr) as nat;
        assert(k < 4);
        assert(spec_v6_addr(j, k) as u128 == a);
        assert(!used.contains((spec_v6_addr(j, k) as u128)));
    }
}

// ---------------------------------------------------------------------------
// Deterministic link naming.
// ---------------------------------------------------------------------------

/// The small integer embedded in a link name: the allocated /30's index
/// bits inside the /16 domain.
pub open spec fn spec_link_num(addr: u32) -> u32 {
    (addr & 0xFFFCu32) >> 2u32
}

/// "nsproxy<num>", the name derived from the allocated IPv4 subnet alone.
pub open spec fn spec_link_name(addr: u32) -> Seq<u8> {
    seq![110u8, 115, 112, 114, 111, 120, 121] + spec_decimal(spec_link_num(addr) as nat)
}

/// Derives the stable link name of an allocated IPv4 subnet.
pub fn link_name(n: &Ipv4Net) -> (r: Vec<u8>)
    ensures
        r@ == spec_link_name(n.addr),
{
    let mut out: Vec<u8> = vec![110u8, 115, 112, 114, 111, 120, 121];
    let num: u32 = (n.addr & 0xFFFC) >> 2;
    push_decimal(num, &mut out);
    proof {
        assert(out@ =~= spec_link_name(n.addr));
    }
    out
}

/// Veth link naming is deterministic: two allocation runs that select the
/// same IPv4 subnet derive the same link name.
pub proof fn lemma_veth_name_deterministic(u1: Seq<u32>, u2: Seq<u32>, a1: u32, a2: u32)
    requires
        spec_alloc_v4(u1) == Some(a1),
        spec_alloc_v4(u2) == Some(a2),
        a1 == a2,
    ensures
        spec_link_name(a1) == spec_link_name(a2),
{
}

// ---------------------------------------------------------------------------
// The wired link description.
// ---------------------------------------------------------------------------

/// One wired veth link: the allocated pair subnets, the per-side
/// addresses, and the stable key that names the link.
#[derive(Debug)]
pub struct VethConn {
    pub subnet_veth: Ipv4Net,
    pub subnet6_veth: Ipv6Net,
    pub ip_va: Ipv4Net,
    pub ip_vb: Ipv4Net,
    pub ip6_va: Ipv6Net,
    pub ip6_vb: Ipv6Net,
    pub key: Vec<u8>,
}

impl VethConn {
    /// Chooses the addressing of a new veth pair against the used-address
    /// sets of the peer namespace: a fresh /30 and /126, the first two
    /// addresses of each as the two sides, and a key derived from the
    /// IPv4 subnet unless the caller supplied one.
    pub fn plan(used4: &Vec<u32>, used6: &Vec<u128>, key: Option<Vec<u8>>) -> (r: Result<
        VethConn,
        Error,
    >)
        ensures
            match r {
                Ok(vc) => {
                    &&& spec_alloc_v4(used4@) == Some(vc.subnet_veth.addr)
                    &&& spec_alloc_v6(used6@) == Some(vc.subnet6_veth.addr)
                    &&& vc.subnet_veth.prefix == 30
                    &&& vc.subnet6_veth.prefix == 126
                    &&& vc.ip_va.addr == vc.subnet_veth.addr && vc.ip_va.prefix == 30
                    &&& vc.ip_vb.addr == vc.subnet_veth.addr + 1 && vc.ip_vb.prefix == 30
                    &&& vc.ip6_va.addr == vc.subnet6_veth.addr && vc.ip6_va.prefix == 126
                    &&& vc.ip6_vb.addr == vc.subnet6_veth.addr + 1 && vc.ip6_vb.prefix == 126
                    &&& (match key {
                        Some(k) => vc.key@ == k@,
                        None => vc.key@ == spec_link_name(vc.subnet_veth.addr),
                    })
                },
                Err(e) => e == Error::Exhausted && (spec_alloc_v4(used4@) is None || spec_alloc_v6(
                    used6@,
                ) is None),
            },
    {
        let net4 = match alloc_v4(used4) {
            Ok(n) => n,
            Err(e) => {
                return Err(Error::Exhausted);
            },
        };
        let net6 = match alloc_v6(used6) {
            Ok(n) => n,
            Err(e) => {
                return Err(Error::Exhausted);
            },
        };
        let k = match key {
            Some(k) => k,
            None => link_name(&net4),
        };
        Ok(VethConn {
            subnet_veth: net4,
            subnet6_veth: net6,
            ip_va: Ipv4Net { addr: net4.addr, prefix: 30 },
            ip_vb: Ipv4Net { addr: net4.addr + 1, prefix: 30 },
            ip6_va: Ipv6Net { addr: net6.addr, prefix: 126 },
            ip6_vb: Ipv6Net { addr: net6.addr + 1, prefix: 126 },
            key: k,
        })
    }
}

} // verus!
