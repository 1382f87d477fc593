//! Routes for the tunnel, optionally leaving local networks outside of it.

use crate::ip_network::{
    all_well_formed, block_size, covered, covers_spec, in_net, lemma_block_sizes, lemma_halves_partition,
    lemma_halves_siblings, lemma_laminar, lemma_multiples_apart, ordered, in_sibling, sibling_base, sibling_covers, size_of, well_formed,
    aligned_block, IpAddress, Ipv4Net, Ipv6Net, Network,
};
use vstd::arithmetic::power2::{lemma2_to64, lemma_pow2_adds, pow2};
use vstd::prelude::*;

verus! {

/// A route: every address of the network `address/prefix` is sent through the tunnel.
#[derive(Clone, Copy, Debug, PartialEq, Eq, Structural)]
pub struct Route {
    pub address: IpAddress,
    pub prefix: u8,
}

/// Whether route `r` sends the address `a` through the tunnel.
pub open spec fn route_contains(r: Route, a: IpAddress) -> bool {
    match (r.address, a) {
        (IpAddress::V4(n), IpAddress::V4(x)) => r.prefix <= 32 && n <= x < n + block_size(
            32,
            r.prefix as nat,
        ),
        (IpAddress::V6(n), IpAddress::V6(x)) => r.prefix <= 128 && n <= x < n + block_size(
            128,
            r.prefix as nat,
        ),
        _ => false,
    }
}

/// Whether some route of `routes` sends `a` through the tunnel.
pub open spec fn routes_contain(routes: Seq<Route>, a: IpAddress) -> bool {
    exists|i: int| 0 <= i < routes.len() && #[trigger] route_contains(routes[i], a)
}

/// First address of a route, as an integer.
pub open spec fn route_start(r: Route) -> int {
    match r.address {
        IpAddress::V4(n) => n as int,
        IpAddress::V6(n) => n as int,
    }
}

/// One past the last address of a route, as an integer.
pub open spec fn route_end(r: Route) -> int {
    match r.address {
        IpAddress::V4(n) => n + block_size(32, r.prefix as nat),
        IpAddress::V6(n) => n + block_size(128, r.prefix as nat),
    }
}

pub open spec fn is_v4(a: IpAddress) -> bool {
    a is V4
}

/// The local network ranges, as `(network address, prefix)` pairs.
pub open spec fn lan_v4_blocks() -> Seq<(int, nat)> {
    seq![
        (0x0a00_0000, 8),  // private (RFC 1918)
        (0xac10_0000, 12),  // private (RFC 1918)
        (0xc0a8_0000, 16),  // private (RFC 1918)
        (0xa9fe_0000, 16),  // link-local (RFC 3927)
        (0xffff_ffff, 32),  // limited broadcast
        (0xe000_0000, 24),  // link-local multicast (RFC 5771)
        (0xef00_0000, 8),  // administratively scoped multicast (RFC 2365)
    ]
}

pub open spec fn lan_v6_blocks() -> Seq<(int, nat)> {
    seq![
        (0xfe80_0000_0000_0000_0000_0000_0000_0000, 10),  // link-local (RFC 4291)
        (0xfc00_0000_0000_0000_0000_0000_0000_0000, 7),  // unique local / ULA (RFC 4193)
        (0xff01_0000_0000_0000_0000_0000_0000_0000, 16),  // interface-local multicast
        (0xff02_0000_0000_0000_0000_0000_0000_0000, 16),  // link-local multicast
        (0xff03_0000_0000_0000_0000_0000_0000_0000, 16),  // realm-local multicast
        (0xff04_0000_0000_0000_0000_0000_0000_0000, 16),  // admin-local multicast
        (0xff05_0000_0000_0000_0000_0000_0000_0000, 16),  // site-local multicast
    ]
}

/// Whether `x` lies in one of the blocks of a `width`-bit address space.
pub open spec fn in_blocks(blocks: Seq<(int, nat)>, width: nat, x: int) -> bool {
    exists|i: int|
        0 <= i < blocks.len() && blocks[i].0 <= x < blocks[i].0 + block_size(width, #[trigger] blocks[i].1)
}

/// Whether the IPv4 address `x` is in a local network range.
pub open spec fn in_lan_v4(x: int) -> bool {
    in_blocks(lan_v4_blocks(), 32, x)
}

/// Whether the IPv6 address `x` is in a local network range.
pub open spec fn in_lan_v6(x: int) -> bool {
    in_blocks(lan_v6_blocks(), 128, x)
}

/// Whether an address goes through the tunnel: everything does unless local network access is
/// allowed, in which case local addresses bypass it, except the DNS servers.
pub open spec fn tunneled(dns_servers: Seq<IpAddress>, allow_local_network_access: bool, a: IpAddress) -> bool {
    !allow_local_network_access || dns_servers.contains(a) || match a {
        IpAddress::V4(x) => !in_lan_v4(x as int),
        IpAddress::V6(x) => !in_lan_v6(x as int),
    }
}

/// The weight of `n` in the termination measure of [`subtract`]: how many more splits it can cause.
spec fn split_weight<N: Network>(n: N, cut: N) -> nat {
    if covers_spec(n, cut) {
        (cut.prefix_len() - n.prefix_len() + 1) as nat
    } else {
        0
    }
}

spec fn weight<N: Network>(s: Seq<N>, cut: N) -> nat
    decreases s.len(),
{
    if s.len() == 0 {
        0
    } else {
        split_weight(s[0], cut) + weight(s.drop_first(), cut)
    }
}

proof fn lemma_weight_skip<N: Network>(s: Seq<N>, i: int, cut: N)
    requires
        0 <= i < s.len(),
    ensures
        weight(s.skip(i), cut) == split_weight(s[i], cut) + weight(s.skip(i + 1), cut),
{
    assert(s.skip(i).drop_first() =~= s.skip(i + 1));
    assert(s.skip(i)[0] == s[i]);
}

/// Removes the addresses of `cut` from the networks, splitting networks that strictly contain it.
pub fn subtract<N: Network>(networks: Vec<N>, cut: N) -> (r: Vec<N>)
    requires
        well_formed(cut),
        all_well_formed(networks@),
    ensures
        all_well_formed(r@),
        forall|x: int| #[trigger] covered(r@, x) <==> (covered(networks@, x) && !in_net(cut, x)),
        ordered(networks@) ==> ordered(r@),
        forall|j: int|
            0 <= j < r@.len() ==> networks@.contains(#[trigger] r@[j]) || sibling_covers(r@[j], cut),
{
    let ghost orig = networks@;
    let mut networks = networks;
    let mut i: usize = 0;
    while i < networks.len()
        invariant
            well_formed(cut),
            all_well_formed(networks@),
            i <= networks.len(),
            forall|j: int|
                0 <= j < i ==> !covers_spec(#[trigger] networks@[j], cut) && !covers_spec(
                    cut,
                    networks@[j],
                ),
            forall|x: int|
                #![trigger covered(networks@, x)]
                (covered(networks@, x) && !in_net(cut, x)) <==> (covered(orig, x) && !in_net(cut, x)),
            ordered(orig) ==> ordered(networks@),
            forall|j: int|
                0 <= j < networks@.len() ==> orig.contains(#[trigger] networks@[j]) || sibling_covers(
                    networks@[j],
                    cut,
                ) || covers_spec(networks@[j], cut),
        decreases networks.len() - i + 2 * weight(networks@.skip(i as int), cut),
    {
        let net = networks[i];
        let ghost old_nets = networks@;
        proof {
            assert(well_formed(old_nets[i as int]));
            lemma_weight_skip(old_nets, i as int, cut);
        }
        if cut.covers(net) {
            networks.remove(i);
            proof {
                lemma_laminar(cut, net);
                assert(networks@.skip(i as int) =~= old_nets.skip(i + 1));
                assert forall|x: int| !in_net(cut, x) implies (covered(networks@, x) <==> covered(old_nets, x)) by {
                    if covered(old_nets, x) {
                        let j = choose|j: int| 0 <= j < old_nets.len() && #[trigger] in_net(old_nets[j], x);
                        assert(j != i);
                        if j < i {
                            assert(in_net(networks@[j], x));
                        } else {
                            assert(in_net(networks@[j - 1], x));
                        }
                    }
                    if covered(networks@, x) {
                        let j = choose|j: int| 0 <= j < networks@.len() && #[trigger] in_net(networks@[j], x);
                        if j < i {
                            assert(in_net(old_nets[j], x));
                        } else {
                            assert(in_net(old_nets[j + 1], x));
                        }
                    }
                }
                assert forall|j: int| 0 <= j < networks@.len() implies orig.contains(#[trigger] networks@[j])
                    || sibling_covers(networks@[j], cut) || covers_spec(networks@[j], cut) by {
                    let jj = if j < i { j } else { j + 1 };
                    assert(networks@[j] == old_nets[jj]);
                }
                assert forall|j: int, k: int|
                    ordered(old_nets) && 0 <= j < k < networks@.len() implies #[trigger] networks@[j].base()
                    + size_of(networks@[j]) <= #[trigger] networks@[k].base() by {
                    let jj = if j < i { j } else { j + 1 };
                    let kk = if k < i { k } else { k + 1 };
                    assert(old_nets[jj].base() + size_of(old_nets[jj]) <= old_nets[kk].base());
                }
            }
        } else if net.covers(cut) {
            proof {
                lemma_laminar(net, cut);
                lemma_laminar(cut, net);
                if net.prefix_len() == cut.prefix_len() {
                    lemma_same_prefix_same_block(net, cut);
                }
                assert(net.prefix_len() < cut.prefix_len());
            }
            let (low, high) = net.halves();
            proof {
                lemma_halves_partition(net, low, high);
                lemma_halves_siblings(net, low, high);
                lemma_halves_weight(net, low, high, cut);
                assert(in_net(net, cut.base()));
                if in_net(low, cut.base()) {
                    assert(covers_spec(low, cut));
                    assert(sibling_covers(high, cut));
                } else {
                    assert(covers_spec(high, cut));
                    assert(sibling_covers(low, cut));
                }
            }
            networks.set(i, low);
            networks.insert(i + 1, high);
            proof {
                let s = networks@;
                assert(s[i as int] == low);
                assert(s[i + 1] == high);
                lemma_weight_skip(s, i as int, cut);
                lemma_weight_skip(s, i + 1, cut);
                assert(s.skip(i + 2) =~= old_nets.skip(i + 1));
                assert forall|k: int| 0 <= k < s.len() implies #[trigger] well_formed(s[k]) by {
                    if k < i {
                        assert(s[k] == old_nets[k]);
                    } else if k > i + 1 {
                        assert(s[k] == old_nets[k - 1]);
                    }
                }
                assert forall|j: int| 0 <= j < i implies !covers_spec(#[trigger] s[j], cut) && !covers_spec(cut, s[j]) by {
                    assert(s[j] == old_nets[j]);
                }
                assert forall|j: int| 0 <= j < s.len() implies orig.contains(#[trigger] s[j]) || sibling_covers(s[j], cut)
                    || covers_spec(s[j], cut) by {
                    if j < i {
                        assert(s[j] == old_nets[j]);
                    } else if j > i + 1 {
                        assert(s[j] == old_nets[j - 1]);
                    }
                }
                assert forall|x: int| covered(s, x) <==> covered(old_nets, x) by {
                    if covered(old_nets, x) {
                        let j = choose|j: int| 0 <= j < old_nets.len() && #[trigger] in_net(old_nets[j], x);
                        if j < i {
                            assert(in_net(s[j], x));
                        } else if j > i {
                            assert(in_net(s[j + 1], x));
                        } else if in_net(low, x) {
                            assert(in_net(s[i as int], x));
                        } else {
                            assert(in_net(s[i + 1], x));
                        }
                    }
                    if covered(s, x) {
                        let j = choose|j: int| 0 <= j < s.len() && #[trigger] in_net(s[j], x);
                        if j < i {
                            assert(in_net(old_nets[j], x));
                        } else if j > i + 1 {
                            assert(in_net(old_nets[j - 1], x));
                        } else {
                            assert(in_net(old_nets[i as int], x));
                        }
                    }
                }
                assert forall|j: int, k: int|
                    ordered(old_nets) && 0 <= j < k < s.len() implies #[trigger] s[j].base() + size_of(s[j])
                    <= #[trigger] s[k].base() by {
                    let jj = if j <= i { j } else { j - 1 };
                    let kk = if k <= i { k } else { k - 1 };
                    if jj < kk {
                        assert(old_nets[jj].base() + size_of(old_nets[jj]) <= old_nets[kk].base());
                    }
                }
            }
        } else {
            proof {
                assert(split_weight(net, cut) == 0);
            }
            i += 1;
        }
    }
    proof {
        assert forall|x: int| covered(networks@, x) implies !in_net(cut, x) by {
            let j = choose|j: int| 0 <= j < networks@.len() && #[trigger] in_net(networks@[j], x);
            lemma_laminar(networks@[j], cut);
        }
    }
    networks
}

proof fn lemma_same_prefix_same_block<N: Network>(a: N, b: N)
    requires
        well_formed(a),
        well_formed(b),
        a.prefix_len() == b.prefix_len(),
        in_net(a, b.base()),
    ensures
        a.base() == b.base(),
{
    lemma_laminar(a, b);
    if a.base() < b.base() {
        lemma_block_sizes(N::width(), a.prefix_len(), a.prefix_len());
        lemma_multiples_apart(a.base(), b.base(), size_of(a));
    }
}

/// Splitting a network that strictly contains `cut` lowers the split weight by one.
proof fn lemma_halves_weight<N: Network>(net: N, low: N, high: N, cut: N)
    requires
        well_formed(net),
        well_formed(low),
        well_formed(high),
        well_formed(cut),
        covers_spec(net, cut),
        net.prefix_len() < cut.prefix_len(),
        low.prefix_len() == net.prefix_len() + 1,
        high.prefix_len() == net.prefix_len() + 1,
        low.base() == net.base(),
        high.base() == net.base() + size_of(low),
        size_of(net) == 2 * size_of(low),
    ensures
        split_weight(low, cut) + split_weight(high, cut) + 1 == split_weight(net, cut),
{
}

/// Removes the addresses of every network of `cuts` from `networks`.
pub fn subtract_all<N: Network>(networks: Vec<N>, cuts: &Vec<N>) -> (r: Vec<N>)
    requires
        all_well_formed(networks@),
        all_well_formed(cuts@),
    ensures
        all_well_formed(r@),
        forall|x: int| #[trigger] covered(r@, x) <==> (covered(networks@, x) && !covered(cuts@, x)),
        ordered(networks@) ==> ordered(r@),
        forall|j: int|
            0 <= j < r@.len() ==> networks@.contains(#[trigger] r@[j]) || exists|k: int|
                0 <= k < cuts@.len() && #[trigger] sibling_covers(r@[j], cuts@[k]),
{
    let ghost orig = networks@;
    let mut result = networks;
    let mut k: usize = 0;
    while k < cuts.len()
        invariant
            k <= cuts.len(),
            all_well_formed(cuts@),
            all_well_formed(result@),
            forall|x: int|
                #[trigger] covered(result@, x) <==> (covered(orig, x) && !covered(cuts@.take(k as int), x)),
            ordered(orig) ==> ordered(result@),
            forall|j: int|
                0 <= j < result@.len() ==> orig.contains(#[trigger] result@[j]) || exists|c: int|
                    0 <= c < k && #[trigger] sibling_covers(result@[j], cuts@[c]),
        decreases cuts.len() - k,
    {
        let cut = cuts[k];
        proof {
            assert(well_formed(cuts@[k as int]));
        }
        let ghost before = result@;
        result = subtract(result, cut);
        proof {
            assert forall|x: int| covered(cuts@.take(k + 1), x) <==> (covered(cuts@.take(k as int), x) || in_net(cut, x)) by {
                let t = cuts@.take(k as int);
                let t1 = cuts@.take(k + 1);
                if covered(t1, x) {
                    let j = choose|j: int| 0 <= j < t1.len() && #[trigger] in_net(t1[j], x);
                    if j < k {
                        assert(in_net(t[j], x));
                    }
                }
                if covered(t, x) {
                    let j = choose|j: int| 0 <= j < t.len() && #[trigger] in_net(t[j], x);
                    assert(in_net(t1[j], x));
                }
                if in_net(cut, x) {
                    assert(in_net(t1[k as int], x));
                }
            }
            assert forall|j: int| 0 <= j < result@.len() implies orig.contains(#[trigger] result@[j]) || exists|c: int|
                0 <= c < k + 1 && #[trigger] sibling_covers(result@[j], cuts@[c]) by {
                if before.contains(result@[j]) {
                    let jj = choose|jj: int| 0 <= jj < before.len() && before[jj] == result@[j];
                    assert(orig.contains(before[jj]) || exists|c: int|
                        0 <= c < k && #[trigger] sibling_covers(before[jj], cuts@[c]));
                } else {
                    assert(sibling_covers(result@[j], cuts@[k as int]));
                }
            }
            assert forall|x: int| covered(result@, x) <==> (covered(orig, x) && !covered(cuts@.take(k + 1), x)) by {
                assert(covered(result@, x) <==> (covered(before, x) && !in_net(cut, x)));
                assert(covered(before, x) <==> (covered(orig, x) && !covered(cuts@.take(k as int), x)));
            }
        }
        k += 1;
    }
    proof {
        assert(cuts@.take(cuts@.len() as int) =~= cuts@);
        assert forall|x: int| covered(result@, x) <==> (covered(orig, x) && !covered(cuts@, x)) by {
            assert(covered(result@, x) <==> (covered(orig, x) && !covered(cuts@.take(k as int), x)));
        }
    }
    result
}

/// What subtracting `cuts` from `orig` leaves cannot be written with fewer networks: a network
/// of the result that is not one of `orig` has another half holding an address that the result
/// leaves out, so it never joins with other networks of the result into a larger block.
pub proof fn lemma_subtract_all_minimal<N: Network>(orig: Seq<N>, cuts: Seq<N>, result: Seq<N>, j: int)
    requires
        all_well_formed(cuts),
        forall|x: int| #[trigger] covered(result, x) <==> (covered(orig, x) && !covered(cuts, x)),
        forall|jj: int|
            0 <= jj < result.len() ==> orig.contains(#[trigger] result[jj]) || exists|k: int|
                0 <= k < cuts.len() && #[trigger] sibling_covers(result[jj], cuts[k]),
        0 <= j < result.len(),
        !orig.contains(result[j]),
    ensures
        exists|x: int| in_sibling(result[j], x) && !covered(result, x),
{
    assert(orig.contains(result[j]) || exists|k: int| 0 <= k < cuts.len() && #[trigger] sibling_covers(result[j], cuts[k]));
    let k = choose|k: int| 0 <= k < cuts.len() && #[trigger] sibling_covers(result[j], cuts[k]);
    let c = cuts[k];
    assert(well_formed(c));
    lemma_block_sizes(N::width(), c.prefix_len(), c.prefix_len());
    assert(in_net(c, c.base()));
    assert(covered(cuts, c.base()));
    assert(!covered(result, c.base()));
    assert(in_sibling(result[j], c.base()));
}

proof fn lemma_lan_v4_aligned()
    ensures
        forall|j: int| 0 <= j < 7 ==> aligned_block(32, lan_v4_blocks()[j].0, lan_v4_blocks()[j].1),
{
    lemma2_to64();
    let b = lan_v4_blocks();
    assert(b[0] == (0xa000000int, 8nat));
    assert(block_size(32, 8) == 0x1000000);
    assert(aligned_block(32, b[0].0, b[0].1));
    assert(b[1] == (0xac100000int, 12nat));
    assert(block_size(32, 12) == 0x100000);
    assert(aligned_block(32, b[1].0, b[1].1));
    assert(b[2] == (0xc0a80000int, 16nat));
    assert(block_size(32, 16) == 0x10000);
    assert(aligned_block(32, b[2].0, b[2].1));
    assert(b[3] == (0xa9fe0000int, 16nat));
    assert(block_size(32, 16) == 0x10000);
    assert(aligned_block(32, b[3].0, b[3].1));
    assert(b[4] == (0xffffffffint, 32nat));
    assert(block_size(32, 32) == 0x1);
    assert(aligned_block(32, b[4].0, b[4].1));
    assert(b[5] == (0xe0000000int, 24nat));
    assert(block_size(32, 24) == 0x100);
    assert(aligned_block(32, b[5].0, b[5].1));
    assert(b[6] == (0xef000000int, 8nat));
    assert(block_size(32, 8) == 0x1000000);
    assert(aligned_block(32, b[6].0, b[6].1));
}

/// The local IPv4 networks.
fn lan_v4() -> (r: Vec<Ipv4Net>)
    ensures
        all_well_formed(r@),
        forall|x: int| #[trigger] covered(r@, x) <==> in_lan_v4(x),
{
    proof {
        lemma_lan_v4_aligned();
    }
    let blocks: [(u32, u8); 7] = [
        (0x0a00_0000, 8),
        (0xac10_0000, 12),
        (0xc0a8_0000, 16),
        (0xa9fe_0000, 16),
        (0xffff_ffff, 32),
        (0xe000_0000, 24),
        (0xef00_0000, 8),
    ];
    let mut r: Vec<Ipv4Net> = Vec::new();
    let mut i: usize = 0;
    while i < 7
        invariant
            i <= 7,
            r@.len() == i,
            blocks@.len() == 7,
            forall|j: int| 0 <= j < 7 ==> blocks@[j].0 == lan_v4_blocks()[j].0 && blocks@[j].1 == lan_v4_blocks()[j].1,
            forall|j: int| 0 <= j < 7 ==> aligned_block(32, lan_v4_blocks()[j].0, lan_v4_blocks()[j].1),
            forall|j: int| 0 <= j < i ==> #[trigger] well_formed(r@[j]) && r@[j].base() == lan_v4_blocks()[j].0
                && r@[j].prefix_len() == lan_v4_blocks()[j].1,
        decreases 7 - i,
    {
        let (addr, prefix) = blocks[i];
        let net = Ipv4Net::new(addr, prefix).unwrap();
        r.push(net);
        i += 1;
    }
    proof {
        assert forall|x: int| covered(r@, x) <==> in_lan_v4(x) by {
            if covered(r@, x) {
                let j = choose|j: int| 0 <= j < r@.len() && #[trigger] in_net(r@[j], x);
                assert(well_formed(r@[j]));
                assert(lan_v4_blocks()[j].0 <= x < lan_v4_blocks()[j].0 + block_size(32, lan_v4_blocks()[j].1));
            }
            if in_lan_v4(x) {
                let j = choose|j: int|
                    0 <= j < lan_v4_blocks().len() && lan_v4_blocks()[j].0 <= x < lan_v4_blocks()[j].0
                        + block_size(32, #[trigger] lan_v4_blocks()[j].1);
                assert(well_formed(r@[j]));
                assert(in_net(r@[j], x));
            }
        }
    }
    r
}

/// Powers of two used by the IPv6 network constants.
proof fn lemma_pow2_values()
    ensures
        pow2(32) == 0x1_0000_0000,
        pow2(112) == 0x10000000000000000000000000000,
        pow2(118) == 0x400000000000000000000000000000,
        pow2(121) == 0x2000000000000000000000000000000,
        pow2(128) == 0x100000000000000000000000000000000,
{
    lemma2_to64();
    lemma_pow2_adds(64, 32);
    lemma_pow2_adds(96, 16);
    lemma_pow2_adds(96, 22);
    lemma_pow2_adds(96, 25);
    lemma_pow2_adds(64, 64);
}

proof fn lemma_lan_v6_aligned()
    ensures
        forall|j: int| 0 <= j < 7 ==> aligned_block(128, lan_v6_blocks()[j].0, lan_v6_blocks()[j].1),
{
    lemma_pow2_values();
    let b = lan_v6_blocks();
    assert(b[0] == (0xfe800000000000000000000000000000int, 10nat));
    assert(block_size(128, 10) == 0x400000000000000000000000000000);
    assert(aligned_block(128, b[0].0, b[0].1));
    assert(b[1] == (0xfc000000000000000000000000000000int, 7nat));
    assert(block_size(128, 7) == 0x2000000000000000000000000000000);
    assert(aligned_block(128, b[1].0, b[1].1));
    assert(b[2] == (0xff010000000000000000000000000000int, 16nat));
    assert(block_size(128, 16) == 0x10000000000000000000000000000);
    assert(aligned_block(128, b[2].0, b[2].1));
    assert(b[3] == (0xff020000000000000000000000000000int, 16nat));
    assert(block_size(128, 16) == 0x10000000000000000000000000000);
    assert(aligned_block(128, b[3].0, b[3].1));
    assert(b[4] == (0xff030000000000000000000000000000int, 16nat));
    assert(block_size(128, 16) == 0x10000000000000000000000000000);
    assert(aligned_block(128, b[4].0, b[4].1));
    assert(b[5] == (0xff040000000000000000000000000000int, 16nat));
    assert(block_size(128, 16) == 0x10000000000000000000000000000);
    assert(aligned_block(128, b[5].0, b[5].1));
    assert(b[6] == (0xff050000000000000000000000000000int, 16nat));
    assert(block_size(128, 16) == 0x10000000000000000000000000000);
    assert(aligned_block(128, b[6].0, b[6].1));
}

/// The local IPv6 networks.
fn lan_v6() -> (r: Vec<Ipv6Net>)
    ensures
        all_well_formed(r@),
        forall|x: int| #[trigger] covered(r@, x) <==> in_lan_v6(x),
{
    proof {
        lemma_lan_v6_aligned();
    }
    let blocks: [(u128, u8); 7] = [
        (0xfe800000000000000000000000000000, 10),
        (0xfc000000000000000000000000000000, 7),
        (0xff010000000000000000000000000000, 16),
        (0xff020000000000000000000000000000, 16),
        (0xff030000000000000000000000000000, 16),
        (0xff040000000000000000000000000000, 16),
        (0xff050000000000000000000000000000, 16),
    ];
    let mut r: Vec<Ipv6Net> = Vec::new();
    let mut i: usize = 0;
    while i < 7
        invariant
            i <= 7,
            r@.len() == i,
            blocks@.len() == 7,
            forall|j: int| 0 <= j < 7 ==> blocks@[j].0 == lan_v6_blocks()[j].0 && blocks@[j].1 == lan_v6_blocks()[j].1,
            forall|j: int| 0 <= j < 7 ==> aligned_block(128, lan_v6_blocks()[j].0, lan_v6_blocks()[j].1),
            forall|j: int| 0 <= j < i ==> #[trigger] well_formed(r@[j]) && r@[j].base() == lan_v6_blocks()[j].0
                && r@[j].prefix_len() == lan_v6_blocks()[j].1,
        decreases 7 - i,
    {
        let (addr, prefix) = blocks[i];
        let net = Ipv6Net::new(addr, prefix).unwrap();
        r.push(net);
        i += 1;
    }
    proof {
        assert forall|x: int| covered(r@, x) <==> in_lan_v6(x) by {
            if covered(r@, x) {
                let j = choose|j: int| 0 <= j < r@.len() && #[trigger] in_net(r@[j], x);
                assert(well_formed(r@[j]));
                assert(lan_v6_blocks()[j].0 <= x < lan_v6_blocks()[j].0 + block_size(128, lan_v6_blocks()[j].1));
            }
            if in_lan_v6(x) {
                let j = choose|j: int|
                    0 <= j < lan_v6_blocks().len() && lan_v6_blocks()[j].0 <= x < lan_v6_blocks()[j].0
                        + block_size(128, #[trigger] lan_v6_blocks()[j].1);
                assert(well_formed(r@[j]));
                assert(in_net(r@[j], x));
            }
        }
    }
    r
}

/// The numeric value of an address.
pub open spec fn addr_value(a: IpAddress) -> int {
    match a {
        IpAddress::V4(x) => x as int,
        IpAddress::V6(x) => x as int,
    }
}

/// Whether `dns` lists an address of the given family with numeric value `x`.
pub open spec fn lists_address(dns: Seq<IpAddress>, v4: bool, x: int) -> bool {
    exists|j: int| 0 <= j < dns.len() && is_v4(#[trigger] dns[j]) == v4 && addr_value(dns[j]) == x
}

/// Single-address networks for the DNS servers, split by family.
fn dns_networks(dns_servers: &[IpAddress]) -> (r: (Vec<Ipv4Net>, Vec<Ipv6Net>))
    ensures
        all_well_formed(r.0@),
        all_well_formed(r.1@),
        forall|x: int| #[trigger] covered(r.0@, x) <==> lists_address(dns_servers@, true, x),
        forall|x: int| #[trigger] covered(r.1@, x) <==> lists_address(dns_servers@, false, x),
{
    let mut v4: Vec<Ipv4Net> = Vec::new();
    let mut v6: Vec<Ipv6Net> = Vec::new();
    let mut k: usize = 0;
    proof {
        lemma2_to64();
        lemma_pow2_values();
    }
    while k < dns_servers.len()
        invariant
            k <= dns_servers@.len(),
            all_well_formed(v4@),
            all_well_formed(v6@),
            block_size(32, 32) == 1,
            block_size(128, 128) == 1,
            forall|x: int| #[trigger] covered(v4@, x) <==> lists_address(dns_servers@.take(k as int), true, x),
            forall|x: int| #[trigger] covered(v6@, x) <==> lists_address(dns_servers@.take(k as int), false, x),
        decreases dns_servers@.len() - k,
    {
        let ghost t = dns_servers@.take(k as int);
        let ghost t1 = dns_servers@.take(k + 1);
        let ghost old4 = v4@;
        let ghost old6 = v6@;
        proof {
            assert(t1 =~= t.push(dns_servers@[k as int]));
        }
        match dns_servers[k] {
            IpAddress::V4(a) => {
                let net = Ipv4Net::new(a, 32).unwrap();
                v4.push(net);
                proof {
                    assert forall|x: int| covered(v4@, x) <==> lists_address(t1, true, x) by {
                        if covered(v4@, x) {
                            let j = choose|j: int| 0 <= j < v4@.len() && #[trigger] in_net(v4@[j], x);
                            if j < old4.len() {
                                assert(v4@[j] == old4[j]);
                                assert(in_net(old4[j], x));
                                assert(covered(old4, x));
                                assert(lists_address(t, true, x));
                                let m = choose|m: int| 0 <= m < t.len() && is_v4(#[trigger] t[m]) == true && addr_value(t[m]) == x;
                                assert(t1[m] == t[m]);
                            } else {
                                assert(t1[k as int] == IpAddress::V4(a));
                            }
                        }
                        if lists_address(t1, true, x) {
                            let m = choose|m: int| 0 <= m < t1.len() && is_v4(#[trigger] t1[m]) == true && addr_value(t1[m]) == x;
                            if m < k {
                                assert(t[m] == t1[m]);
                                assert(lists_address(t, true, x));
                                assert(covered(old4, x));
                                let j = choose|j: int| 0 <= j < old4.len() && #[trigger] in_net(old4[j], x);
                                assert(v4@[j] == old4[j]);
                                assert(in_net(v4@[j], x));
                            } else {
                                assert(in_net(v4@[old4.len() as int], x));
                            }
                        }
                    }
                    assert forall|x: int| covered(v6@, x) <==> lists_address(t1, false, x) by {
                        if lists_address(t1, false, x) {
                            let m = choose|m: int| 0 <= m < t1.len() && is_v4(#[trigger] t1[m]) == false && addr_value(t1[m]) == x;
                            assert(t[m] == t1[m]);
                        }
                        if lists_address(t, false, x) {
                            let m = choose|m: int| 0 <= m < t.len() && is_v4(#[trigger] t[m]) == false && addr_value(t[m]) == x;
                            assert(t[m] == t1[m]);
                        }
                    }
                }
            },
            IpAddress::V6(a) => {
                let net = Ipv6Net::new(a, 128).unwrap();
                v6.push(net);
                proof {
                    assert forall|x: int| covered(v6@, x) <==> lists_address(t1, false, x) by {
                        if covered(v6@, x) {
                            let j = choose|j: int| 0 <= j < v6@.len() && #[trigger] in_net(v6@[j], x);
                            if j < old6.len() {
                                assert(v6@[j] == old6[j]);
                                assert(in_net(old6[j], x));
                                assert(covered(old6, x));
                                assert(lists_address(t, false, x));
                                let m = choose|m: int| 0 <= m < t.len() && is_v4(#[trigger] t[m]) == false && addr_value(t[m]) == x;
                                assert(t1[m] == t[m]);
                            } else {
                                assert(t1[k as int] == IpAddress::V6(a));
                            }
                        }
                        if lists_address(t1, false, x) {
                            let m = choose|m: int| 0 <= m < t1.len() && is_v4(#[trigger] t1[m]) == false && addr_value(t1[m]) == x;
                            if m < k {
                                assert(t[m] == t1[m]);
                                assert(lists_address(t, false, x));
                                assert(covered(old6, x));
                                let j = choose|j: int| 0 <= j < old6.len() && #[trigger] in_net(old6[j], x);
                                assert(v6@[j] == old6[j]);
                                assert(in_net(v6@[j], x));
                            } else {
                                assert(in_net(v6@[old6.len() as int], x));
                            }
                        }
                    }
                    assert forall|x: int| covered(v4@, x) <==> lists_address(t1, true, x) by {
                        if lists_address(t1, true, x) {
                            let m = choose|m: int| 0 <= m < t1.len() && is_v4(#[trigger] t1[m]) == true && addr_value(t1[m]) == x;
                            assert(t[m] == t1[m]);
                        }
                        if lists_address(t, true, x) {
                            let m = choose|m: int| 0 <= m < t.len() && is_v4(#[trigger] t[m]) == true && addr_value(t[m]) == x;
                            assert(t[m] == t1[m]);
                        }
                    }
                }
            },
        }
        k += 1;
    }
    proof {
        assert(dns_servers@.take(k as int) =~= dns_servers@);
    }
    (v4, v6)
}

/// The route for an IPv4 network.
pub open spec fn v4_route(n: Ipv4Net) -> Route {
    Route { address: IpAddress::V4(n.base() as u32), prefix: n.prefix_len() as u8 }
}

/// The route for an IPv6 network.
pub open spec fn v6_route(n: Ipv6Net) -> Route {
    Route { address: IpAddress::V6(n.base() as u128), prefix: n.prefix_len() as u8 }
}

/// The route of a well-formed network contains exactly the network's addresses.
proof fn lemma_v4_route(n: Ipv4Net)
    requires
        well_formed(n),
    ensures
        forall|a: IpAddress| #[trigger] route_contains(v4_route(n), a) <==> (is_v4(a) && in_net(n, addr_value(a))),
        route_start(v4_route(n)) == n.base(),
        route_end(v4_route(n)) == n.base() + size_of(n),
        is_v4(v4_route(n).address),
        aligned_block(32, route_start(v4_route(n)), v4_route(n).prefix as nat),
{
    lemma2_to64();
}

proof fn lemma_v6_route(n: Ipv6Net)
    requires
        well_formed(n),
    ensures
        forall|a: IpAddress| #[trigger] route_contains(v6_route(n), a) <==> (!is_v4(a) && in_net(n, addr_value(a))),
        route_start(v6_route(n)) == n.base(),
        route_end(v6_route(n)) == n.base() + size_of(n),
        !is_v4(v6_route(n).address),
        aligned_block(128, route_start(v6_route(n)), v6_route(n).prefix as nat),
{
    lemma_pow2_values();
}

/// Whether the route is a well-formed CIDR block of its family.
pub open spec fn route_well_formed(r: Route) -> bool {
    match r.address {
        IpAddress::V4(n) => aligned_block(32, n as int, r.prefix as nat),
        IpAddress::V6(n) => aligned_block(128, n as int, r.prefix as nat),
    }
}

/// The routes for every address of the tunnel when local network access is not allowed.
pub open spec fn full_tunnel_routes() -> Seq<Route> {
    seq![
        Route { address: IpAddress::V4(0), prefix: 0 },
        Route { address: IpAddress::V6(0), prefix: 0 },
    ]
}

/// Whether the other half of the block that route `r` is half of holds the address `a`: then the
/// route cannot be joined with its other half into one route of a shorter prefix without routing
/// `a` too.
pub open spec fn route_sibling_contains(r: Route, a: IpAddress) -> bool {
    let s = route_end(r) - route_start(r);
    let b = route_start(r);
    let sibling = if (b / s) % 2 == 0 {
        b + s
    } else {
        b - s
    };
    is_v4(a) == is_v4(r.address) && sibling <= addr_value(a) < sibling + s
}

/// A route of the IPv4 networks left of the whole space after removing the local networks
/// (`local`, those of the LAN ranges that are not DNS servers): the whole space, or a block whose
/// other half holds an address that goes outside the tunnel.
proof fn lemma_v4_route_maximal(dns: Seq<IpAddress>, local: Seq<Ipv4Net>, all: Ipv4Net, n: Ipv4Net)
    requires
        all.prefix_len() == 0,
        well_formed(n),
        all_well_formed(local),
        forall|x: int| #[trigger] covered(local, x) <==> (in_lan_v4(x) && !lists_address(dns, true, x)),
        seq![all].contains(n) || exists|k: int| 0 <= k < local.len() && #[trigger] sibling_covers(n, local[k]),
    ensures
        v4_route(n).prefix == 0 || exists|a: IpAddress| #[trigger] route_sibling_contains(v4_route(n), a) && !tunneled(
            dns,
            true,
            a,
        ),
{
    lemma_v4_route(n);
    lemma2_to64();
    if seq![all].contains(n) {
        assert(seq![all][0] == n);
    } else {
        let k = choose|k: int| 0 <= k < local.len() && #[trigger] sibling_covers(n, local[k]);
        let c = local[k];
        assert(well_formed(c));
        assert(in_net(c, c.base())) by {
            lemma_block_sizes(32, c.prefix_len(), c.prefix_len());
        }
        assert(covered(local, c.base()));
        let a = IpAddress::V4(c.base() as u32);
        assert(addr_value(a) == c.base());
        assert(sibling_base(n) <= c.base() < sibling_base(n) + size_of(n));
        assert(route_sibling_contains(v4_route(n), a));
        if dns.contains(a) {
            let m = choose|m: int| 0 <= m < dns.len() && dns[m] == a;
            assert(is_v4(dns[m]) == true && addr_value(dns[m]) == c.base());
        }
        assert(!tunneled(dns, true, a));
    }
}

proof fn lemma_v6_route_maximal(dns: Seq<IpAddress>, local: Seq<Ipv6Net>, all: Ipv6Net, n: Ipv6Net)
    requires
        all.prefix_len() == 0,
        well_formed(n),
        all_well_formed(local),
        forall|x: int| #[trigger] covered(local, x) <==> (in_lan_v6(x) && !lists_address(dns, false, x)),
        seq![all].contains(n) || exists|k: int| 0 <= k < local.len() && #[trigger] sibling_covers(n, local[k]),
    ensures
        v6_route(n).prefix == 0 || exists|a: IpAddress| #[trigger] route_sibling_contains(v6_route(n), a) && !tunneled(
            dns,
            true,
            a,
        ),
{
    lemma_v6_route(n);
    lemma_pow2_values();
    if seq![all].contains(n) {
        assert(seq![all][0] == n);
    } else {
        let k = choose|k: int| 0 <= k < local.len() && #[trigger] sibling_covers(n, local[k]);
        let c = local[k];
        assert(well_formed(c));
        assert(in_net(c, c.base())) by {
            lemma_block_sizes(128, c.prefix_len(), c.prefix_len());
        }
        assert(covered(local, c.base()));
        let a = IpAddress::V6(c.base() as u128);
        assert(addr_value(a) == c.base());
        assert(sibling_base(n) <= c.base() < sibling_base(n) + size_of(n));
        assert(route_sibling_contains(v6_route(n), a));
        if dns.contains(a) {
            let m = choose|m: int| 0 <= m < dns.len() && dns[m] == a;
            assert(is_v4(dns[m]) == false && addr_value(dns[m]) == c.base());
        }
        assert(!tunneled(dns, true, a));
    }
}

/// The routes that send traffic through the tunnel. All traffic goes through the tunnel unless
/// local network access is allowed; then the local network ranges bypass it, except for the DNS
/// servers in them.
pub fn tunnel_routes(dns_servers: &[IpAddress], allow_local_network_access: bool) -> (r: Vec<Route>)
    ensures
        forall|a: IpAddress| #[trigger] routes_contain(r@, a) <==> tunneled(dns_servers@, allow_local_network_access, a),
        !allow_local_network_access ==> r@ == full_tunnel_routes(),
        forall|i: int| 0 <= i < r@.len() ==> #[trigger] route_well_formed(r@[i]),
        forall|i: int, j: int|
            0 <= i < j < r@.len() && is_v4(#[trigger] r@[j].address) ==> is_v4(#[trigger] r@[i].address),
        forall|i: int, j: int|
            0 <= i < j < r@.len() && is_v4(r@[i].address) == is_v4(r@[j].address) ==> route_end(#[trigger] r@[i])
                <= route_start(#[trigger] r@[j]),
        forall|i: int|
            0 <= i < r@.len() ==> r@[i].prefix == 0 || exists|a: IpAddress|
                #[trigger] route_sibling_contains(r@[i], a) && !tunneled(dns_servers@, allow_local_network_access, a),
{
    proof {
        lemma_pow2_values();
    }
    if !allow_local_network_access {
        let r = vec![Route { address: IpAddress::V4(0), prefix: 0 }, Route { address: IpAddress::V6(0), prefix: 0 }];
        proof {
            assert(r@ =~= full_tunnel_routes());
            assert forall|a: IpAddress| #[trigger] routes_contain(r@, a) <==> tunneled(dns_servers@, allow_local_network_access, a) by {
                match a {
                    IpAddress::V4(x) => assert(route_contains(r@[0], a)),
                    IpAddress::V6(x) => assert(route_contains(r@[1], a)),
                }
            }
        }
        return r;
    }
    let (dns_v4, dns_v6) = dns_networks(dns_servers);
    let local_v4 = subtract_all(lan_v4(), &dns_v4);
    let local_v6 = subtract_all(lan_v6(), &dns_v6);
    let all_v4 = Ipv4Net::new(0, 0).unwrap();
    let all_v6 = Ipv6Net::new(0, 0).unwrap();
    let ghost start4 = seq![all_v4];
    let ghost start6 = seq![all_v6];
    proof {
        assert(all_well_formed(start4));
        assert(all_well_formed(start6));
        assert(ordered(start4));
        assert(ordered(start6));
    }
    let first4 = vec![all_v4];
    let first6 = vec![all_v6];
    proof {
        assert(first4@ =~= start4);
        assert(first6@ =~= start6);
    }
    let v4 = subtract_all(first4, &local_v4);
    let v6 = subtract_all(first6, &local_v6);
    let mut routes: Vec<Route> = Vec::new();
    let mut i: usize = 0;
    while i < v4.len()
        invariant
            i <= v4@.len(),
            all_well_formed(v4@),
            routes@ =~= v4@.take(i as int).map_values(|n: Ipv4Net| v4_route(n)),
        decreases v4@.len() - i,
    {
        let n = v4[i];
        proof {
            assert(well_formed(v4@[i as int]));
        }
        routes.push(Route { address: IpAddress::V4(n.network()), prefix: n.prefix() });
        proof {
            assert(v4@.take(i + 1) =~= v4@.take(i as int).push(n));
        }
        i += 1;
    }
    let mut i: usize = 0;
    let ghost n4 = v4@.len();
    while i < v6.len()
        invariant
            i <= v6@.len(),
            n4 == v4@.len(),
            all_well_formed(v6@),
            routes@ =~= v4@.map_values(|n: Ipv4Net| v4_route(n)) + v6@.take(i as int).map_values(
                |n: Ipv6Net| v6_route(n),
            ),
        decreases v6@.len() - i,
    {
        let n = v6[i];
        proof {
            assert(well_formed(v6@[i as int]));
            assert(v4@.take(n4 as int) =~= v4@);
        }
        routes.push(Route { address: IpAddress::V6(n.network()), prefix: n.prefix() });
        proof {
            assert(v6@.take(i + 1) =~= v6@.take(i as int).push(n));
        }
        i += 1;
    }
    proof {
        assert(v4@.take(n4 as int) =~= v4@);
        assert(v6@.take(v6@.len() as int) =~= v6@);
        lemma_route_list_facts(routes@, v4@, v6@);
        assert forall|x: int| #[trigger] covered(local_v4@, x) <==> (in_lan_v4(x) && !lists_address(dns_servers@, true, x)) by {
        }
        assert forall|x: int| #[trigger] covered(local_v6@, x) <==> (in_lan_v6(x) && !lists_address(dns_servers@, false, x)) by {
        }
        assert forall|i: int| 0 <= i < routes@.len() implies routes@[i].prefix == 0 || exists|a: IpAddress|
            #[trigger] route_sibling_contains(routes@[i], a) && !tunneled(dns_servers@, allow_local_network_access, a) by {
            if i < n4 {
                let n = v4@[i];
                assert(routes@[i] == v4_route(n));
                assert(well_formed(n));
                lemma_v4_route_maximal(dns_servers@, local_v4@, all_v4, n);
            } else {
                let n = v6@[i - n4];
                assert(routes@[i] == v6_route(n));
                assert(well_formed(n));
                lemma_v6_route_maximal(dns_servers@, local_v6@, all_v6, n);
            }
        }
        assert forall|a: IpAddress| #[trigger] routes_contain(routes@, a) <==> tunneled(dns_servers@, allow_local_network_access, a) by {
            let x = addr_value(a);
            if is_v4(a) {
                assert(covered(start4, x)) by {
                    assert(in_net(start4[0], x));
                }
                assert(covered(v4@, x) <==> !covered(local_v4@, x));
                assert(covered(local_v4@, x) <==> (in_lan_v4(x) && !lists_address(dns_servers@, true, x)));
                if lists_address(dns_servers@, true, x) {
                    let m = choose|m: int| 0 <= m < dns_servers@.len() && is_v4(#[trigger] dns_servers@[m]) == true && addr_value(dns_servers@[m]) == x;
                    assert(dns_servers@[m] == a);
                }
                if dns_servers@.contains(a) {
                    let m = choose|m: int| 0 <= m < dns_servers@.len() && dns_servers@[m] == a;
                    assert(is_v4(dns_servers@[m]));
                }
            } else {
                assert(covered(start6, x)) by {
                    assert(in_net(start6[0], x));
                }
                assert(covered(v6@, x) <==> !covered(local_v6@, x));
                assert(covered(local_v6@, x) <==> (in_lan_v6(x) && !lists_address(dns_servers@, false, x)));
                if lists_address(dns_servers@, false, x) {
                    let m = choose|m: int| 0 <= m < dns_servers@.len() && is_v4(#[trigger] dns_servers@[m]) == false && addr_value(dns_servers@[m]) == x;
                    assert(dns_servers@[m] == a);
                }
                if dns_servers@.contains(a) {
                    let m = choose|m: int| 0 <= m < dns_servers@.len() && dns_servers@[m] == a;
                    assert(!is_v4(dns_servers@[m]));
                }
            }
        }
    }
    routes
}

/// What the route list built from the IPv4 and IPv6 networks covers and how it is ordered.
proof fn lemma_route_list_facts(routes: Seq<Route>, v4: Seq<Ipv4Net>, v6: Seq<Ipv6Net>)
    requires
        all_well_formed(v4),
        all_well_formed(v6),
        ordered(v4),
        ordered(v6),
        routes =~= v4.map_values(|n: Ipv4Net| v4_route(n)) + v6.map_values(|n: Ipv6Net| v6_route(n)),
    ensures
        forall|a: IpAddress|
            #[trigger] routes_contain(routes, a) <==> if is_v4(a) {
                covered(v4, addr_value(a))
            } else {
                covered(v6, addr_value(a))
            },
        forall|i: int| 0 <= i < routes.len() ==> #[trigger] route_well_formed(routes[i]),
        forall|i: int, j: int|
            0 <= i < j < routes.len() && is_v4(#[trigger] routes[j].address) ==> is_v4(#[trigger] routes[i].address),
        forall|i: int, j: int|
            0 <= i < j < routes.len() && is_v4(routes[i].address) == is_v4(routes[j].address) ==> route_end(#[trigger] routes[i])
                <= route_start(#[trigger] routes[j]),
{
    let n4 = v4.len() as int;
    assert forall|i: int| 0 <= i < routes.len() implies (if i < n4 {
        well_formed(v4[i]) && routes[i] == v4_route(v4[i])
    } else {
        well_formed(v6[i - n4]) && routes[i] == v6_route(v6[i - n4])
    }) by {
        if i < n4 {
            assert(well_formed(v4[i]));
        } else {
            assert(well_formed(v6[i - n4]));
        }
    }
    assert forall|i: int| 0 <= i < routes.len() implies #[trigger] route_well_formed(routes[i]) by {
        if i < n4 {
            lemma_v4_route(v4[i]);
        } else {
            lemma_v6_route(v6[i - n4]);
        }
    }
    assert forall|i: int, j: int|
        0 <= i < j < routes.len() && is_v4(#[trigger] routes[j].address) implies is_v4(#[trigger] routes[i].address) by {
        if i < n4 {
            lemma_v4_route(v4[i]);
        } else {
            lemma_v6_route(v6[i - n4]);
            lemma_v6_route(v6[j - n4]);
        }
    }
    assert forall|i: int, j: int|
        0 <= i < j < routes.len() && is_v4(routes[i].address) == is_v4(routes[j].address) implies route_end(#[trigger] routes[i])
        <= route_start(#[trigger] routes[j]) by {
        if j < n4 {
            lemma_v4_route(v4[i]);
            lemma_v4_route(v4[j]);
            assert(v4[i].base() + size_of(v4[i]) <= v4[j].base());
        } else if i >= n4 {
            lemma_v6_route(v6[i - n4]);
            lemma_v6_route(v6[j - n4]);
            assert(v6[i - n4].base() + size_of(v6[i - n4]) <= v6[j - n4].base());
        } else {
            lemma_v4_route(v4[i]);
            lemma_v6_route(v6[j - n4]);
        }
    }
    assert forall|a: IpAddress| #[trigger] routes_contain(routes, a) <==> if is_v4(a) {
        covered(v4, addr_value(a))
    } else {
        covered(v6, addr_value(a))
    } by {
        let x = addr_value(a);
        if routes_contain(routes, a) {
            let i = choose|i: int| 0 <= i < routes.len() && #[trigger] route_contains(routes[i], a);
            if i < n4 {
                lemma_v4_route(v4[i]);
                assert(in_net(v4[i], x));
            } else {
                lemma_v6_route(v6[i - n4]);
                assert(in_net(v6[i - n4], x));
            }
        }
        if is_v4(a) && covered(v4, x) {
            let i = choose|i: int| 0 <= i < v4.len() && #[trigger] in_net(v4[i], x);
            lemma_v4_route(v4[i]);
            assert(route_contains(routes[i], a));
        }
        if !is_v4(a) && covered(v6, x) {
            let i = choose|i: int| 0 <= i < v6.len() && #[trigger] in_net(v6[i], x);
            lemma_v6_route(v6[i]);
            assert(route_contains(routes[i + n4], a));
        }
    }
}

} // verus!
