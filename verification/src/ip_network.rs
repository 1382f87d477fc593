//! IP addresses and CIDR networks.
//!
//! A network is modelled as an aligned block of integers: a network with prefix
//! length `p` in an address space of `w` bits covers the `2^(w - p)` addresses
//! starting at its (aligned) base address.

use vstd::arithmetic::div_mod::*;
use vstd::arithmetic::power2::*;
use vstd::prelude::*;

verus! {

/// An IPv4 or IPv6 address, held as its numeric value.
#[derive(Clone, Copy, Debug, PartialEq, Eq, Structural)]
pub enum IpAddress {
    V4(u32),
    V6(u128),
}

/// An IPv4 network in CIDR notation. The address is always the network address
/// (all host bits zero).
#[derive(Clone, Copy, Debug, PartialEq, Eq, Structural)]
pub struct Ipv4Net {
    addr: u32,
    prefix: u8,
}

/// An IPv6 network in CIDR notation. The address is always the network address
/// (all host bits zero).
#[derive(Clone, Copy, Debug, PartialEq, Eq, Structural)]
pub struct Ipv6Net {
    addr: u128,
    prefix: u8,
}

/// Number of addresses in a block with prefix `prefix` in a `width`-bit address space.
pub open spec fn block_size(width: nat, prefix: nat) -> int {
    pow2((width - prefix) as nat) as int
}

/// Whether `(base, prefix)` describes an aligned block within a `width`-bit address space.
pub open spec fn aligned_block(width: nat, base: int, prefix: nat) -> bool {
    &&& prefix <= width
    &&& 0 <= base
    &&& base % block_size(width, prefix) == 0
    &&& base < pow2(width)
}

/// The operations of a CIDR network that route computation needs.
pub trait Network: Copy + Sized {
    /// Number of bits in the address space.
    spec fn width() -> nat;

    /// The prefix length.
    spec fn prefix_len(self) -> nat;

    /// The network address as an integer.
    spec fn base(self) -> int;

    /// Whether `other` lies within `self` (or equals it).
    fn covers(self, other: Self) -> (r: bool)
        requires
            aligned_block(Self::width(), self.base(), self.prefix_len()),
            aligned_block(Self::width(), other.base(), other.prefix_len()),
        ensures
            r == (self.prefix_len() <= other.prefix_len() && self.base() <= other.base()
                < self.base() + block_size(Self::width(), self.prefix_len())),
    ;

    /// The two sub-networks with one more prefix bit.
    fn halves(self) -> (r: (Self, Self))
        requires
            aligned_block(Self::width(), self.base(), self.prefix_len()),
            self.prefix_len() < Self::width(),
        ensures
            aligned_block(Self::width(), r.0.base(), r.0.prefix_len()),
            aligned_block(Self::width(), r.1.base(), r.1.prefix_len()),
            r.0.prefix_len() == self.prefix_len() + 1,
            r.1.prefix_len() == self.prefix_len() + 1,
            r.0.base() == self.base(),
            r.1.base() == self.base() + block_size(Self::width(), r.0.prefix_len()),
    ;
}

pub open spec fn well_formed<N: Network>(n: N) -> bool {
    aligned_block(N::width(), n.base(), n.prefix_len())
}

/// Number of addresses in `n`.
pub open spec fn size_of<N: Network>(n: N) -> int {
    block_size(N::width(), n.prefix_len())
}

/// Whether the address with numeric value `x` lies in `n`.
pub open spec fn in_net<N: Network>(n: N, x: int) -> bool {
    n.base() <= x < n.base() + size_of(n)
}

/// `a` is a supernet of (or equal to) `b`.
pub open spec fn covers_spec<N: Network>(a: N, b: N) -> bool {
    a.prefix_len() <= b.prefix_len() && in_net(a, b.base())
}

/// Whether some network of `nets` contains `x`.
pub open spec fn covered<N: Network>(nets: Seq<N>, x: int) -> bool {
    exists|i: int| 0 <= i < nets.len() && #[trigger] in_net(nets[i], x)
}

/// The networks are pairwise disjoint and sorted by address.
pub open spec fn ordered<N: Network>(nets: Seq<N>) -> bool {
    forall|j: int, k: int|
        0 <= j < k < nets.len() ==> #[trigger] nets[j].base() + size_of(nets[j]) <= #[trigger] nets[k].base()
}

pub open spec fn all_well_formed<N: Network>(nets: Seq<N>) -> bool {
    forall|i: int| 0 <= i < nets.len() ==> #[trigger] well_formed(nets[i])
}

/// Two multiples of `s` that differ, differ by at least `s`.
pub proof fn lemma_multiples_apart(x: int, y: int, s: int)
    requires
        s > 0,
        x % s == 0,
        y % s == 0,
        x < y,
    ensures
        x + s <= y,
{
    lemma_fundamental_div_mod(x, s);
    lemma_fundamental_div_mod(y, s);
    let qx = x / s;
    let qy = y / s;
    assert(qx < qy) by (nonlinear_arith)
        requires
            x == s * qx,
            y == s * qy,
            x < y,
            s > 0,
    ;
    assert(s * qx + s <= s * qy) by (nonlinear_arith)
        requires
            qx + 1 <= qy,
            s > 0,
    ;
}

/// A multiple of `s * m` is a multiple of `s`.
pub proof fn lemma_mod_of_multiple(x: int, s: int, m: int)
    requires
        s > 0,
        m > 0,
        x % (s * m) == 0,
    ensures
        x % s == 0,
{
    assert(s * m > 0) by (nonlinear_arith)
        requires
            s > 0,
            m > 0,
    ;
    lemma_fundamental_div_mod(x, s * m);
    let q = x / (s * m);
    assert(x == (m * q) * s) by (nonlinear_arith)
        requires
            x == (s * m) * q + 0,
    ;
    lemma_mod_multiples_basic(m * q, s);
}

/// Sizes of blocks with a shorter prefix are multiples of the sizes of blocks with a longer one.
pub proof fn lemma_block_sizes(width: nat, p1: nat, p2: nat)
    requires
        p1 <= p2 <= width,
    ensures
        block_size(width, p2) > 0,
        block_size(width, p1) == block_size(width, p2) * pow2((p2 - p1) as nat),
        pow2((p2 - p1) as nat) > 0,
        block_size(width, p1) % block_size(width, p2) == 0,
        pow2(width) == block_size(width, p1) * pow2(p1),
{
    lemma_pow2_pos((width - p2) as nat);
    lemma_pow2_pos((p2 - p1) as nat);
    lemma_pow2_adds((width - p2) as nat, (p2 - p1) as nat);
    assert((width - p2) as nat + (p2 - p1) as nat == (width - p1) as nat);
    lemma_pow2_adds((width - p1) as nat, p1);
    assert((width - p1) as nat + p1 == width);
    lemma_mod_multiples_basic(pow2((p2 - p1) as nat) as int, block_size(width, p2));
    assert(block_size(width, p2) * pow2((p2 - p1) as nat) == pow2((p2 - p1) as nat) * block_size(width, p2)) by (nonlinear_arith);
}

/// A well-formed block ends within the address space.
pub proof fn lemma_block_in_space(width: nat, base: int, prefix: nat)
    requires
        aligned_block(width, base, prefix),
    ensures
        block_size(width, prefix) > 0,
        base + block_size(width, prefix) <= pow2(width),
{
    lemma_block_sizes(width, prefix, prefix);
    lemma_block_sizes(width, 0, prefix);
    lemma_pow2_pos(prefix);
    let s = block_size(width, prefix);
    assert(pow2(width) as int % s == 0) by {
        lemma_mod_multiples_basic(pow2(prefix) as int, s);
        assert(pow2(width) as int == pow2(prefix) * s) by (nonlinear_arith)
            requires
                pow2(width) == s * pow2(prefix),
        ;
    }
    lemma_multiples_apart(base, pow2(width) as int, s);
}

/// Aligned blocks are laminar: if `a` does not cover `b` and `b` does not cover `a`, they are
/// disjoint; if `a` covers `b`, every address of `b` is in `a`.
pub proof fn lemma_laminar<N: Network>(a: N, b: N)
    requires
        well_formed(a),
        well_formed(b),
    ensures
        covers_spec(a, b) ==> (forall|x: int| in_net(b, x) ==> in_net(a, x)),
        covers_spec(a, b) ==> b.base() + size_of(b) <= a.base() + size_of(a),
        !covers_spec(a, b) && !covers_spec(b, a) ==> (forall|x: int| !(in_net(a, x) && in_net(b, x))),
        !covers_spec(a, b) && !covers_spec(b, a) ==> (a.base() + size_of(a) <= b.base() || b.base()
            + size_of(b) <= a.base()),
{
    if a.prefix_len() <= b.prefix_len() {
        lemma_laminar_ordered(a, b);
    } else {
        lemma_laminar_ordered(b, a);
    }
}

proof fn lemma_laminar_ordered<N: Network>(a: N, b: N)
    requires
        well_formed(a),
        well_formed(b),
        a.prefix_len() <= b.prefix_len(),
    ensures
        in_net(a, b.base()) ==> b.base() + size_of(b) <= a.base() + size_of(a),
        !in_net(a, b.base()) ==> (a.base() + size_of(a) <= b.base() || b.base() + size_of(b)
            <= a.base()),
        a.prefix_len() == b.prefix_len() && in_net(a, b.base()) ==> a.base() == b.base(),
{
    let w = N::width();
    lemma_block_sizes(w, a.prefix_len(), b.prefix_len());
    let sa = size_of(a);
    let sb = size_of(b);
    let m = pow2((b.prefix_len() - a.prefix_len()) as nat) as int;
    assert(sa == sb * m);
    assert(sb * m == sa);
    lemma_mod_of_multiple(a.base(), sb, m);
    lemma_mod_add_multiples_vanish(a.base(), sa);
    lemma_mod_of_multiple(a.base() + sa, sb, m);
    if in_net(a, b.base()) {
        if b.base() < a.base() + sa {
            lemma_multiples_apart(b.base(), a.base() + sa, sb);
        }
        if a.prefix_len() == b.prefix_len() && a.base() < b.base() {
            lemma_multiples_apart(a.base(), b.base(), sb);
        }
    } else {
        if b.base() < a.base() {
            lemma_multiples_apart(b.base(), a.base(), sb);
        }
    }
}

/// The two halves of a network partition it.
pub proof fn lemma_halves_partition<N: Network>(n: N, low: N, high: N)
    requires
        well_formed(n),
        well_formed(low),
        well_formed(high),
        n.prefix_len() < N::width(),
        low.prefix_len() == n.prefix_len() + 1,
        high.prefix_len() == n.prefix_len() + 1,
        low.base() == n.base(),
        high.base() == n.base() + size_of(low),
    ensures
        size_of(n) == 2 * size_of(low),
        size_of(high) == size_of(low),
        forall|x: int| in_net(n, x) <==> (in_net(low, x) || in_net(high, x)),
        !(exists|x: int| in_net(low, x) && in_net(high, x)),
{
    let w = N::width();
    lemma_pow2_unfold((w - n.prefix_len()) as nat);
    assert((w - n.prefix_len() - 1) as nat == (w - low.prefix_len()) as nat);
}

/// The base of the other half of the block that `n` is half of.
pub open spec fn sibling_base<N: Network>(n: N) -> int {
    let s = size_of(n);
    if (n.base() / s) % 2 == 0 {
        n.base() + s
    } else {
        n.base() - s
    }
}

/// Whether the other half of the block that `n` is half of contains the address `x`.
pub open spec fn in_sibling<N: Network>(n: N, x: int) -> bool {
    sibling_base(n) <= x < sibling_base(n) + size_of(n)
}

/// Whether `c` lies within the other half of the block that `n` is half of: then `n` cannot be
/// merged with its other half without taking in addresses of `c`.
pub open spec fn sibling_covers<N: Network>(n: N, c: N) -> bool {
    n.prefix_len() <= c.prefix_len() && in_sibling(n, c.base())
}

/// The two halves of a network are each other's other half.
pub proof fn lemma_halves_siblings<N: Network>(n: N, low: N, high: N)
    requires
        well_formed(n),
        well_formed(low),
        well_formed(high),
        n.prefix_len() < N::width(),
        low.prefix_len() == n.prefix_len() + 1,
        high.prefix_len() == n.prefix_len() + 1,
        low.base() == n.base(),
        high.base() == n.base() + size_of(low),
    ensures
        sibling_base(low) == high.base(),
        sibling_base(high) == low.base(),
{
    lemma_halves_partition(n, low, high);
    let s = size_of(low);
    let b = n.base();
    lemma_pow2_pos((N::width() - low.prefix_len()) as nat);
    assert(s > 0);
    assert(b % (2 * s) == 0);
    let q = b / (2 * s);
    assert(b == 2 * s * q) by (nonlinear_arith)
        requires
            s > 0,
            b % (2 * s) == 0,
            q == b / (2 * s),
    ;
    assert(b / s == 2 * q) by (nonlinear_arith)
        requires
            s > 0,
            b == 2 * s * q,
    ;
    assert((b + s) / s == 2 * q + 1) by (nonlinear_arith)
        requires
            s > 0,
            b == 2 * s * q,
    ;
}

impl Network for Ipv4Net {
    open spec fn width() -> nat {
        32
    }

    closed spec fn prefix_len(self) -> nat {
        self.prefix as nat
    }

    closed spec fn base(self) -> int {
        self.addr as int
    }

    fn covers(self, other: Self) -> (r: bool) {
        self.prefix <= other.prefix && self.contains(other.addr)
    }

    fn halves(self) -> (r: (Self, Self)) {
        let prefix = self.prefix + 1;
        let half = block_size_u64(32, prefix);
        proof {
            lemma_block_in_space(32, self.base(), self.prefix_len());
            lemma_block_sizes(32, self.prefix_len(), prefix as nat);
            lemma2_to64();
            assert(pow2(1) == 2);
            lemma_mod_of_multiple(self.base(), half as int, 2);
            lemma_mod_add_multiples_vanish(self.base(), half as int);
        }
        let low = Ipv4Net { addr: self.addr, prefix };
        let high = Ipv4Net { addr: (self.addr as u64 + half) as u32, prefix };
        (low, high)
    }
}

impl Network for Ipv6Net {
    open spec fn width() -> nat {
        128
    }

    closed spec fn prefix_len(self) -> nat {
        self.prefix as nat
    }

    closed spec fn base(self) -> int {
        self.addr as int
    }

    fn covers(self, other: Self) -> (r: bool) {
        self.prefix <= other.prefix && self.contains(other.addr)
    }

    fn halves(self) -> (r: (Self, Self)) {
        let prefix = self.prefix + 1;
        let half = block_size_u128(prefix);
        proof {
            lemma_block_in_space(128, self.base(), self.prefix_len());
            lemma_block_sizes(128, self.prefix_len(), prefix as nat);
            lemma2_to64();
            assert(pow2(1) == 2);
            lemma_mod_of_multiple(self.base(), half as int, 2);
            lemma_mod_add_multiples_vanish(self.base(), half as int);
            lemma_u128_max();
            assert(block_size(128, self.prefix_len()) == half * 2);
            assert(self.base() + block_size(128, self.prefix_len()) <= pow2(128));
        }
        let low = Ipv6Net { addr: self.addr, prefix };
        let high = Ipv6Net { addr: self.addr + half, prefix };
        (low, high)
    }
}

proof fn lemma_u128_max()
    ensures
        pow2(128) == u128::MAX + 1,
        pow2(32) == u32::MAX + 1,
{
    lemma2_to64();
    lemma_pow2_adds(64, 64);
}

/// `2^(width - prefix)` for IPv4 sized blocks, as a `u64`.
fn block_size_u64(width: u8, prefix: u8) -> (r: u64)
    requires
        width == 32,
        prefix <= 32,
    ensures
        r == block_size(32, prefix as nat),
{
    let mut r: u64 = 1;
    let mut i: u8 = 0;
    let k: u8 = width - prefix;
    proof {
        lemma2_to64();
    }
    while i < k
        invariant
            i <= k <= 32,
            r == pow2(i as nat),
            pow2(32) == 0x1_0000_0000,
        decreases k - i,
    {
        proof {
            lemma_pow2_unfold((i + 1) as nat);
            if i + 1 < 32 {
                lemma_pow2_strictly_increases((i + 1) as nat, 32);
            }
        }
        r = r * 2;
        i = i + 1;
    }
    r
}

/// `2^(128 - prefix)` for IPv6 blocks other than the whole address space, as a `u128`.
fn block_size_u128(prefix: u8) -> (r: u128)
    requires
        1 <= prefix <= 128,
    ensures
        r == block_size(128, prefix as nat),
{
    let mut r: u128 = 1;
    let mut i: u8 = 0;
    let k: u8 = 128 - prefix;
    proof {
        lemma2_to64();
        lemma_u128_max();
        lemma_pow2_strictly_increases(127, 128);
    }
    while i < k
        invariant
            i <= k <= 127,
            r == pow2(i as nat),
            pow2(127) < pow2(128),
            pow2(128) == u128::MAX + 1,
        decreases k - i,
    {
        proof {
            lemma_pow2_unfold((i + 1) as nat);
            if i + 1 < 127 {
                lemma_pow2_strictly_increases((i + 1) as nat, 127);
            }
            assert(pow2((i + 1) as nat) <= pow2(127));
            assert(r * 2 == pow2((i + 1) as nat));
            assert(r * 2 < pow2(128));
            assert(r * 2 <= u128::MAX);
        }
        r = r * 2;
        i = i + 1;
    }
    r
}

/// `x` lies in the aligned block `[base, base + size)` exactly when it has the same quotient by `size`.
proof fn lemma_same_block(x: int, base: int, size: int)
    requires
        size > 0,
        base >= 0,
        x >= 0,
        base % size == 0,
    ensures
        (x / size == base / size) <==> (base <= x < base + size),
{
    lemma_fundamental_div_mod(x, size);
    lemma_fundamental_div_mod(base, size);
    let qb = base / size;
    let qx = x / size;
    let rx = x % size;
    assert(0 <= rx < size) by {
        lemma_mod_bound(x, size);
    }
    if qx == qb {
        assert(base <= x < base + size);
    }
    if base <= x < base + size {
        assert(x == qb * size + (x - base)) by (nonlinear_arith)
            requires
                base == size * qb + 0,
        ;
        lemma_fundamental_div_mod_converse(x, size, qb, x - base);
    }
}

impl Ipv4Net {
    /// The network with prefix `prefix` that contains `addr`; `None` if the prefix is longer than 32 bits.
    pub fn new(addr: u32, prefix: u8) -> (r: Option<Ipv4Net>)
        ensures
            r is Some <==> prefix <= 32,
            r matches Some(n) ==> aligned_block(32, n.base(), n.prefix_len()) && n.prefix_len() == prefix
                && n.base() <= addr < n.base() + block_size(32, n.prefix_len()),
            r matches Some(n) ==> (addr as int % block_size(32, prefix as nat) == 0 ==> n.base() == addr),
    {
        if prefix > 32 {
            return None;
        }
        let size = block_size_u64(32, prefix);
        proof {
            lemma_block_sizes(32, prefix as nat, prefix as nat);
            lemma_block_sizes(32, 0, prefix as nat);
            lemma2_to64();
            lemma_fundamental_div_mod(addr as int, size as int);
            lemma_mod_multiples_basic(addr as int / size as int, size as int);
            lemma_mod_bound(addr as int, size as int);
            assert((addr as int / size as int) * size as int == size * (addr as int / size as int)) by (nonlinear_arith);
        }
        let base = (addr as u64 / size) * size;
        Some(Ipv4Net { addr: base as u32, prefix })
    }

    /// The network address.
    pub fn network(self) -> (r: u32)
        ensures
            r as int == self.base(),
    {
        self.addr
    }

    /// The prefix length.
    pub fn prefix(self) -> (r: u8)
        ensures
            r as nat == self.prefix_len(),
    {
        self.prefix
    }

    /// Whether `ip` lies in this network.
    pub fn contains(self, ip: u32) -> (r: bool)
        requires
            aligned_block(32, self.base(), self.prefix_len()),
        ensures
            r == (self.base() <= ip < self.base() + block_size(32, self.prefix_len())),
    {
        proof {
            lemma_block_in_space(32, self.base(), self.prefix_len());
            lemma_u128_max();
        }
        if self.prefix == 0 {
            proof {
                lemma2_to64();
            }
            true
        } else {
            let size = block_size_u64(32, self.prefix);
            proof {
                lemma_same_block(ip as int, self.addr as int, size as int);
            }
            (ip as u64) / size == (self.addr as u64) / size
        }
    }
}

impl Ipv6Net {
    /// The network with prefix `prefix` that contains `addr`; `None` if the prefix is longer than 128 bits.
    pub fn new(addr: u128, prefix: u8) -> (r: Option<Ipv6Net>)
        ensures
            r is Some <==> prefix <= 128,
            r matches Some(n) ==> aligned_block(128, n.base(), n.prefix_len()) && n.prefix_len() == prefix
                && n.base() <= addr < n.base() + block_size(128, n.prefix_len()),
            r matches Some(n) ==> (addr as int % block_size(128, prefix as nat) == 0 ==> n.base() == addr),
    {
        if prefix > 128 {
            return None;
        }
        proof {
            lemma_u128_max();
            lemma_block_sizes(128, prefix as nat, prefix as nat);
            lemma_block_sizes(128, 0, prefix as nat);
        }
        if prefix == 0 {
            proof {
                assert(0int % block_size(128, 0) == 0) by {
                    lemma_small_mod(0, block_size(128, 0) as nat);
                }
                lemma_small_mod(addr as nat, block_size(128, 0) as nat);
            }
            return Some(Ipv6Net { addr: 0, prefix });
        }
        let size = block_size_u128(prefix);
        proof {
            lemma_fundamental_div_mod(addr as int, size as int);
            lemma_mod_multiples_basic(addr as int / size as int, size as int);
            lemma_mod_bound(addr as int, size as int);
            assert((addr as int / size as int) * size as int == size * (addr as int / size as int)) by (nonlinear_arith);
        }
        let base = (addr / size) * size;
        Some(Ipv6Net { addr: base, prefix })
    }

    /// The network address.
    pub fn network(self) -> (r: u128)
        ensures
            r as int == self.base(),
    {
        self.addr
    }

    /// The prefix length.
    pub fn prefix(self) -> (r: u8)
        ensures
            r as nat == self.prefix_len(),
    {
        self.prefix
    }

    /// Whether `ip` lies in this network.
    pub fn contains(self, ip: u128) -> (r: bool)
        requires
            aligned_block(128, self.base(), self.prefix_len()),
        ensures
            r == (self.base() <= ip < self.base() + block_size(128, self.prefix_len())),
    {
        proof {
            lemma_block_in_space(128, self.base(), self.prefix_len());
            lemma_u128_max();
        }
        if self.prefix == 0 {
            proof {
                lemma_block_sizes(128, 0, 0);
            }
            true
        } else {
            let size = block_size_u128(self.prefix);
            proof {
                lemma_same_block(ip as int, self.addr as int, size as int);
            }
            ip / size == self.addr / size
        }
    }
}

} // verus!
