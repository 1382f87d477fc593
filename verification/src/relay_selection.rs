//! Which handshakes to race when choosing a relay.

use vstd::prelude::*;

verus! {

/// Most relays to probe. A non-malicious API server stays below it; a malicious one cannot exhaust
/// memory with relays.
pub const MAX_RELAYS: usize = 100;

/// Most ports to probe per relay, for the same reason.
pub const MAX_PORTS_PER_RELAY: usize = 5;

/// The handshakes for the first `n` relays: each relay, by index, with each of its first
/// `MAX_PORTS_PER_RELAY` ports, in order.
pub open spec fn targets_upto(relay_ports: Seq<Seq<u16>>, n: int) -> Seq<(int, u16)>
    decreases n,
{
    if n <= 0 {
        Seq::empty()
    } else {
        let ports = relay_ports[n - 1];
        let kept = if ports.len() <= MAX_PORTS_PER_RELAY {
            ports
        } else {
            ports.subrange(0, MAX_PORTS_PER_RELAY as int)
        };
        targets_upto(relay_ports, n - 1) + kept.map_values(|p: u16| (n - 1, p))
    }
}

pub open spec fn relays_probed(relay_ports: Seq<Seq<u16>>) -> int {
    if relay_ports.len() <= MAX_RELAYS {
        relay_ports.len() as int
    } else {
        MAX_RELAYS as int
    }
}

proof fn lemma_targets_bounded(relay_ports: Seq<Seq<u16>>, n: int)
    requires
        0 <= n <= relay_ports.len(),
    ensures
        targets_upto(relay_ports, n).len() <= n * MAX_PORTS_PER_RELAY,
    decreases n,
{
    if n > 0 {
        lemma_targets_bounded(relay_ports, n - 1);
    }
}

/// The handshakes to race for relays with the ports `relay_ports`: the first `MAX_RELAYS`
/// relays, each with its first `MAX_PORTS_PER_RELAY` ports, as (relay index, port) in order.
pub fn handshake_targets(relay_ports: &[Vec<u16>]) -> (r: Vec<(usize, u16)>)
    ensures
        r@.map_values(|t: (usize, u16)| (t.0 as int, t.1)) == targets_upto(
            relay_ports@.map_values(|p: Vec<u16>| p@),
            relays_probed(relay_ports@.map_values(|p: Vec<u16>| p@)),
        ),
        r@.len() <= MAX_RELAYS * MAX_PORTS_PER_RELAY,
{
    let ghost all = relay_ports@.map_values(|p: Vec<u16>| p@);
    let n = if relay_ports.len() <= MAX_RELAYS {
        relay_ports.len()
    } else {
        MAX_RELAYS
    };
    let mut targets: Vec<(usize, u16)> = Vec::new();
    let mut i: usize = 0;
    while i < n
        invariant
            n <= relay_ports@.len(),
            n <= MAX_RELAYS,
            i <= n,
            all == relay_ports@.map_values(|p: Vec<u16>| p@),
            targets@.map_values(|t: (usize, u16)| (t.0 as int, t.1)) == targets_upto(all, i as int),
        decreases n - i,
    {
        let ports = &relay_ports[i];
        let m = if ports.len() <= MAX_PORTS_PER_RELAY {
            ports.len()
        } else {
            MAX_PORTS_PER_RELAY
        };
        let ghost before = targets@.map_values(|t: (usize, u16)| (t.0 as int, t.1));
        let ghost kept = if all[i as int].len() <= MAX_PORTS_PER_RELAY {
            all[i as int]
        } else {
            all[i as int].subrange(0, MAX_PORTS_PER_RELAY as int)
        };
        assert(all[i as int] == ports@);
        let mut k: usize = 0;
        while k < m
            invariant
                i < n <= relay_ports@.len(),
                k <= m,
                m == kept.len(),
                kept == (if ports@.len() <= MAX_PORTS_PER_RELAY {
                    ports@
                } else {
                    ports@.subrange(0, MAX_PORTS_PER_RELAY as int)
                }),
                m <= ports@.len(),
                targets@.map_values(|t: (usize, u16)| (t.0 as int, t.1)) == before + kept.subrange(0, k as int).map_values(
                    |p: u16| (i as int, p),
                ),
            decreases m - k,
        {
            let ghost prev = targets@;
            let port = ports[k];
            targets.push((i, port));
            proof {
                let lhs = targets@.map_values(|t: (usize, u16)| (t.0 as int, t.1));
                let rhs = before + kept.subrange(0, k + 1).map_values(|p: u16| (i as int, p));
                let old_rhs = before + kept.subrange(0, k as int).map_values(|p: u16| (i as int, p));
                assert(prev.map_values(|t: (usize, u16)| (t.0 as int, t.1)) == old_rhs);
                assert(prev.map_values(|t: (usize, u16)| (t.0 as int, t.1)).len() == prev.len());
                assert(prev.len() == before.len() + k);
                assert forall|j: int| 0 <= j < lhs.len() implies lhs[j] == rhs[j] by {
                    if j < prev.len() {
                        assert(lhs[j] == old_rhs[j]);
                        if j >= before.len() {
                            assert(kept.subrange(0, k + 1)[j - before.len()] == kept.subrange(
                                0,
                                k as int,
                            )[j - before.len()]);
                        }
                    } else {
                        assert(kept.subrange(0, k + 1)[k as int] == port);
                    }
                }
                assert(lhs =~= rhs);
            }
            k = k + 1;
        }
        assert(kept.subrange(0, k as int) =~= kept);
        i = i + 1;
    }
    proof {
        lemma_targets_bounded(all, n as int);
        assert(targets@.len() == targets@.map_values(|t: (usize, u16)| (t.0 as int, t.1)).len());
        assert(n * MAX_PORTS_PER_RELAY <= MAX_RELAYS * MAX_PORTS_PER_RELAY) by (nonlinear_arith)
            requires
                n <= MAX_RELAYS,
        ;
    }
    targets
}

} // verus!
