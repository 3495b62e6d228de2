//! Node discovery by broadcast probe: which datagrams are probes and answers,
//! and the registry of the nodes that answered. The sockets and the clock
//! belong to the caller, who passes in each datagram with its sender and the
//! time of its arrival in milliseconds.

use vstd::prelude::*;
use vstd::string::StringSliceAdditionalSpecFns;

verus! {

/// Text of a probe.
pub const DISCOVER_REQUEST: &'static str = "DISCOVER_REQUEST";

/// Text of the answer to a probe.
pub const DISCOVER_RESPONSE: &'static str = "DISCOVER_RESPONSE";

/// Address that probes are sent to.
pub const BROADCAST_ADDRESS: &'static str = "192.168.255.255:8080";

/// Address that a node listens on for probes.
pub const LISTEN_ADDRESS: &'static str = "0.0.0.0:8080";

/// Seconds between two probes.
pub const PROBE_INTERVAL_SECS: u64 = 3;

/// Milliseconds after which a node that was not seen again is forgotten.
pub const NODE_TIMEOUT_MS: u64 = 30_000;

/// Capacity of the channel that announces newly discovered nodes.
pub const NOTIFIER_CAPACITY: usize = 32;

/// A node that answered a probe or sent one.
#[derive(Debug)]
pub struct DiscoveredNode {
    /// Address of the node.
    pub addr: String,
    /// Milliseconds at which the node was last seen.
    pub last_seen: u64,
}

/// The registry of discovered nodes.
pub struct DiscoveryService {
    discovered_nodes: Vec<DiscoveredNode>,
}

/// Whether `nodes` holds an entry for `addr`.
pub open spec fn spec_knows(nodes: Seq<(Seq<char>, u64)>, addr: Seq<char>) -> bool {
    exists|i: int| 0 <= i < nodes.len() && (#[trigger] nodes[i]).0 == addr
}

/// No address has two entries.
pub open spec fn spec_unique(nodes: Seq<(Seq<char>, u64)>) -> bool {
    forall|i: int, j: int|
        0 <= i < j < nodes.len() ==> (#[trigger] nodes[i]).0 != (#[trigger] nodes[j]).0
}

/// `nodes` with `addr` seen at `now`: its entry carries the new time, and a
/// new entry is added at the end if there was none.
pub open spec fn spec_seen(nodes: Seq<(Seq<char>, u64)>, addr: Seq<char>, now: u64) -> Seq<
    (Seq<char>, u64),
> {
    if spec_knows(nodes, addr) {
        Seq::new(
            nodes.len(),
            |i: int|
                if nodes[i].0 == addr {
                    (addr, now)
                } else {
                    nodes[i]
                },
        )
    } else {
        nodes.push((addr, now))
    }
}

/// Whether a node last seen at `last_seen` still counts at `now`: no more
/// than the timeout has passed.
pub open spec fn spec_is_active(last_seen: u64, now: u64) -> bool {
    now - last_seen <= NODE_TIMEOUT_MS
}

/// The entries of `nodes` that still count at `now`, in their order.
pub open spec fn spec_active(nodes: Seq<(Seq<char>, u64)>, now: u64) -> Seq<(Seq<char>, u64)>
    decreases nodes.len(),
{
    if nodes.len() == 0 {
        nodes
    } else if spec_is_active(nodes.last().1, now) {
        spec_active(nodes.drop_last(), now).push(nodes.last())
    } else {
        spec_active(nodes.drop_last(), now)
    }
}

/// The addresses of `nodes`, in their order.
pub open spec fn spec_addresses(nodes: Seq<(Seq<char>, u64)>) -> Seq<Seq<char>> {
    Seq::new(nodes.len(), |i: int| nodes[i].0)
}

/// The texts of `names`, in their order.
pub open spec fn spec_texts(names: Seq<String>) -> Seq<Seq<char>> {
    Seq::new(names.len(), |i: int| names[i]@)
}

proof fn lemma_active_comes_from(nodes: Seq<(Seq<char>, u64)>, now: u64, k: int)
    requires
        0 <= k < spec_active(nodes, now).len(),
    ensures
        exists|i: int| 0 <= i < nodes.len() && nodes[i] == spec_active(nodes, now)[k],
    decreases nodes.len(),
{
    let init = nodes.drop_last();
    if k < spec_active(init, now).len() {
        lemma_active_comes_from(init, now, k);
        let i = choose|i: int| 0 <= i < init.len() && init[i] == spec_active(init, now)[k];
        assert(nodes[i] == spec_active(nodes, now)[k]);
    } else {
        assert(nodes[nodes.len() - 1] == spec_active(nodes, now)[k]);
    }
}

proof fn lemma_active_is_unique(nodes: Seq<(Seq<char>, u64)>, now: u64)
    requires
        spec_unique(nodes),
    ensures
        spec_unique(spec_active(nodes, now)),
    decreases nodes.len(),
{
    if nodes.len() > 0 {
        let init = nodes.drop_last();
        assert forall|i: int, j: int| 0 <= i < j < init.len() implies (#[trigger] init[i]).0 != (
        #[trigger] init[j]).0 by {
            assert(init[i] == nodes[i] && init[j] == nodes[j]);
        }
        lemma_active_is_unique(init, now);
        let active = spec_active(nodes, now);
        let before = spec_active(init, now);
        assert forall|i: int, j: int| 0 <= i < j < active.len() implies (#[trigger] active[i]).0
            != (#[trigger] active[j]).0 by {
            if j < before.len() {
                assert(active[i] == before[i] && active[j] == before[j]);
            } else {
                lemma_active_comes_from(init, now, i);
                let m = choose|m: int| 0 <= m < init.len() && init[m] == before[i];
                assert(nodes[m] == active[i]);
                assert(nodes[nodes.len() - 1] == active[j]);
            }
        }
    }
}

/// Whether two byte strings are equal.
pub fn bytes_equal(left: &[u8], right: &[u8]) -> (equal: bool)
    ensures
        equal == (left@ == right@),
{
    if left.len() != right.len() {
        return false;
    }
    let mut i: usize = 0;
    while i < left.len()
        invariant
            i <= left@.len(),
            left@.len() == right@.len(),
            forall|j: int| 0 <= j < i ==> left@[j] == right@[j],
        decreases left@.len() - i,
    {
        if left[i] != right[i] {
            return false;
        }
        i = i + 1;
    }
    assert(left@ =~= right@);
    true
}

impl View for DiscoveryService {
    type V = Seq<(Seq<char>, u64)>;

    closed spec fn view(&self) -> Seq<(Seq<char>, u64)> {
        Seq::new(
            self.discovered_nodes@.len(),
            |i: int| (self.discovered_nodes@[i].addr@, self.discovered_nodes@[i].last_seen),
        )
    }
}

impl DiscoveryService {
    /// No address has two entries.
    pub open spec fn well_formed(&self) -> bool {
        spec_unique(self@)
    }

    /// An empty registry.
    pub fn new() -> (service: Self)
        ensures
            service@ == Seq::<(Seq<char>, u64)>::empty(),
            service.well_formed(),
    {
        let service = DiscoveryService { discovered_nodes: Vec::new() };
        assert(service@ =~= Seq::<(Seq<char>, u64)>::empty());
        service
    }

    /// Whether the registry holds an entry for `addr`.
    pub fn knows(&self, addr: &str) -> (known: bool)
        ensures
            known == spec_knows(self@, addr@),
    {
        let wanted = addr.to_owned();
        let mut i: usize = 0;
        while i < self.discovered_nodes.len()
            invariant
                i <= self.discovered_nodes@.len(),
                wanted@ == addr@,
                forall|j: int| 0 <= j < i ==> (#[trigger] self@[j]).0 != addr@,
            decreases self.discovered_nodes@.len() - i,
        {
            if self.discovered_nodes[i].addr == wanted {
                assert(self@[i as int].0 == addr@);
                return true;
            }
            i = i + 1;
        }
        false
    }

    /// Handles a datagram that came back to the prober. The answer of a node
    /// that the registry does not hold yet adds the node, seen at `now`, and
    /// gives its address to announce. Anything else changes nothing.
    pub fn discover(&mut self, message: &[u8], src: &str, now: u64) -> (discovered: Option<String>)
        requires
            old(self).well_formed(),
        ensures
            final(self).well_formed(),
            discovered.is_some() == (message@ == DISCOVER_RESPONSE.spec_bytes() && !spec_knows(
                old(self)@,
                src@,
            )),
            discovered matches Some(addr) ==> addr@ == src@ && final(self)@ == old(self)@.push(
                (src@, now),
            ),
            discovered.is_none() ==> final(self)@ == old(self)@,
    {
        if bytes_equal(message, DISCOVER_RESPONSE.as_bytes()) && !self.knows(src) {
            self.discovered_nodes.push(DiscoveredNode { addr: src.to_owned(), last_seen: now });
            assert(self@ =~= old(self)@.push((src@, now)));
            assert forall|i: int, j: int| 0 <= i < j < self@.len() implies (#[trigger] self@[i]).0
                != (#[trigger] self@[j]).0 by {
                assert(self@[i] == old(self)@[i]);
                if j < old(self)@.len() {
                    assert(self@[j] == old(self)@[j]);
                }
            }
            Some(src.to_owned())
        } else {
            None
        }
    }

    /// Handles a datagram that reached the listener. A probe is to be
    /// answered, and its sender is seen at `now`. Anything else changes
    /// nothing.
    pub fn listen(&mut self, message: &[u8], src: &str, now: u64) -> (answer: bool)
        requires
            old(self).well_formed(),
        ensures
            final(self).well_formed(),
            answer == (message@ == DISCOVER_REQUEST.spec_bytes()),
            answer ==> final(self)@ == spec_seen(old(self)@, src@, now),
            !answer ==> final(self)@ == old(self)@,
    {
        if !bytes_equal(message, DISCOVER_REQUEST.as_bytes()) {
            return false;
        }
        let wanted = src.to_owned();
        let mut found = false;
        let mut i: usize = 0;
        while i < self.discovered_nodes.len()
            invariant
                i <= self.discovered_nodes@.len(),
                wanted@ == src@,
                self@.len() == old(self)@.len(),
                found == spec_knows(old(self)@.take(i as int), src@),
                forall|j: int|
                    0 <= j < i ==> #[trigger] self@[j] == (if old(self)@[j].0 == src@ {
                        (src@, now)
                    } else {
                        old(self)@[j]
                    }),
                forall|j: int| i <= j < self@.len() ==> #[trigger] self@[j] == old(self)@[j],
            decreases self.discovered_nodes@.len() - i,
        {
            let ghost before = self@;
            let ghost prefix = old(self)@.take(i as int);
            let ghost longer = old(self)@.take(i + 1);
            assert(before[i as int] == old(self)@[i as int]);
            if self.discovered_nodes[i].addr == wanted {
                self.discovered_nodes[i].last_seen = now;
                found = true;
                assert(longer[i as int].0 == src@);
            } else {
                proof {
                    if spec_knows(longer, src@) {
                        let k = choose|k: int|
                            0 <= k < longer.len() && (#[trigger] longer[k]).0 == src@;
                        assert(prefix[k].0 == src@);
                    }
                    if spec_knows(prefix, src@) {
                        let k = choose|k: int|
                            0 <= k < prefix.len() && (#[trigger] prefix[k]).0 == src@;
                        assert(longer[k].0 == src@);
                    }
                }
            }
            assert(forall|j: int|
                0 <= j < self@.len() && j != i ==> #[trigger] self@[j] == before[j]);
            i = i + 1;
        }
        assert(old(self)@.take(i as int) =~= old(self)@);
        if !found {
            assert forall|j: int| 0 <= j < self@.len() implies self@[j] == old(self)@[j] by {
                assert(old(self)@[j].0 != src@);
            }
            assert(self@ =~= old(self)@);
            self.discovered_nodes.push(DiscoveredNode { addr: wanted, last_seen: now });
            assert(self@ =~= old(self)@.push((src@, now)));
        } else {
            assert(self@ =~= spec_seen(old(self)@, src@, now));
        }
        assert forall|a: int, b: int| 0 <= a < b < self@.len() implies (#[trigger] self@[a]).0 != (
        #[trigger] self@[b]).0 by {
            if b < old(self)@.len() {
                assert(old(self)@[a].0 != old(self)@[b].0);
            } else {
                assert(old(self)@[a].0 != src@);
            }
        }
        true
    }

    /// Forgets the nodes that were not seen for longer than the timeout and
    /// gives the addresses of those that remain, in the order in which they
    /// were first seen.
    pub fn get_discovered_nodes(&mut self, now: u64) -> (active_nodes: Vec<String>)
        requires
            old(self).well_formed(),
        ensures
            final(self).well_formed(),
            final(self)@ == spec_active(old(self)@, now),
            spec_texts(active_nodes@) == spec_addresses(final(self)@),
    {
        let mut kept: Vec<DiscoveredNode> = Vec::new();
        let mut active_nodes: Vec<String> = Vec::new();
        let ghost all = self@;
        let ghost mut kept_view: Seq<(Seq<char>, u64)> = Seq::empty();
        let mut i: usize = 0;
        while i < self.discovered_nodes.len()
            invariant
                i <= self.discovered_nodes@.len(),
                self@ == all,
                all.len() == self.discovered_nodes@.len(),
                kept_view == spec_active(all.take(i as int), now),
                kept@.len() == kept_view.len(),
                active_nodes@.len() == kept_view.len(),
                forall|j: int|
                    0 <= j < kept@.len() ==> (#[trigger] kept@[j]).addr@ == kept_view[j].0
                        && kept@[j].last_seen == kept_view[j].1,
                forall|j: int|
                    0 <= j < active_nodes@.len() ==> (#[trigger] active_nodes@[j])@
                        == kept_view[j].0,
            decreases self.discovered_nodes@.len() - i,
        {
            let last_seen = self.discovered_nodes[i].last_seen;
            assert(all[i as int] == (self.discovered_nodes@[i as int].addr@, last_seen));
            assert(all.take(i + 1).drop_last() =~= all.take(i as int));
            assert(all.take(i + 1).last() == all[i as int]);
            if now <= last_seen || now - last_seen <= NODE_TIMEOUT_MS {
                let addr = self.discovered_nodes[i].addr.clone();
                active_nodes.push(addr.clone());
                kept.push(DiscoveredNode { addr, last_seen });
                proof {
                    kept_view = kept_view.push(all[i as int]);
                }
            }
            i = i + 1;
        }
        assert(all.take(i as int) =~= all);
        proof {
            lemma_active_is_unique(all, now);
        }
        self.discovered_nodes = kept;
        assert(self@ =~= kept_view);
        assert(spec_texts(active_nodes@) =~= spec_addresses(self@));
        active_nodes
    }
}

} // verus!
