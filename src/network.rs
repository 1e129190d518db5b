use vstd::prelude::*;

use crate::ids::AccountId;

verus! {

/// Relies on `rand::seq::index::sample` over a `StdRng` seeded with `seed`: it returns
/// exactly `amount` distinct indices below `length`, and panics only when `amount > length`.
#[verifier::external_body]
fn draw_distinct(seed: u64, length: usize, amount: usize) -> (r: Vec<usize>)
    requires
        amount <= length,
    ensures
        r@.len() == amount,
        r@.no_duplicates(),
        forall|k: int| 0 <= k < r@.len() ==> (#[trigger] r@[k] as int) < length,
{
    let mut rng = <rand::rngs::StdRng as rand::SeedableRng>::seed_from_u64(seed);
    rand::seq::index::sample(&mut rng, length, amount).into_vec()
}

/// One consensus node: its account, the addresses it is reached at, and its health.
///
/// Times and delays are milliseconds on the caller's monotonic clock.
#[derive(Clone, Debug)]
pub struct Node {
    pub account_id: AccountId,
    pub addresses: Vec<String>,
    /// The node is skipped by healthy selection before this instant.
    pub unhealthy_until: u64,
    /// Bad outcomes since the node was last healthy.
    pub bad_count: u32,
    /// The quarantine the next bad outcome will cost.
    pub current_backoff: u64,
}

impl Node {
    pub open spec fn is_healthy_at(self, now: u64) -> bool {
        self.unhealthy_until <= now
    }

    /// A node that has never failed.
    pub fn fresh(account_id: AccountId, min_backoff: u64) -> (r: Node)
        ensures
            r.account_id == account_id,
            r.addresses@.len() == 0,
            r.unhealthy_until == 0,
            r.bad_count == 0,
            r.current_backoff == min_backoff,
    {
        Node { account_id, addresses: Vec::new(), unhealthy_until: 0, bad_count: 0, current_backoff: min_backoff }
    }

    pub fn is_healthy(&self, now: u64) -> (r: bool)
        ensures
            r == self.is_healthy_at(now),
    {
        self.unhealthy_until <= now
    }
}

/// The quarantine that starts with a bad outcome, with full jitter: between one
/// millisecond and the current backoff, picked by the random `draw`.
pub open spec fn quarantine(current_backoff: u64, draw: u64) -> u64 {
    if current_backoff == 0 { 1 } else { (1 + draw % current_backoff) as u64 }
}

/// The backoff after one more bad outcome: doubled, capped at `max_backoff`.
pub open spec fn grown_backoff(current_backoff: u64, max_backoff: u64) -> u64 {
    if current_backoff as int * 2 >= max_backoff as int { max_backoff } else { (current_backoff * 2) as u64 }
}

/// `now + delay`, or the clock's last instant where that does not fit.
pub open spec fn later_by(now: u64, delay: u64) -> u64 {
    if now as int + delay as int > u64::MAX as int { u64::MAX } else { (now + delay) as u64 }
}

/// The number of nodes among the first `upto` of `nodes` that are healthy at `now`.
pub open spec fn healthy_count(nodes: Seq<Node>, upto: int, now: u64) -> nat
    decreases upto,
{
    if upto <= 0 {
        0
    } else {
        healthy_count(nodes, upto - 1, now) + if nodes[upto - 1].is_healthy_at(now) { 1nat } else { 0nat }
    }
}

/// The addresses that `book` lists for `id`, in order.
pub open spec fn addresses_for(book: Seq<(String, AccountId)>, id: AccountId) -> Seq<String>
    decreases book.len(),
{
    if book.len() == 0 {
        Seq::empty()
    } else {
        let rest = addresses_for(book.drop_last(), id);
        if book.last().1 == id { rest.push(book.last().0) } else { rest }
    }
}

/// Whether `book` lists an address for `id`.
pub open spec fn book_names(book: Seq<(String, AccountId)>, id: AccountId) -> bool {
    exists|k: int| 0 <= k < book.len() && #[trigger] book[k].1 == id
}

proof fn lemma_unnamed_has_no_addresses(book: Seq<(String, AccountId)>, id: AccountId)
    requires
        !book_names(book, id),
    ensures
        addresses_for(book, id) == Seq::<String>::empty(),
    decreases book.len(),
{
    if book.len() > 0 {
        assert(book.last() == book[book.len() - 1]);
        assert forall|k: int| 0 <= k < book.drop_last().len() implies #[trigger] book.drop_last()[k].1 != id by {
            assert(book[k].1 != id);
        }
        lemma_unnamed_has_no_addresses(book.drop_last(), id);
    }
}

/// In a book that names each account once, an account's addresses are its one entry's.
pub proof fn lemma_single_address(book: Seq<(String, AccountId)>, k: int)
    requires
        0 <= k < book.len(),
        forall|i: int, j: int| 0 <= i < j < book.len() ==> book[i].1 != book[j].1,
    ensures
        addresses_for(book, book[k].1) == seq![book[k].0],
    decreases book.len(),
{
    let t = book.drop_last();
    assert(book.last() == book[book.len() - 1]);
    if k == book.len() - 1 {
        assert forall|w: int| 0 <= w < t.len() implies #[trigger] t[w].1 != book[k].1 by {
            assert(t[w] == book[w]);
        }
        lemma_unnamed_has_no_addresses(t, book[k].1);
        assert(Seq::<String>::empty().push(book[k].0) =~= seq![book[k].0]);
    } else {
        assert(t[k] == book[k]);
        lemma_single_address(t, k);
    }
}

/// Sample size for healthy selection: a third of the candidates, rounded up.
pub open spec fn sample_size(candidates: nat) -> nat {
    (candidates + 2) / 3
}

/// An immutable snapshot of the network: the nodes, keyed by account id, and the
/// settings of their health tracking.
#[derive(Clone, Debug)]
pub struct NetworkData {
    pub nodes: Vec<Node>,
    /// A node is removed once it has this many bad outcomes in a row.
    pub max_node_attempts: Option<usize>,
    pub min_backoff: u64,
    pub max_backoff: u64,
}

impl NetworkData {
    pub open spec fn index_of_id(self, i: int, id: AccountId) -> bool {
        0 <= i < self.nodes@.len() && self.nodes@[i].account_id == id
    }

    pub open spec fn knows(self, id: AccountId) -> bool {
        exists|i: int| 0 <= i < self.nodes@.len() && #[trigger] self.nodes@[i].account_id == id
    }

    /// `id` names a node that is healthy at `now`.
    pub open spec fn healthy_id(self, id: AccountId, now: u64) -> bool {
        exists|i: int| #[trigger] self.index_of_id(i, id) && self.nodes@[i].is_healthy_at(now)
    }

    /// Each account id names one node at most, and a limit on bad outcomes is positive.
    pub open spec fn wf(self) -> bool {
        &&& self.max_node_attempts != Some(0usize)
        &&& forall|i: int, j: int|
            0 <= i < j < self.nodes@.len() ==> self.nodes@[i].account_id != self.nodes@[j].account_id
    }

    pub open spec fn healthy_nodes(self, now: u64) -> nat {
        healthy_count(self.nodes@, self.nodes@.len() as int, now)
    }

    /// A network with no nodes.
    pub fn empty(min_backoff: u64, max_backoff: u64) -> (r: NetworkData)
        ensures
            r.wf(),
            r.nodes@.len() == 0,
            r.min_backoff == min_backoff,
            r.max_backoff == max_backoff,
            r.max_node_attempts.is_none(),
    {
        NetworkData { nodes: Vec::new(), max_node_attempts: None, min_backoff, max_backoff }
    }

    pub fn len(&self) -> (r: usize)
        ensures
            r == self.nodes@.len(),
    {
        self.nodes.len()
    }

    /// The position of the node with account `id`, if there is one.
    pub fn find(&self, id: &AccountId) -> (r: Option<usize>)
        requires
            self.wf(),
        ensures
            match r {
                Some(i) => self.index_of_id(i as int, *id),
                None => !self.knows(*id),
            },
    {
        let mut i: usize = 0;
        while i < self.nodes.len()
            invariant
                i <= self.nodes@.len(),
                forall|k: int| 0 <= k < i ==> self.nodes@[k].account_id != *id,
            decreases self.nodes@.len() - i,
        {
            if self.nodes[i].account_id.same_as(id) {
                return Some(i);
            }
            i += 1;
        }
        None
    }

    /// The account ids of all nodes, in order.
    pub fn node_ids(&self) -> (r: Vec<AccountId>)
        ensures
            r@.len() == self.nodes@.len(),
            forall|k: int| 0 <= k < r@.len() ==> r@[k] == #[trigger] self.nodes@[k].account_id,
    {
        let mut r: Vec<AccountId> = Vec::new();
        let mut i: usize = 0;
        while i < self.nodes.len()
            invariant
                i <= self.nodes@.len(),
                r@.len() == i,
                forall|k: int| 0 <= k < i ==> r@[k] == #[trigger] self.nodes@[k].account_id,
            decreases self.nodes@.len() - i,
        {
            r.push(self.nodes[i].account_id);
            i += 1;
        }
        r
    }

    /// The positions of the nodes named by `ids`, in the given order, or the first id
    /// that names no node.
    pub fn node_indexes_for_ids(&self, ids: &Vec<AccountId>) -> (r: Result<Vec<usize>, AccountId>)
        requires
            self.wf(),
        ensures
            match r {
                Ok(v) => {
                    &&& v@.len() == ids@.len()
                    &&& forall|k: int| 0 <= k < v@.len() ==> self.index_of_id(#[trigger] v@[k] as int, ids@[k])
                },
                Err(id) => exists|k: int|
                    0 <= k < ids@.len() && ids@[k] == id && !self.knows(id)
                        && forall|j: int| 0 <= j < k ==> self.knows(#[trigger] ids@[j]),
            },
            r.is_ok() <==> forall|k: int| 0 <= k < ids@.len() ==> self.knows(#[trigger] ids@[k]),
    {
        let mut v: Vec<usize> = Vec::new();
        let mut k: usize = 0;
        while k < ids.len()
            invariant
                self.wf(),
                k <= ids@.len(),
                v@.len() == k,
                forall|j: int| 0 <= j < k ==> self.index_of_id(#[trigger] v@[j] as int, ids@[j]),
                forall|j: int| 0 <= j < k ==> self.knows(#[trigger] ids@[j]),
            decreases ids@.len() - k,
        {
            match self.find(&ids[k]) {
                Some(i) => {
                    v.push(i);
                },
                None => {
                    return Err(ids[k]);
                },
            }
            k += 1;
        }
        Ok(v)
    }

    /// The positions of the nodes healthy at `now`, in increasing order.
    pub fn healthy_node_indexes(&self, now: u64) -> (r: Vec<usize>)
        ensures
            r@.len() == self.healthy_nodes(now),
            forall|k: int| 0 <= k < r@.len() ==> (#[trigger] r@[k] as int) < self.nodes@.len(),
            forall|k: int| 0 <= k < r@.len() ==> self.nodes@[#[trigger] r@[k] as int].is_healthy_at(now),
            forall|a: int, b: int| 0 <= a < b < r@.len() ==> r@[a] < r@[b],
            forall|i: int| 0 <= i < self.nodes@.len() && #[trigger] self.nodes@[i].is_healthy_at(now)
                ==> r@.contains(i as usize),
    {
        let mut r: Vec<usize> = Vec::new();
        let mut i: usize = 0;
        while i < self.nodes.len()
            invariant
                i <= self.nodes@.len(),
                r@.len() == healthy_count(self.nodes@, i as int, now),
                forall|k: int| 0 <= k < r@.len() ==> (#[trigger] r@[k] as int) < i,
                forall|k: int| 0 <= k < r@.len() ==> self.nodes@[#[trigger] r@[k] as int].is_healthy_at(now),
                forall|a: int, b: int| 0 <= a < b < r@.len() ==> r@[a] < r@[b],
                forall|j: int| 0 <= j < i && #[trigger] self.nodes@[j].is_healthy_at(now)
                    ==> r@.contains(j as usize),
            decreases self.nodes@.len() - i,
        {
            let ghost before = r@;
            if self.nodes[i].is_healthy(now) {
                r.push(i);
                assert(r@[r@.len() - 1] == i);
            }
            proof {
                assert forall|j: int| 0 <= j < i + 1 && #[trigger] self.nodes@[j].is_healthy_at(now)
                    implies r@.contains(j as usize) by {
                    if j == i {
                        assert(r@[r@.len() - 1] == i);
                    } else {
                        assert(before.contains(j as usize));
                        let w = choose|w: int| 0 <= w < before.len() && before[w] == j as usize;
                        assert(r@[w] == j as usize);
                    }
                }
            }
            i += 1;
        }
        r
    }

    /// Records a bad outcome of node `index` at `now`: it is quarantined for a jittered
    /// part of its current backoff (at least one millisecond, at most the backoff, picked
    /// by the random `draw`), its backoff doubles up to the ceiling, and its bad-outcome
    /// count grows. No other node changes.
    pub fn mark_node_unhealthy(&mut self, index: usize, now: u64, draw: u64)
        requires
            old(self).wf(),
            index < old(self).nodes@.len(),
        ensures
            final(self).wf(),
            final(self).nodes@.len() == old(self).nodes@.len(),
            final(self).min_backoff == old(self).min_backoff,
            final(self).max_backoff == old(self).max_backoff,
            final(self).max_node_attempts == old(self).max_node_attempts,
            forall|j: int| 0 <= j < old(self).nodes@.len() && j != index
                ==> #[trigger] final(self).nodes@[j] == old(self).nodes@[j],
            final(self).nodes@[index as int].account_id == old(self).nodes@[index as int].account_id,
            final(self).nodes@[index as int].addresses == old(self).nodes@[index as int].addresses,
            final(self).nodes@[index as int].unhealthy_until
                == later_by(now, quarantine(old(self).nodes@[index as int].current_backoff, draw)),
            final(self).nodes@[index as int].bad_count == if old(self).nodes@[index as int].bad_count
                == u32::MAX { u32::MAX } else { (old(self).nodes@[index as int].bad_count + 1) as u32 },
            final(self).nodes@[index as int].current_backoff
                == grown_backoff(old(self).nodes@[index as int].current_backoff, old(self).max_backoff),
            now < u64::MAX ==> !final(self).nodes@[index as int].is_healthy_at(now)
                && final(self).nodes@[index as int].unhealthy_until > now,
            old(self).nodes@[index as int].bad_count < u32::MAX
                ==> final(self).nodes@[index as int].bad_count == old(self).nodes@[index as int].bad_count + 1,
    {
        let max_backoff = self.max_backoff;
        let node = &mut self.nodes[index];
        let delay: u64 = if node.current_backoff == 0 { 1 } else { 1 + draw % node.current_backoff };
        node.unhealthy_until = if now > u64::MAX - delay { u64::MAX } else { now + delay };
        if node.bad_count < u32::MAX {
            node.bad_count = node.bad_count + 1;
        }
        node.current_backoff = if node.current_backoff >= max_backoff
            || node.current_backoff >= max_backoff - node.current_backoff {
            max_backoff
        } else {
            node.current_backoff * 2
        };
    }

    /// Records a good outcome of node `index`: its backoff returns to the floor, its count
    /// to zero, and it is healthy from now on. No other node changes.
    pub fn mark_node_healthy(&mut self, index: usize)
        requires
            old(self).wf(),
            index < old(self).nodes@.len(),
        ensures
            final(self).wf(),
            final(self).nodes@.len() == old(self).nodes@.len(),
            final(self).min_backoff == old(self).min_backoff,
            final(self).max_backoff == old(self).max_backoff,
            final(self).max_node_attempts == old(self).max_node_attempts,
            forall|j: int| 0 <= j < old(self).nodes@.len() && j != index
                ==> #[trigger] final(self).nodes@[j] == old(self).nodes@[j],
            final(self).nodes@[index as int].account_id == old(self).nodes@[index as int].account_id,
            final(self).nodes@[index as int].addresses == old(self).nodes@[index as int].addresses,
            final(self).nodes@[index as int].unhealthy_until == 0,
            final(self).nodes@[index as int].bad_count == 0,
            final(self).nodes@[index as int].current_backoff == old(self).min_backoff,
    {
        let min_backoff = self.min_backoff;
        let node = &mut self.nodes[index];
        node.unhealthy_until = 0;
        node.bad_count = 0;
        node.current_backoff = min_backoff;
    }

    /// Whether node `index` has had as many bad outcomes in a row as the network allows.
    pub open spec fn exceeded(self, index: int) -> bool {
        match self.max_node_attempts {
            Some(m) => self.nodes@[index].bad_count as int >= m as int,
            None => false,
        }
    }

    /// Removes node `index` when it has exceeded the allowed bad outcomes; says whether it did.
    pub fn remove_node_if_exceeded(&mut self, index: usize) -> (r: bool)
        requires
            old(self).wf(),
            index < old(self).nodes@.len(),
        ensures
            final(self).wf(),
            r == old(self).exceeded(index as int),
            final(self).nodes@ == if r { old(self).nodes@.remove(index as int) } else { old(self).nodes@ },
            final(self).min_backoff == old(self).min_backoff,
            final(self).max_backoff == old(self).max_backoff,
            final(self).max_node_attempts == old(self).max_node_attempts,
    {
        let exceeded = match self.max_node_attempts {
            Some(m) => self.nodes[index].bad_count as usize >= m,
            None => false,
        };
        if exceeded {
            let ghost before = self.nodes@;
            let _removed = self.nodes.remove(index);
            assert forall|i: int| 0 <= i < self.nodes@.len() implies
                #[trigger] self.nodes@[i] == before[if i < index { i } else { i + 1 }] by {}
        }
        exceeded
    }

    /// The nodes to try in one round.
    ///
    /// With `explicit` positions, exactly those, in the given order. Otherwise a third
    /// (rounded up) of the nodes healthy at `now`, distinct and drawn at random from
    /// `seed`; when no node is healthy, every node in order.
    pub fn select_nodes(&self, explicit: &Option<Vec<usize>>, now: u64, seed: u64) -> (r: Vec<usize>)
        ensures
            explicit.is_some() ==> r@ == explicit.unwrap()@,
            explicit.is_none() && self.healthy_nodes(now) > 0 ==> {
                &&& r@.len() == sample_size(self.healthy_nodes(now))
                &&& r@.no_duplicates()
                &&& forall|k: int| 0 <= k < r@.len() ==> (#[trigger] r@[k] as int) < self.nodes@.len()
                    && self.nodes@[r@[k] as int].is_healthy_at(now)
            },
            explicit.is_none() && self.healthy_nodes(now) == 0 ==> {
                &&& r@.len() == self.nodes@.len()
                &&& forall|k: int| 0 <= k < r@.len() ==> #[trigger] r@[k] == k
            },
    {
        match explicit {
            Some(v) => {
                let mut r: Vec<usize> = Vec::new();
                let mut k: usize = 0;
                while k < v.len()
                    invariant
                        k <= v@.len(),
                        r@ == v@.take(k as int),
                    decreases v@.len() - k,
                {
                    r.push(v[k]);
                    k += 1;
                    assert(r@ =~= v@.take(k as int));
                }
                assert(r@ =~= v@);
                r
            },
            None => {
                let healthy = self.healthy_node_indexes(now);
                if healthy.len() == 0 {
                    let mut r: Vec<usize> = Vec::new();
                    let mut k: usize = 0;
                    while k < self.nodes.len()
                        invariant
                            k <= self.nodes@.len(),
                            r@.len() == k,
                            forall|j: int| 0 <= j < k ==> #[trigger] r@[j] == j,
                        decreases self.nodes@.len() - k,
                    {
                        r.push(k);
                        k += 1;
                    }
                    r
                } else {
                    let amount = healthy.len() / 3 + if healthy.len() % 3 == 0 { 0 } else { 1 };
                    assert(amount == sample_size(healthy@.len() as nat));
                    let draws = draw_distinct(seed, healthy.len(), amount);
                    let mut r: Vec<usize> = Vec::new();
                    let mut k: usize = 0;
                    while k < draws.len()
                        invariant
                            k <= draws@.len(),
                            r@.len() == k,
                            draws@.len() == amount,
                            draws@.no_duplicates(),
                            forall|j: int| 0 <= j < draws@.len() ==> (#[trigger] draws@[j] as int) < healthy@.len(),
                            forall|j: int| 0 <= j < k ==> #[trigger] r@[j] == healthy@[draws@[j] as int],
                        decreases draws@.len() - k,
                    {
                        r.push(healthy[draws[k]]);
                        k += 1;
                    }
                    assert forall|a: int, b: int| 0 <= a < r@.len() && 0 <= b < r@.len() && a != b
                        implies r@[a] != r@[b] by {
                        assert(draws@[a] != draws@[b]);
                        let (x, y) = (draws@[a] as int, draws@[b] as int);
                        if x < y {
                            assert(healthy@[x] < healthy@[y]);
                        } else {
                            assert(healthy@[y] < healthy@[x]);
                        }
                    }
                    assert forall|k: int| 0 <= k < r@.len() implies (#[trigger] r@[k] as int) < self.nodes@.len()
                        && self.nodes@[r@[k] as int].is_healthy_at(now) by {
                        assert(r@[k] == healthy@[draws@[k] as int]);
                    }
                    r
                }
            },
        }
    }

    /// The snapshot that follows applying the address list `book`: one node per account
    /// that `book` names, in order of first mention, holding that account's addresses in
    /// order. A node that was already here keeps its health; a new one starts fresh.
    pub fn update_from_addresses(&self, book: &Vec<(String, AccountId)>) -> (r: NetworkData)
        requires
            self.wf(),
        ensures
            r.wf(),
            r.min_backoff == self.min_backoff,
            r.max_backoff == self.max_backoff,
            r.max_node_attempts == self.max_node_attempts,
            forall|id: AccountId| r.knows(id) <==> book_names(book@, id),
            forall|i: int| 0 <= i < r.nodes@.len()
                ==> (#[trigger] r.nodes@[i]).addresses@ == addresses_for(book@, r.nodes@[i].account_id),
            forall|i: int, j: int| 0 <= i < r.nodes@.len() && #[trigger] self.index_of_id(j, r.nodes@[i].account_id)
                ==> r.nodes@[i].unhealthy_until == self.nodes@[j].unhealthy_until
                    && r.nodes@[i].bad_count == self.nodes@[j].bad_count
                    && r.nodes@[i].current_backoff == self.nodes@[j].current_backoff,
            forall|i: int| 0 <= i < r.nodes@.len() && !self.knows(#[trigger] r.nodes@[i].account_id)
                ==> r.nodes@[i].unhealthy_until == 0 && r.nodes@[i].bad_count == 0
                    && r.nodes@[i].current_backoff == self.min_backoff,
    {
        let mut r = NetworkData::empty(self.min_backoff, self.max_backoff);
        r.max_node_attempts = self.max_node_attempts;
        let mut k: usize = 0;
        while k < book.len()
            invariant
                self.wf(),
                r.wf(),
                k <= book@.len(),
                r.min_backoff == self.min_backoff,
                r.max_backoff == self.max_backoff,
                r.max_node_attempts == self.max_node_attempts,
                forall|id: AccountId| r.knows(id) <==> book_names(book@.take(k as int), id),
                forall|i: int| 0 <= i < r.nodes@.len()
                    ==> (#[trigger] r.nodes@[i]).addresses@ == addresses_for(book@.take(k as int), r.nodes@[i].account_id),
                forall|i: int, j: int| 0 <= i < r.nodes@.len() && #[trigger] self.index_of_id(j, r.nodes@[i].account_id)
                    ==> r.nodes@[i].unhealthy_until == self.nodes@[j].unhealthy_until
                        && r.nodes@[i].bad_count == self.nodes@[j].bad_count
                        && r.nodes@[i].current_backoff == self.nodes@[j].current_backoff,
                forall|i: int| 0 <= i < r.nodes@.len() && !self.knows(#[trigger] r.nodes@[i].account_id)
                    ==> r.nodes@[i].unhealthy_until == 0 && r.nodes@[i].bad_count == 0
                        && r.nodes@[i].current_backoff == self.min_backoff,
            decreases book@.len() - k,
        {
            let ghost prefix = book@.take(k as int);
            let ghost next = book@.take(k + 1);
            let ghost before = r;
            assert(next.drop_last() =~= prefix);
            assert(next.last() == book@[k as int]);
            let id = book[k].1;
            let address = book[k].0.clone();
            match r.find(&id) {
                Some(p) => {
                    let node = &mut r.nodes[p];
                    node.addresses.push(address);
                    assert(r.nodes@.len() == before.nodes@.len());
                    assert(forall|i: int| 0 <= i < before.nodes@.len() && i != p
                        ==> #[trigger] r.nodes@[i] == before.nodes@[i]);
                    assert(r.nodes@[p as int].account_id == id);
                    assert(r.nodes@[p as int].addresses@ =~= addresses_for(next, id));
                },
                None => {
                    let mut node = match self.find(&id) {
                        Some(j) => Node {
                            account_id: id,
                            addresses: Vec::new(),
                            unhealthy_until: self.nodes[j].unhealthy_until,
                            bad_count: self.nodes[j].bad_count,
                            current_backoff: self.nodes[j].current_backoff,
                        },
                        None => Node::fresh(id, self.min_backoff),
                    };
                    node.addresses.push(address);
                    r.nodes.push(node);
                    assert(r.nodes@.len() == before.nodes@.len() + 1);
                    assert(forall|i: int| 0 <= i < before.nodes@.len()
                        ==> #[trigger] r.nodes@[i] == before.nodes@[i]);
                    assert(r.nodes@[r.nodes@.len() - 1].account_id == id);
                    assert(!book_names(prefix, id));
                    assert(addresses_for(prefix, id) =~= Seq::empty()) by {
                        lemma_unnamed_has_no_addresses(prefix, id);
                    }
                    assert(r.nodes@[r.nodes@.len() - 1].addresses@ =~= addresses_for(next, id));
                },
            }
            assert forall|x: AccountId| r.knows(x) <==> book_names(next, x) by {
                if r.knows(x) && x != id {
                    let i = choose|i: int| 0 <= i < r.nodes@.len() && #[trigger] r.nodes@[i].account_id == x;
                    assert(before.nodes@[i].account_id == x);
                    assert(before.knows(x));
                    let w = choose|w: int| 0 <= w < prefix.len() && #[trigger] prefix[w].1 == x;
                    assert(next[w].1 == x);
                }
                if book_names(next, x) && x != id {
                    let w = choose|w: int| 0 <= w < next.len() && #[trigger] next[w].1 == x;
                    assert(prefix[w].1 == x);
                    assert(book_names(prefix, x));
                    assert(before.knows(x));
                    let i = choose|i: int| 0 <= i < before.nodes@.len() && #[trigger] before.nodes@[i].account_id == x;
                    assert(r.nodes@[i].account_id == x);
                }
                if x == id {
                    assert(next[k as int].1 == x);
                    let i = choose|i: int| 0 <= i < r.nodes@.len() && #[trigger] r.nodes@[i].account_id == id
                        || (i == r.nodes@.len() - 1 && r.nodes@[i].account_id == id);
                    assert(r.knows(id));
                }
            }
            k += 1;
        }
        assert(book@.take(k as int) =~= book@);
        r
    }

    /// A snapshot of fresh nodes built from the address list `book`.
    pub fn from_addresses(book: &Vec<(String, AccountId)>, min_backoff: u64, max_backoff: u64) -> (r: NetworkData)
        ensures
            r.wf(),
            r.min_backoff == min_backoff,
            r.max_backoff == max_backoff,
            r.max_node_attempts.is_none(),
            forall|id: AccountId| r.knows(id) <==> book_names(book@, id),
            forall|i: int| 0 <= i < r.nodes@.len()
                ==> (#[trigger] r.nodes@[i]).addresses@ == addresses_for(book@, r.nodes@[i].account_id),
            forall|i: int| 0 <= i < r.nodes@.len() ==> (#[trigger] r.nodes@[i]).unhealthy_until == 0
                && r.nodes@[i].bad_count == 0 && r.nodes@[i].current_backoff == min_backoff,
    {
        let empty = NetworkData::empty(min_backoff, max_backoff);
        empty.update_from_addresses(book)
    }

    /// Whether `entry` pairs an address of some node with that node's account id.
    pub open spec fn lists(self, entry: (String, AccountId)) -> bool {
        exists|n: int| 0 <= n < self.nodes@.len() && #[trigger] self.nodes@[n].account_id == entry.1
            && self.nodes@[n].addresses@.contains(entry.0)
    }

    /// Every address of every node, with the node's account id.
    pub fn addresses(&self) -> (r: Vec<(String, AccountId)>)
        ensures
            forall|k: int| 0 <= k < r@.len() ==> self.lists(#[trigger] r@[k]),
            forall|i: int, a: int| 0 <= i < self.nodes@.len() && 0 <= a < self.nodes@[i].addresses@.len()
                ==> r@.contains((#[trigger] self.nodes@[i].addresses@[a], self.nodes@[i].account_id)),
    {
        let mut r: Vec<(String, AccountId)> = Vec::new();
        let mut i: usize = 0;
        while i < self.nodes.len()
            invariant
                i <= self.nodes@.len(),
                forall|k: int| 0 <= k < r@.len() ==> self.lists(#[trigger] r@[k]),
                forall|n: int, a: int| 0 <= n < i && 0 <= a < self.nodes@[n].addresses@.len()
                    ==> r@.contains((#[trigger] self.nodes@[n].addresses@[a], self.nodes@[n].account_id)),
            decreases self.nodes@.len() - i,
        {
            let node = &self.nodes[i];
            let mut a: usize = 0;
            while a < node.addresses.len()
                invariant
                    i < self.nodes@.len(),
                    *node == self.nodes@[i as int],
                    a <= node.addresses@.len(),
                    forall|k: int| 0 <= k < r@.len() ==> self.lists(#[trigger] r@[k]),
                    forall|n: int, x: int| 0 <= n < i && 0 <= x < self.nodes@[n].addresses@.len()
                        ==> r@.contains((#[trigger] self.nodes@[n].addresses@[x], self.nodes@[n].account_id)),
                    forall|x: int| 0 <= x < a
                        ==> r@.contains((#[trigger] self.nodes@[i as int].addresses@[x], self.nodes@[i as int].account_id)),
                decreases node.addresses@.len() - a,
            {
                let address = node.addresses[a].clone();
                assert(node.addresses@[a as int] == address);
                assert(self.nodes@[i as int].addresses@.contains(address));
                let ghost before = r@;
                r.push((address, node.account_id));
                assert(self.lists(r@[r@.len() - 1]));
                assert forall|e: (String, AccountId)| before.contains(e) implies r@.contains(e) by {
                    let w = choose|w: int| 0 <= w < before.len() && before[w] == e;
                    assert(r@[w] == e);
                }
                assert(r@[r@.len() - 1] == (self.nodes@[i as int].addresses@[a as int], self.nodes@[i as int].account_id));
                a += 1;
            }
            i += 1;
        }
        r
    }
}

/// Marking one node changes the health of no other: when `after` differs from `before`
/// at most in node `index`, every other account id is healthy in `after` at any instant
/// exactly when it is in `before`.
pub proof fn lemma_health_isolated(before: NetworkData, after: NetworkData, index: int, now: u64)
    requires
        before.wf(),
        0 <= index < before.nodes@.len(),
        after.nodes@.len() == before.nodes@.len(),
        after.nodes@[index].account_id == before.nodes@[index].account_id,
        forall|j: int| 0 <= j < before.nodes@.len() && j != index ==> #[trigger] after.nodes@[j] == before.nodes@[j],
    ensures
        forall|id: AccountId| id != before.nodes@[index].account_id
            ==> (#[trigger] after.healthy_id(id, now) <==> before.healthy_id(id, now)),
{
    assert forall|id: AccountId| id != before.nodes@[index].account_id
        implies (#[trigger] after.healthy_id(id, now) <==> before.healthy_id(id, now)) by {
        if after.healthy_id(id, now) {
            let i = choose|i: int| #[trigger] after.index_of_id(i, id) && after.nodes@[i].is_healthy_at(now);
            assert(before.index_of_id(i, id));
        }
        if before.healthy_id(id, now) {
            let i = choose|i: int| #[trigger] before.index_of_id(i, id) && before.nodes@[i].is_healthy_at(now);
            assert(after.index_of_id(i, id));
        }
    }
}

/// A quarantine lasts at least one millisecond and at most the node's backoff (or one
/// millisecond when the backoff is zero), so a marked node is unhealthy right after.
pub proof fn lemma_quarantine_bounds(current_backoff: u64, draw: u64, now: u64)
    requires
        now < u64::MAX,
    ensures
        1 <= quarantine(current_backoff, draw),
        current_backoff > 0 ==> quarantine(current_backoff, draw) <= current_backoff,
        later_by(now, quarantine(current_backoff, draw)) > now,
{
}

/// Healthy selection draws no fewer than one node when any is healthy, and never more
/// than there are.
pub proof fn lemma_sample_size_bounds(healthy: nat)
    requires
        healthy > 0,
    ensures
        1 <= sample_size(healthy) <= healthy,
{
}

} // verus!
