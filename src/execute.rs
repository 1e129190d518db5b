use vstd::prelude::*;

use crate::error::Error;
use crate::ids::{AccountId, Timestamp, TransactionId};
use crate::network::{sample_size, NetworkData};
use crate::status::{
    busy_status, is_busy, is_node_failure, is_success, node_failure_code, success_status,
    TRANSACTION_EXPIRED,
};

verus! {

/// What a node's answer to one call came to.
#[derive(Clone, Debug, PartialEq, Eq)]
pub enum Outcome {
    /// The transport failed with this gRPC status code.
    Transport(i32),
    /// The node answered with a pre-check status that the response-code schema defines.
    Status(i32),
    /// The node answered with a status the schema does not define.
    UnknownStatus(i32),
    /// The answer could not be decoded.
    Undecodable(String),
}

/// What the caller does after an outcome has been handed in.
#[derive(Debug)]
pub enum Step {
    /// The node accepted the request: mark it healthy and build the response.
    Succeeded { node: AccountId, transaction_id: Option<TransactionId> },
    /// The execution is over with this error.
    Failed(Error),
    /// Go on with the round; first mark `unhealthy` as such where it is set.
    Continue { unhealthy: Option<AccountId> },
}

/// The error kept for the record, boxed.
pub open spec fn boxed(e: Option<Error>) -> Option<Box<Error>> {
    match e {
        Some(x) => Some(Box::new(x)),
        None => None,
    }
}

/// A valid start strictly after `prev` can be had at `now`: `now` is later than `prev`, or
/// one nanosecond after `prev` is still a representable instant.
pub open spec fn follows(prev: Timestamp, now: Timestamp) -> bool {
    now.total_nanos() > prev.total_nanos() || prev.seconds < i64::MAX
}

/// The transaction id that replaces an expired `prev` at `now`: same payer, valid from
/// `now` when that is later, else from one nanosecond after `prev`.
pub open spec fn regenerated_id(prev: TransactionId, now: Timestamp) -> TransactionId {
    TransactionId {
        account_id: prev.account_id,
        valid_start: if now.total_nanos() > prev.valid_start.total_nanos() {
            now
        } else if prev.valid_start.nanos + 1 == 1_000_000_000 {
            Timestamp { seconds: (prev.valid_start.seconds + 1) as i64, nanos: 0 }
        } else {
            Timestamp { seconds: prev.valid_start.seconds, nanos: (prev.valid_start.nanos + 1) as u32 }
        },
        scheduled: false,
        nonce: None,
    }
}

/// `s` with repeats removed, keeping the first of each, in order.
pub open spec fn distinct_ids(s: Seq<AccountId>) -> Seq<AccountId>
    decreases s.len(),
{
    if s.len() == 0 {
        Seq::empty()
    } else {
        let d = distinct_ids(s.drop_last());
        if d.contains(s.last()) { d } else { d.push(s.last()) }
    }
}

/// Removing repeats leaves each id of `s` once and adds none.
pub proof fn lemma_distinct_ids(s: Seq<AccountId>)
    ensures
        distinct_ids(s).no_duplicates(),
        forall|x: AccountId| distinct_ids(s).contains(x) <==> s.contains(x),
    decreases s.len(),
{
    if s.len() > 0 {
        let t = s.drop_last();
        let l = s.last();
        lemma_distinct_ids(t);
        let d = distinct_ids(t);
        assert forall|x: AccountId| s.contains(x) <==> (t.contains(x) || x == l) by {
            if s.contains(x) {
                let i = choose|i: int| 0 <= i < s.len() && s[i] == x;
                if i < t.len() {
                    assert(t[i] == x);
                }
            }
            if t.contains(x) {
                let i = choose|i: int| 0 <= i < t.len() && t[i] == x;
                assert(s[i] == x);
            }
            if x == l {
                assert(s[s.len() - 1] == x);
            }
        }
        if !d.contains(l) {
            let e = d.push(l);
            assert forall|x: AccountId| e.contains(x) <==> (d.contains(x) || x == l) by {
                if e.contains(x) {
                    let i = choose|i: int| 0 <= i < e.len() && e[i] == x;
                    if i < d.len() {
                        assert(d[i] == x);
                    }
                }
                if d.contains(x) {
                    let i = choose|i: int| 0 <= i < d.len() && d[i] == x;
                    assert(e[i] == x);
                }
                if x == l {
                    assert(e[d.len() as int] == x);
                }
            }
            assert forall|i: int, j: int| 0 <= i < e.len() && 0 <= j < e.len() && i != j implies e[i] != e[j] by {
                if i == d.len() {
                    assert(d.contains(e[j]) || e[j] == l);
                    if e[j] == l && j < d.len() {
                        assert(d[j] == l);
                    }
                } else if j == d.len() {
                    if e[i] == l {
                        assert(d[i] == l);
                    }
                }
            }
        }
    }
}

/// The ids of `ids`, each once, in the order of first mention.
fn distinct(ids: &Vec<AccountId>) -> (r: Vec<AccountId>)
    ensures
        r@ == distinct_ids(ids@),
{
    let mut r: Vec<AccountId> = Vec::new();
    let mut k: usize = 0;
    while k < ids.len()
        invariant
            k <= ids@.len(),
            r@ == distinct_ids(ids@.take(k as int)),
        decreases ids@.len() - k,
    {
        let id = ids[k];
        let mut seen = false;
        let mut j: usize = 0;
        while j < r.len()
            invariant
                j <= r@.len(),
                seen <==> exists|i: int| 0 <= i < j && r@[i] == id,
            decreases r@.len() - j,
        {
            if r[j].same_as(&id) {
                seen = true;
            }
            j += 1;
        }
        assert(ids@.take(k + 1).drop_last() =~= ids@.take(k as int));
        assert(ids@.take(k + 1).last() == id);
        if !seen {
            r.push(id);
        }
        k += 1;
    }
    assert(ids@.take(k as int) =~= ids@);
    r
}

/// The state of one execute call: which nodes this round tries, which transaction id
/// the next request carries, and what went wrong last.
///
/// A round tries each node of its sample once, in order. Between counted rounds the
/// caller waits for the request backoff; a round that ended on a regenerated transaction
/// id is followed at once by one that does not count.
pub struct Execution {
    pub explicit_transaction_id: bool,
    pub regenerate_transaction_ids: bool,
    pub transaction_id: Option<TransactionId>,
    pub explicit_nodes: Option<Vec<AccountId>>,
    pub max_attempts: usize,
    /// Counted rounds begun so far.
    pub attempt: usize,
    pub sample: Vec<AccountId>,
    /// How many nodes of the sample have answered in this round.
    pub position: usize,
    pub last_error: Option<Error>,
    /// The last answer regenerated the transaction id.
    pub regenerated: bool,
    /// The current round counts toward `max_attempts`.
    pub counted: bool,
    /// The wait before the next round is over (or none is needed yet).
    pub cleared: bool,
    pub finished: bool,
    /// Calls answered in counted rounds.
    pub calls: Ghost<nat>,
    /// The largest sample of a counted round.
    pub widest: Ghost<nat>,
}

impl Execution {
    pub open spec fn wf(self) -> bool {
        &&& self.position <= self.sample@.len()
        &&& self.attempt <= self.max_attempts
        &&& self.counted ==> self.attempt >= 1 && self.sample@.len() <= self.widest@
            && self.calls@ <= (self.attempt - 1) * self.widest@ + self.position
        &&& !self.counted ==> self.calls@ <= self.attempt * self.widest@
        &&& self.explicit_transaction_id ==> self.transaction_id.is_some()
        &&& self.transaction_id.is_some() ==> self.transaction_id.unwrap().valid_start.wf()
    }

    /// A round is under way and has nodes left to try.
    pub open spec fn in_round(self) -> bool {
        !self.finished && self.position < self.sample@.len()
    }

    /// The round is over and the request backoff decides what comes next.
    pub open spec fn awaits_backoff(self) -> bool {
        !self.finished && self.position == self.sample@.len() && !self.regenerated
    }

    /// A new round may begin: the last one is over and its wait, if it needs one, is done.
    pub open spec fn ready(self) -> bool {
        !self.finished && self.position == self.sample@.len() && (self.cleared || self.regenerated)
    }

    /// Starts an execute call.
    ///
    /// Fails with `NoPayerAccountOrTransactionId` when a transaction id is needed and neither
    /// one nor an operator is given. A needed id is the explicit one, or one generated for the
    /// operator at `now`; a request that needs none carries none.
    pub fn new(
        requires_transaction_id: bool,
        explicit_transaction_id: Option<TransactionId>,
        operator: Option<AccountId>,
        explicit_nodes: Option<Vec<AccountId>>,
        max_attempts: usize,
        regenerate_transaction_ids: bool,
        now: Timestamp,
    ) -> (r: Result<Execution, Error>)
        requires
            now.wf(),
            explicit_transaction_id.is_some() ==> explicit_transaction_id.unwrap().valid_start.wf(),
        ensures
            r.is_err() <==> requires_transaction_id && explicit_transaction_id.is_none() && operator.is_none(),
            r.is_err() ==> r == Err::<Execution, Error>(Error::NoPayerAccountOrTransactionId),
            r.is_ok() ==> {
                let e = r.unwrap();
                &&& e.wf()
                &&& !e.finished && e.position == 0 && e.sample@.len() == 0 && !e.regenerated && e.cleared
                &&& e.attempt == 0 && e.last_error.is_none()
                &&& e.max_attempts == max_attempts
                &&& e.explicit_nodes == explicit_nodes
                &&& e.regenerate_transaction_ids == regenerate_transaction_ids
                &&& e.explicit_transaction_id == (requires_transaction_id && explicit_transaction_id.is_some())
                &&& e.transaction_id == if !requires_transaction_id {
                    None
                } else if explicit_transaction_id.is_some() {
                    explicit_transaction_id
                } else {
                    Some(TransactionId { account_id: operator.unwrap(), valid_start: now, scheduled: false, nonce: None })
                }
            },
    {
        if requires_transaction_id && explicit_transaction_id.is_none() && operator.is_none() {
            return Err(Error::NoPayerAccountOrTransactionId);
        }
        let transaction_id = if !requires_transaction_id {
            None
        } else {
            match explicit_transaction_id {
                Some(id) => Some(id),
                None => Some(TransactionId::with_valid_start(operator.unwrap(), now)),
            }
        };
        Ok(Execution {
            explicit_transaction_id: requires_transaction_id && explicit_transaction_id.is_some(),
            regenerate_transaction_ids,
            transaction_id,
            explicit_nodes,
            max_attempts,
            attempt: 0,
            sample: Vec::new(),
            position: 0,
            last_error: None,
            regenerated: false,
            counted: false,
            cleared: true,
            finished: false,
            calls: Ghost(0),
            widest: Ghost(0),
        })
    }

    /// The node the next call goes to, while a round is under way.
    pub fn current_node(&self) -> (r: Option<AccountId>)
        ensures
            r.is_some() <==> self.in_round(),
            r.is_some() ==> r.unwrap() == self.sample@[self.position as int],
    {
        if !self.finished && self.position < self.sample.len() {
            Some(self.sample[self.position])
        } else {
            None
        }
    }

    /// Whether the round is over and the request backoff must be asked for a delay.
    pub fn needs_backoff(&self) -> (r: bool)
        ensures
            r == self.awaits_backoff(),
    {
        !self.finished && self.position == self.sample.len() && !self.regenerated
    }

    /// Ends the call as the caller cancels it or its deadline passes.
    pub fn cancel(&mut self) -> (r: Error)
        ensures
            final(self).finished,
            r == Error::TimedOut(boxed(old(self).last_error)),
            final(self).sample == old(self).sample,
    {
        self.finished = true;
        let last = self.last_error.take();
        Error::TimedOut(match last {
            Some(e) => Some(Box::new(e)),
            None => None,
        })
    }

    /// Begins a round against the snapshot `net` at `now` (milliseconds of the monotonic
    /// clock), drawing healthy nodes from `seed`.
    ///
    /// A round that follows a regenerated transaction id does not count; any other needs an
    /// attempt left, else the call fails with `MaxAttemptsExceeded`. With explicit nodes the
    /// sample is exactly those, in order (`NodeAccountUnknown` names the first one the
    /// network lacks); otherwise it is a third, rounded up, of the healthy nodes, or every
    /// node when none is healthy. An empty sample fails with `NodeAccountUnknown`.
    pub fn begin_round(&mut self, net: &NetworkData, now: u64, seed: u64) -> (r: Result<(), Error>)
        requires
            old(self).wf(),
            old(self).ready(),
            net.wf(),
        ensures
            final(self).wf(),
            final(self).transaction_id == old(self).transaction_id,
            final(self).explicit_nodes == old(self).explicit_nodes,
            final(self).max_attempts == old(self).max_attempts,
            final(self).explicit_transaction_id == old(self).explicit_transaction_id,
            final(self).regenerate_transaction_ids == old(self).regenerate_transaction_ids,
            r.is_ok() ==> final(self).counted == !old(self).regenerated,
            final(self).attempt == if old(self).regenerated || r.is_err() { old(self).attempt } else { (old(self).attempt + 1) as usize },
            !old(self).regenerated && old(self).attempt >= old(self).max_attempts ==> r
                == Err::<(), Error>(Error::MaxAttemptsExceeded(boxed(old(self).last_error))) && final(self).finished,
            (old(self).regenerated || old(self).attempt < old(self).max_attempts) ==> match old(self).explicit_nodes {
                Some(ids) => if exists|k: int| 0 <= k < ids@.len() && !net.knows(#[trigger] ids@[k]) {
                    final(self).finished && exists|k: int| 0 <= k < distinct_ids(ids@).len()
                        && !net.knows(distinct_ids(ids@)[k])
                        && r == Err::<(), Error>(Error::NodeAccountUnknown(Some(distinct_ids(ids@)[k])))
                        && forall|j: int| 0 <= j < k ==> net.knows(#[trigger] distinct_ids(ids@)[j])
                } else if ids@.len() == 0 {
                    final(self).finished && r == Err::<(), Error>(Error::NodeAccountUnknown(None))
                } else {
                    r.is_ok() && final(self).sample@ == distinct_ids(ids@)
                },
                None => if net.nodes@.len() == 0 {
                    final(self).finished && r == Err::<(), Error>(Error::NodeAccountUnknown(None))
                } else if net.healthy_nodes(now) > 0 {
                    &&& r.is_ok()
                    &&& final(self).sample@.len() == sample_size(net.healthy_nodes(now))
                    &&& final(self).sample@.no_duplicates()
                    &&& forall|k: int| 0 <= k < final(self).sample@.len()
                        ==> net.healthy_id(#[trigger] final(self).sample@[k], now)
                } else {
                    &&& r.is_ok()
                    &&& final(self).sample@.len() == net.nodes@.len()
                    &&& forall|k: int| 0 <= k < final(self).sample@.len()
                        ==> #[trigger] final(self).sample@[k] == net.nodes@[k].account_id
                },
            },
            r.is_ok() ==> final(self).sample@.no_duplicates(),
            r.is_ok() ==> final(self).in_round() && final(self).position == 0 && !final(self).regenerated
                && !final(self).cleared && final(self).last_error == old(self).last_error,
    {
        let counted = !self.regenerated;
        if counted && self.attempt >= self.max_attempts {
            self.finished = true;
            let last = self.last_error.take();
            return Err(Error::MaxAttemptsExceeded(match last {
                Some(e) => Some(Box::new(e)),
                None => None,
            }));
        }
        proof {
            if self.explicit_nodes.is_some() {
                lemma_distinct_ids(self.explicit_nodes.unwrap()@);
            }
        }
        let wanted = match &self.explicit_nodes {
            Some(ids) => Some(distinct(ids)),
            None => None,
        };
        let indexes = match &wanted {
            Some(ids) => match net.node_indexes_for_ids(ids) {
                Ok(v) => Some(v),
                Err(id) => {
                    proof {
                        let all = self.explicit_nodes.unwrap()@;
                        let d = ids@;
                        assert(d == distinct_ids(all));
                        lemma_distinct_ids(all);
                        let k = choose|k: int| 0 <= k < d.len() && d[k] == id && !net.knows(id)
                            && forall|j: int| 0 <= j < k ==> net.knows(#[trigger] d[j]);
                        assert(d.contains(d[k]));
                        assert(all.contains(id));
                        let i = choose|i: int| 0 <= i < all.len() && all[i] == id;
                        assert(!net.knows(all[i]));
                    }
                    self.finished = true;
                    return Err(Error::NodeAccountUnknown(Some(id)));
                },
            },
            None => None,
        };
        let picked = net.select_nodes(&indexes, now, seed);
        if picked.len() == 0 {
            self.finished = true;
            return Err(Error::NodeAccountUnknown(None));
        }
        let mut sample: Vec<AccountId> = Vec::new();
        let mut k: usize = 0;
        while k < picked.len()
            invariant
                k <= picked@.len(),
                sample@.len() == k,
                forall|j: int| 0 <= j < picked@.len() ==> (#[trigger] picked@[j] as int) < net.nodes@.len(),
                forall|j: int| 0 <= j < k ==> #[trigger] sample@[j] == net.nodes@[picked@[j] as int].account_id,
            decreases picked@.len() - k,
        {
            sample.push(net.nodes[picked[k]].account_id);
            k += 1;
        }
        proof {
            if self.explicit_nodes.is_some() {
                let all = self.explicit_nodes.unwrap()@;
                let d = distinct_ids(all);
                assert(sample@ =~= d);
                assert forall|k: int| 0 <= k < all.len() implies net.knows(#[trigger] all[k]) by {
                    assert(all.contains(all[k]));
                    let i = choose|i: int| 0 <= i < d.len() && d[i] == all[k];
                    assert(net.knows(d[i]));
                }
                if all.len() > 0 {
                    assert(all.contains(all[0]));
                }
                assert(sample@.no_duplicates());
            } else if net.healthy_nodes(now) == 0 {
                assert forall|a: int, b: int| 0 <= a < b < sample@.len() implies sample@[a] != sample@[b] by {
                    assert(picked@[a] == a && picked@[b] == b);
                }
            }
            if self.explicit_nodes.is_none() && net.healthy_nodes(now) > 0 {
                assert forall|a: int, b: int| 0 <= a < b < sample@.len() implies sample@[a] != sample@[b] by {
                    assert(picked@[a] != picked@[b]);
                }
                assert forall|j: int| 0 <= j < sample@.len() implies net.healthy_id(#[trigger] sample@[j], now) by {
                    assert(net.index_of_id(picked@[j] as int, sample@[j]));
                }
            }
            let w = self.widest@;
            let len = sample@.len();
            let a = self.attempt as int;
            if counted {
                if self.counted {
                    assert(self.calls@ <= a * w) by (nonlinear_arith)
                        requires self.calls@ <= (a - 1) * w + self.position, self.position <= self.sample@.len(),
                            self.sample@.len() <= w;
                }
                let nw: nat = if len > w { len } else { w };
                assert(self.calls@ <= a * nw) by (nonlinear_arith)
                    requires self.calls@ <= a * w, w <= nw, a >= 0;
                self.widest = Ghost(nw);
            } else {
                if self.counted {
                    assert(self.calls@ <= a * w) by (nonlinear_arith)
                        requires self.calls@ <= (a - 1) * w + self.position, self.position <= self.sample@.len(),
                            self.sample@.len() <= w;
                }
            }
        }
        if counted {
            self.attempt = self.attempt + 1;
        }
        self.counted = counted;
        self.sample = sample;
        self.position = 0;
        self.regenerated = false;
        self.cleared = false;
        Ok(())
    }

    /// Hands in the outcome of the call to the current node, at `now`.
    ///
    /// A node failure of the transport marks the node unhealthy and moves on; success ends
    /// the call; a busy status moves on; an expired transaction id that was generated here is
    /// replaced by a strictly later one (when `regenerate_transaction_ids` is set) and the
    /// round moves on without waiting; anything else fails the call at once.
    pub fn on_outcome(&mut self, outcome: Outcome, now: Timestamp) -> (r: Step)
        requires
            old(self).wf(),
            old(self).in_round(),
            now.wf(),
        ensures
            final(self).wf(),
            final(self).sample == old(self).sample,
            final(self).explicit_nodes == old(self).explicit_nodes,
            final(self).max_attempts == old(self).max_attempts,
            final(self).attempt == old(self).attempt,
            final(self).counted == old(self).counted,
            final(self).explicit_transaction_id == old(self).explicit_transaction_id,
            final(self).regenerate_transaction_ids == old(self).regenerate_transaction_ids,
            final(self).position == old(self).position + 1,
            final(self).calls@ == if old(self).counted { old(self).calls@ + 1 } else { old(self).calls@ },
            final(self).regenerated ==> final(self).transaction_id.unwrap().valid_start.total_nanos()
                > old(self).transaction_id.unwrap().valid_start.total_nanos(),
            outcome == Outcome::Status(TRANSACTION_EXPIRED) && !old(self).explicit_transaction_id
                && old(self).regenerate_transaction_ids && old(self).transaction_id.is_some()
                && now.total_nanos() > old(self).transaction_id.unwrap().valid_start.total_nanos() ==> {
                &&& !final(self).finished && final(self).regenerated && !final(self).awaits_backoff()
                &&& final(self).attempt == old(self).attempt
                &&& final(self).transaction_id.unwrap().account_id == old(self).transaction_id.unwrap().account_id
                &&& final(self).transaction_id.unwrap().valid_start.total_nanos()
                    > old(self).transaction_id.unwrap().valid_start.total_nanos()
            },
            ({
                let node = old(self).sample@[old(self).position as int];
                let tx = old(self).transaction_id;
                match outcome {
                    Outcome::Transport(code) => if is_node_failure(code) {
                        &&& r == Step::Continue { unhealthy: Some(node) }
                        &&& !final(self).finished && !final(self).regenerated
                        &&& final(self).last_error == Some(Error::Transport { code })
                        &&& final(self).transaction_id == tx
                    } else {
                        r == Step::Failed(Error::Transport { code }) && final(self).finished
                    },
                    Outcome::Status(s) => if is_success(s) {
                        r == Step::Succeeded { node, transaction_id: tx } && final(self).finished
                    } else if is_busy(s) {
                        &&& r == Step::Continue { unhealthy: None }
                        &&& !final(self).finished && !final(self).regenerated
                        &&& final(self).last_error == Some(Error::PreCheckStatus { status: s, transaction_id: tx })
                        &&& final(self).transaction_id == tx
                    } else if s == TRANSACTION_EXPIRED && !old(self).explicit_transaction_id
                        && old(self).regenerate_transaction_ids && tx.is_some()
                        && follows(tx.unwrap().valid_start, now) {
                        &&& r == Step::Continue { unhealthy: None }
                        &&& !final(self).finished && final(self).regenerated
                        &&& final(self).last_error == Some(Error::PreCheckStatus { status: s, transaction_id: tx })
                        &&& final(self).transaction_id == Some(regenerated_id(tx.unwrap(), now))
                    } else {
                        r == Step::Failed(Error::PreCheckStatus { status: s, transaction_id: tx })
                            && final(self).finished
                    },
                    Outcome::UnknownStatus(s) => r == Step::Failed(Error::ResponseStatusUnrecognized(s))
                        && final(self).finished,
                    Outcome::Undecodable(m) => r == Step::Failed(Error::FromProtobuf(m)) && final(self).finished,
                }
            }),
    {
        let node = self.sample[self.position];
        let tx = self.transaction_id;
        assert(self.position < self.sample.len());
        self.position = self.position + 1;
        if self.counted {
            self.calls = Ghost(self.calls@ + 1);
        }
        self.regenerated = false;
        match outcome {
            Outcome::Transport(code) => {
                if node_failure_code(code) {
                    self.last_error = Some(Error::Transport { code });
                    Step::Continue { unhealthy: Some(node) }
                } else {
                    self.finished = true;
                    Step::Failed(Error::Transport { code })
                }
            },
            Outcome::Status(s) => {
                if success_status(s) {
                    self.finished = true;
                    Step::Succeeded { node, transaction_id: tx }
                } else if busy_status(s) {
                    self.last_error = Some(Error::PreCheckStatus { status: s, transaction_id: tx });
                    Step::Continue { unhealthy: None }
                } else if s == TRANSACTION_EXPIRED && !self.explicit_transaction_id
                    && self.regenerate_transaction_ids && tx.is_some()
                    && (now.is_after(&tx.unwrap().valid_start) || tx.unwrap().valid_start.seconds < i64::MAX) {
                    let prev = tx.unwrap();
                    let start = if now.is_after(&prev.valid_start) { now } else { prev.valid_start.next_nano() };
                    self.last_error = Some(Error::PreCheckStatus { status: s, transaction_id: tx });
                    self.transaction_id = Some(TransactionId::with_valid_start(prev.account_id, start));
                    self.regenerated = true;
                    Step::Continue { unhealthy: None }
                } else {
                    self.finished = true;
                    Step::Failed(Error::PreCheckStatus { status: s, transaction_id: tx })
                }
            },
            Outcome::UnknownStatus(s) => {
                self.finished = true;
                Step::Failed(Error::ResponseStatusUnrecognized(s))
            },
            Outcome::Undecodable(m) => {
                self.finished = true;
                Step::Failed(Error::FromProtobuf(m))
            },
        }
    }

    /// Hands in the request backoff's answer at the end of a round: a delay to wait before
    /// the next round, or none when the time budget is spent, which fails the call with
    /// `TimedOut` holding the last error.
    pub fn on_backoff(&mut self, delay: Option<u64>) -> (r: Result<u64, Error>)
        requires
            old(self).wf(),
            old(self).awaits_backoff(),
        ensures
            final(self).wf(),
            final(self).sample == old(self).sample,
            final(self).transaction_id == old(self).transaction_id,
            final(self).explicit_nodes == old(self).explicit_nodes,
            final(self).attempt == old(self).attempt,
            final(self).max_attempts == old(self).max_attempts,
            final(self).explicit_transaction_id == old(self).explicit_transaction_id,
            final(self).regenerate_transaction_ids == old(self).regenerate_transaction_ids,
            match delay {
                Some(d) => r == Ok::<u64, Error>(d) && final(self).ready() && final(self).last_error == old(self).last_error,
                None => r == Err::<u64, Error>(Error::TimedOut(boxed(old(self).last_error))) && final(self).finished,
            },
    {
        match delay {
            Some(d) => {
                self.cleared = true;
                Ok(d)
            },
            None => {
                self.finished = true;
                let last = self.last_error.take();
                Err(Error::TimedOut(match last {
                    Some(e) => Some(Box::new(e)),
                    None => None,
                }))
            },
        }
    }
}

/// However the rounds go, an execute call makes no more calls in counted rounds than
/// `max_attempts` times its largest sample.
pub proof fn lemma_calls_bounded(e: Execution)
    requires
        e.wf(),
    ensures
        e.calls@ <= e.max_attempts * e.widest@,
{
    let a = e.attempt as int;
    let m = e.max_attempts as int;
    let w = e.widest@ as int;
    if e.counted {
        assert(e.calls@ <= a * w) by (nonlinear_arith)
            requires e.calls@ <= (a - 1) * w + e.position, e.position <= e.sample@.len(), e.sample@.len() <= w;
    }
    assert(a * w <= m * w) by (nonlinear_arith)
        requires a <= m, w >= 0;
}

/// Once an execute call is over (by success, failure or cancellation) it names no further
/// node to call, asks for no wait, and begins no round.
pub proof fn lemma_finished_is_final(e: Execution)
    requires
        e.finished,
    ensures
        !e.in_round(),
        !e.awaits_backoff(),
        !e.ready(),
{
}

/// A regenerated transaction id starts strictly later than the expired one and is well
/// formed.
pub proof fn lemma_regenerated_id_is_later(prev: TransactionId, now: Timestamp)
    requires
        prev.valid_start.wf(),
        now.wf(),
        follows(prev.valid_start, now),
    ensures
        regenerated_id(prev, now).valid_start.total_nanos() > prev.valid_start.total_nanos(),
        regenerated_id(prev, now).valid_start.wf(),
        regenerated_id(prev, now).account_id == prev.account_id,
{
}

/// A round that ended on a regenerated transaction id is never followed by a wait: the
/// next round may begin at once.
pub proof fn lemma_regeneration_skips_backoff(e: Execution)
    requires
        e.wf(),
        e.regenerated,
        !e.finished,
        e.position == e.sample@.len(),
    ensures
        !e.awaits_backoff(),
        e.ready(),
{
}

} // verus!
