use vstd::prelude::*;

use vstd::string::StringSliceAdditionalSpecFns;

use crate::error::Error;

verus! {

/// An account on the ledger: `shard.realm.num`.
#[derive(Clone, Copy, Debug, PartialEq, Eq, Structural, Hash)]
pub struct AccountId {
    pub shard: u64,
    pub realm: u64,
    pub num: u64,
}

impl AccountId {
    pub fn new(shard: u64, realm: u64, num: u64) -> (r: AccountId)
        ensures
            r == (AccountId { shard, realm, num }),
    {
        AccountId { shard, realm, num }
    }

    /// Compares two ids field by field.
    pub fn same_as(&self, other: &AccountId) -> (r: bool)
        ensures
            r == (*self == *other),
    {
        self.shard == other.shard && self.realm == other.realm && self.num == other.num
    }
}

/// An ASCII decimal digit.
pub open spec fn is_digit(b: u8) -> bool {
    48 <= b <= 57
}

/// The value of a string of decimal digits.
pub open spec fn digits_value(s: Seq<u8>) -> nat
    decreases s.len(),
{
    if s.len() == 0 {
        0
    } else {
        digits_value(s.drop_last()) * 10 + (s.last() - 48) as nat
    }
}

/// A non-empty run of decimal digits whose value fits in 64 bits.
pub open spec fn is_number(s: Seq<u8>) -> bool {
    &&& s.len() > 0
    &&& forall|i: int| 0 <= i < s.len() ==> is_digit(#[trigger] s[i])
    &&& digits_value(s) <= u64::MAX
}

/// `s` spells `id` as `shard.realm.num`, three decimal numbers joined by dots.
pub open spec fn spells_account(s: Seq<u8>, id: AccountId) -> bool {
    exists|i: int, j: int|
        0 <= i < j < s.len() && s[i] == 46 && s[j] == 46 && #[trigger] is_number(s.subrange(0, i))
            && #[trigger] is_number(s.subrange(i + 1, j)) && #[trigger] is_number(s.subrange(j + 1, s.len() as int))
            && digits_value(s.subrange(0, i)) == id.shard && digits_value(s.subrange(i + 1, j)) == id.realm
            && digits_value(s.subrange(j + 1, s.len() as int)) == id.num
}

proof fn lemma_digits_grow(s: Seq<u8>, k: int)
    requires
        0 <= k <= s.len(),
        forall|i: int| 0 <= i < s.len() ==> is_digit(#[trigger] s[i]),
    ensures
        digits_value(s.subrange(0, k)) <= digits_value(s),
    decreases s.len(),
{
    if k < s.len() {
        let t = s.drop_last();
        assert forall|i: int| 0 <= i < t.len() implies is_digit(#[trigger] t[i]) by {
            assert(t[i] == s[i]);
        }
        lemma_digits_grow(t, k);
        assert(t.subrange(0, k) =~= s.subrange(0, k));
    } else {
        assert(s.subrange(0, k) =~= s);
    }
}

/// The first dot of `b` at or after `from`.
fn find_dot(b: &[u8], from: usize) -> (r: Option<usize>)
    requires
        from <= b@.len(),
    ensures
        match r {
            Some(i) => from <= i < b@.len() && b@[i as int] == 46
                && forall|k: int| from <= k < i ==> #[trigger] b@[k] != 46,
            None => forall|k: int| from <= k < b@.len() ==> #[trigger] b@[k] != 46,
        },
{
    let mut i = from;
    while i < b.len()
        invariant
            from <= i <= b@.len(),
            forall|k: int| from <= k < i ==> #[trigger] b@[k] != 46,
        decreases b@.len() - i,
    {
        if b[i] == 46 {
            return Some(i);
        }
        i += 1;
    }
    None
}

/// The number spelled by `b[start..end]`, if it is one.
pub(crate) fn parse_number(b: &[u8], start: usize, end: usize) -> (r: Option<u64>)
    requires
        start <= end <= b@.len(),
    ensures
        match r {
            Some(v) => is_number(b@.subrange(start as int, end as int))
                && v == digits_value(b@.subrange(start as int, end as int)),
            None => !is_number(b@.subrange(start as int, end as int)),
        },
{
    if start == end {
        return None;
    }
    let ghost whole = b@.subrange(start as int, end as int);
    let mut v: u64 = 0;
    let mut k = start;
    while k < end
        invariant
            start <= k <= end <= b@.len(),
            whole == b@.subrange(start as int, end as int),
            forall|i: int| start <= i < k ==> is_digit(#[trigger] b@[i]),
            v == digits_value(b@.subrange(start as int, k as int)),
        decreases end - k,
    {
        let c = b[k];
        if c < 48 || c > 57 {
            assert(whole[k - start] == c);
            return None;
        }
        let d = (c - 48) as u64;
        assert(b@.subrange(start as int, k + 1).drop_last() =~= b@.subrange(start as int, k as int));
        if v > (u64::MAX - d) / 10 {
            proof {
                if forall|i: int| 0 <= i < whole.len() ==> is_digit(#[trigger] whole[i]) {
                    lemma_digits_grow(whole, k + 1 - start);
                    assert(whole.subrange(0, k + 1 - start) =~= b@.subrange(start as int, k + 1));
                }
            }
            return None;
        }
        v = v * 10 + d;
        k += 1;
    }
    assert(b@.subrange(start as int, k as int) =~= whole);
    Some(v)
}

proof fn lemma_number_has_no_dot(s: Seq<u8>, a: int, b: int, k: int)
    requires
        0 <= a <= k < b <= s.len(),
        is_number(s.subrange(a, b)),
    ensures
        s[k] != 46,
{
    assert(s.subrange(a, b)[k - a] == s[k]);
    assert(is_digit(s.subrange(a, b)[k - a]));
}

impl AccountId {
    /// Reads `shard.realm.num`; anything else is a `BasicParse` error.
    pub fn from_text(text: &str) -> (r: Result<AccountId, Error>)
        ensures
            match r {
                Ok(id) => spells_account(text.spec_bytes(), id),
                Err(e) => e is BasicParse && forall|id: AccountId| !spells_account(text.spec_bytes(), id),
            },
    {
        let b = text.as_bytes();
        let ghost s = b@;
        let bad = Error::BasicParse("expected an account id of the form `shard.realm.num`".to_owned());
        let i = match find_dot(b, 0) {
            Some(i) => i,
            None => {
                proof { lemma_no_split(s, false, 0, false, 0); }
                return Err(bad);
            },
        };
        assert(i < b.len());
        let j = match find_dot(b, i + 1) {
            Some(j) => j,
            None => {
                proof { lemma_no_split(s, true, i as int, false, 0); }
                return Err(bad);
            },
        };
        let shard = parse_number(b, 0, i);
        let realm = parse_number(b, i + 1, j);
        let num = parse_number(b, j + 1, b.len());
        match (shard, realm, num) {
            (Some(shard), Some(realm), Some(num)) => {
                let id = AccountId { shard, realm, num };
                assert(is_number(s.subrange(0, i as int)) && is_number(s.subrange(i + 1, j as int))
                    && is_number(s.subrange(j + 1, s.len() as int)));
                Ok(id)
            },
            _ => {
                proof { lemma_no_split(s, true, i as int, true, j as int); }
                Err(bad)
            },
        }
    }
}

/// A byte of a host name or address: a letter, a digit, `.`, `-`, `_`, or the brackets and
/// colons of an IPv6 literal.
pub open spec fn is_host_byte(b: u8) -> bool {
    is_digit(b) || (65 <= b <= 90) || (97 <= b <= 122) || b == 46 || b == 45 || b == 95 || b == 91 || b == 93
        || b == 58
}

/// A decimal port number.
pub open spec fn is_port(s: Seq<u8>) -> bool {
    is_number(s) && digits_value(s) <= 65535
}

/// `s` is a node address `host:port`: a non-empty host, a colon, and a port.
pub open spec fn is_node_address(s: Seq<u8>) -> bool {
    exists|i: int|
        0 < i < s.len() && s[i] == 58 && (forall|k: int| 0 <= k < i ==> is_host_byte(#[trigger] s[k]))
            && #[trigger] is_port(s.subrange(i + 1, s.len() as int))
}

/// The last colon of `b`.
fn find_last_colon(b: &[u8]) -> (r: Option<usize>)
    ensures
        match r {
            Some(j) => j < b@.len() && b@[j as int] == 58 && forall|k: int| j < k < b@.len() ==> #[trigger] b@[k] != 58,
            None => forall|k: int| 0 <= k < b@.len() ==> #[trigger] b@[k] != 58,
        },
{
    let mut i = b.len();
    while i > 0
        invariant
            i <= b@.len(),
            forall|k: int| i <= k < b@.len() ==> #[trigger] b@[k] != 58,
        decreases i,
    {
        if b[i - 1] == 58 {
            return Some(i - 1);
        }
        i -= 1;
    }
    None
}

/// Whether `address` is a node address `host:port`.
pub fn check_address(address: &str) -> (r: bool)
    ensures
        r == is_node_address(address.spec_bytes()),
{
    let b = address.as_bytes();
    let ghost s = b@;
    let j = match find_last_colon(b) {
        Some(j) => j,
        None => {
            proof {
                if is_node_address(s) {
                    let i = choose|i: int|
                        0 < i < s.len() && s[i] == 58 && (forall|x: int| 0 <= x < i ==> is_host_byte(#[trigger] s[x]))
                            && #[trigger] is_port(s.subrange(i + 1, s.len() as int));
                    assert(s[i] != 58);
                }
            }
            return false;
        },
    };
    if j == 0 {
        proof {
            if is_node_address(s) {
                let i = choose|i: int|
                    0 < i < s.len() && s[i] == 58 && (forall|x: int| 0 <= x < i ==> is_host_byte(#[trigger] s[x]))
                        && #[trigger] is_port(s.subrange(i + 1, s.len() as int));
                assert(s[i] != 58);
            }
        }
        return false;
    }
    let mut k: usize = 0;
    while k < j
        invariant
            k <= j < b@.len(),
            s == b@,
            s == address.spec_bytes(),
            b@[j as int] == 58,
            forall|x: int| j < x < b@.len() ==> #[trigger] b@[x] != 58,
            forall|x: int| 0 <= x < k ==> is_host_byte(#[trigger] b@[x]),
        decreases j - k,
    {
        let c = b[k];
        let ok = (c >= 48 && c <= 57) || (c >= 65 && c <= 90) || (c >= 97 && c <= 122) || c == 46 || c == 45
            || c == 95 || c == 91 || c == 93 || c == 58;
        if !ok {
            proof {
                assert(c == s[k as int]);
                assert(!is_host_byte(c));
                if is_node_address(s) {
                    let i = choose|i: int|
                        0 < i < s.len() && s[i] == 58 && (forall|x: int| 0 <= x < i ==> is_host_byte(#[trigger] s[x]))
                            && #[trigger] is_port(s.subrange(i + 1, s.len() as int));
                    if i < j {
                        assert(s.subrange(i + 1, s.len() as int)[j - i - 1] == s[j as int]);
                        assert(is_digit(s.subrange(i + 1, s.len() as int)[j - i - 1]));
                    }
                    if j < i {
                        assert(s[i] != 58);
                    }
                    assert(is_host_byte(s[k as int]));
                }
            }
            return false;
        }
        k += 1;
    }
    assert(j < b.len());
    let port = parse_number(b, j + 1, b.len());
    let r = match port {
        Some(v) => v <= 65535,
        None => false,
    };
    proof {
        if is_node_address(s) {
            let i = choose|i: int|
                0 < i < s.len() && s[i] == 58 && (forall|x: int| 0 <= x < i ==> is_host_byte(#[trigger] s[x]))
                    && #[trigger] is_port(s.subrange(i + 1, s.len() as int));
            if i < j {
                assert(s.subrange(i + 1, s.len() as int)[j - i - 1] == s[j as int]);
                assert(is_digit(s.subrange(i + 1, s.len() as int)[j - i - 1]));
            }
            if j < i {
                assert(s[i] != 58);
            }
        }
        if r {
            assert(is_port(s.subrange(j + 1, s.len() as int)));
        }
    }
    r
}

impl std::str::FromStr for AccountId {
    type Err = Error;

    fn from_str(s: &str) -> Result<AccountId, Error> {
        AccountId::from_text(s)
    }
}

/// Every way of spelling an account puts its dots at the first two dots of `s`: when
/// there are fewer than two, or the parts around the first two are not all numbers, `s`
/// spells no account.
proof fn lemma_no_split(s: Seq<u8>, has_first: bool, first: int, has_second: bool, second: int)
    requires
        has_first ==> 0 <= first < s.len() && s[first] == 46 && forall|k: int| 0 <= k < first ==> #[trigger] s[k] != 46,
        !has_first ==> forall|k: int| 0 <= k < s.len() ==> #[trigger] s[k] != 46,
        has_first && has_second ==> first < second < s.len() && s[second] == 46
            && forall|k: int| first < k < second ==> #[trigger] s[k] != 46,
        has_first && !has_second ==> forall|k: int| first < k < s.len() ==> #[trigger] s[k] != 46,
        has_first && has_second ==> !(is_number(s.subrange(0, first)) && is_number(s.subrange(first + 1, second))
            && is_number(s.subrange(second + 1, s.len() as int))),
    ensures
        forall|id: AccountId| !spells_account(s, id),
{
    assert forall|id: AccountId| !spells_account(s, id) by {
        if spells_account(s, id) {
            let (i, j) = choose|i: int, j: int|
                0 <= i < j < s.len() && s[i] == 46 && s[j] == 46 && #[trigger] is_number(s.subrange(0, i))
                    && #[trigger] is_number(s.subrange(i + 1, j)) && #[trigger] is_number(s.subrange(j + 1, s.len() as int))
                    && digits_value(s.subrange(0, i)) == id.shard && digits_value(s.subrange(i + 1, j)) == id.realm
                    && digits_value(s.subrange(j + 1, s.len() as int)) == id.num;
            if !has_first {
                assert(s[i] != 46);
            } else {
                if first < i {
                    lemma_number_has_no_dot(s, 0, i, first);
                }
                if i < first {
                    assert(s[i] != 46);
                }
                assert(i == first);
                if !has_second {
                    assert(s[j] != 46);
                } else {
                    if second < j {
                        lemma_number_has_no_dot(s, i + 1, j, second);
                    }
                    if j < second {
                        assert(s[j] != 46);
                    }
                    assert(j == second);
                }
            }
        }
    }
}

/// A token on the ledger: `shard.realm.num`.
#[derive(Clone, Copy, Debug, PartialEq, Eq, Structural, Hash)]
pub struct TokenId {
    pub shard: u64,
    pub realm: u64,
    pub num: u64,
}

impl TokenId {
    pub fn new(shard: u64, realm: u64, num: u64) -> (r: TokenId)
        ensures
            r == (TokenId { shard, realm, num }),
    {
        TokenId { shard, realm, num }
    }
}

/// A consensus topic: `shard.realm.num`.
#[derive(Clone, Copy, Debug, PartialEq, Eq, Structural, Hash)]
pub struct TopicId {
    pub shard: u64,
    pub realm: u64,
    pub num: u64,
}

impl TopicId {
    pub fn new(shard: u64, realm: u64, num: u64) -> (r: TopicId)
        ensures
            r == (TopicId { shard, realm, num }),
    {
        TopicId { shard, realm, num }
    }
}

/// A file on the ledger: `shard.realm.num`.
#[derive(Clone, Copy, Debug, PartialEq, Eq, Structural, Hash)]
pub struct FileId {
    pub shard: u64,
    pub realm: u64,
    pub num: u64,
}

impl FileId {
    pub fn new(shard: u64, realm: u64, num: u64) -> (r: FileId)
        ensures
            r == (FileId { shard, realm, num }),
    {
        FileId { shard, realm, num }
    }
}

/// A smart contract on the ledger: `shard.realm.num`.
#[derive(Clone, Copy, Debug, PartialEq, Eq, Structural, Hash)]
pub struct ContractId {
    pub shard: u64,
    pub realm: u64,
    pub num: u64,
}

impl ContractId {
    pub fn new(shard: u64, realm: u64, num: u64) -> (r: ContractId)
        ensures
            r == (ContractId { shard, realm, num }),
    {
        ContractId { shard, realm, num }
    }
}

/// A UTC instant: whole seconds since the Unix epoch and the nanoseconds past them.
#[derive(Clone, Copy, Debug, PartialEq, Eq, Structural, Hash)]
pub struct Timestamp {
    pub seconds: i64,
    pub nanos: u32,
}

pub const NANOS_PER_SECOND: u32 = 1_000_000_000;

impl Timestamp {
    /// A timestamp is well formed when its nanoseconds stay below one second.
    pub open spec fn wf(self) -> bool {
        self.nanos < NANOS_PER_SECOND
    }

    /// The instant as a number of nanoseconds since the epoch.
    pub open spec fn total_nanos(self) -> int {
        self.seconds * 1_000_000_000 + self.nanos
    }

    pub fn new(seconds: i64, nanos: u32) -> (r: Timestamp)
        requires
            nanos < NANOS_PER_SECOND,
        ensures
            r == (Timestamp { seconds, nanos }),
            r.wf(),
    {
        Timestamp { seconds, nanos }
    }

    /// Whether `self` is strictly later than `other`.
    pub fn is_after(&self, other: &Timestamp) -> (r: bool)
        requires
            self.wf(),
            other.wf(),
        ensures
            r == (self.total_nanos() > other.total_nanos()),
    {
        self.seconds > other.seconds || (self.seconds == other.seconds && self.nanos > other.nanos)
    }

    /// The instant one nanosecond later.
    pub fn next_nano(&self) -> (r: Timestamp)
        requires
            self.wf(),
            self.seconds < i64::MAX,
        ensures
            r.wf(),
            r.total_nanos() == self.total_nanos() + 1,
    {
        if self.nanos + 1 == NANOS_PER_SECOND {
            Timestamp { seconds: self.seconds + 1, nanos: 0 }
        } else {
            Timestamp { seconds: self.seconds, nanos: self.nanos + 1 }
        }
    }
}

/// Identifies a transaction cluster-wide: its payer, its valid start, whether it is
/// scheduled, and an optional nonce.
#[derive(Clone, Copy, Debug, PartialEq, Eq, Structural, Hash)]
pub struct TransactionId {
    pub account_id: AccountId,
    pub valid_start: Timestamp,
    pub scheduled: bool,
    pub nonce: Option<u32>,
}

impl TransactionId {
    /// A plain transaction id paid by `account_id`, valid from `valid_start`.
    pub fn with_valid_start(account_id: AccountId, valid_start: Timestamp) -> (r: TransactionId)
        ensures
            r == (TransactionId { account_id, valid_start, scheduled: false, nonce: None }),
    {
        TransactionId { account_id, valid_start, scheduled: false, nonce: None }
    }
}

} // verus!
