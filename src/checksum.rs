use vstd::prelude::*;

use crate::client::{Client, LedgerId};
use crate::error::Error;

verus! {

pub const CUBE_OF_26: u64 = 17_576;

pub const FIFTH_POWER_OF_26: u64 = 11_881_376;

pub const CHECKSUM_MULTIPLIER: u64 = 1_000_003;

pub const CHECKSUM_WEIGHT: u64 = 31;

/// The decimal digits of `n`, most significant first.
pub open spec fn digit_values(n: u64) -> Seq<u64>
    decreases n,
{
    if n < 10 {
        seq![n]
    } else {
        digit_values(n / 10).push(n % 10)
    }
}

/// The characters of `shard.realm.num` as values: each digit its own, each dot ten.
pub open spec fn address_digits(shard: u64, realm: u64, num: u64) -> Seq<u64> {
    digit_values(shard) + seq![10u64] + digit_values(realm) + seq![10u64] + digit_values(num)
}

/// The weighted sum of `d` (weight 31 per place) modulo `modulus`.
pub open spec fn weighted(d: Seq<u64>, modulus: u64) -> u64
    decreases d.len(),
{
    if d.len() == 0 || modulus == 0 {
        0
    } else {
        ((CHECKSUM_WEIGHT * weighted(d.drop_last(), modulus) + d.last()) % (modulus as int)) as u64
    }
}

/// The sum modulo 11 of the values of `d` at even (`odd == false`) or odd places.
pub open spec fn alternate_sum(d: Seq<u64>, odd: bool) -> u64
    decreases d.len(),
{
    if d.len() == 0 {
        0
    } else if ((d.len() - 1) % 2 == 1) == odd {
        ((alternate_sum(d.drop_last(), odd) + d.last()) % 11) as u64
    } else {
        alternate_sum(d.drop_last(), odd)
    }
}

/// The last `k` base-26 letters of `c`, most significant first.
pub open spec fn letters(c: u64, k: nat) -> Seq<u8>
    decreases k,
{
    if k == 0 {
        Seq::empty()
    } else {
        letters(c / 26, (k - 1) as nat).push((97 + c % 26) as u8)
    }
}

/// The ledger id as checksum input: its bytes followed by six zeros.
pub open spec fn ledger_values(ledger: Seq<u8>) -> Seq<u64> {
    ledger.map_values(|b: u8| b as u64) + seq![0u64, 0u64, 0u64, 0u64, 0u64, 0u64]
}

/// The checksum of entity `shard.realm.num` on the ledger `ledger`: five lowercase letters.
#[verifier::opaque]
pub open spec fn checksum_of(ledger: Seq<u8>, shard: u64, realm: u64, num: u64) -> Seq<u8> {
    let d = address_digits(shard, realm, num);
    let c = ((((d.len() % 5) * 11 + alternate_sum(d, false)) * 11 + alternate_sum(d, true)) * CUBE_OF_26 + weighted(d, CUBE_OF_26)
        + weighted(ledger_values(ledger), FIFTH_POWER_OF_26)) % (FIFTH_POWER_OF_26 as int);
    letters(((c * CHECKSUM_MULTIPLIER) % (FIFTH_POWER_OF_26 as int)) as u64, 5)
}

fn push_digit_values(v: &mut Vec<u64>, n: u64)
    ensures
        final(v)@ == old(v)@ + digit_values(n),
    decreases n,
{
    if n >= 10 {
        push_digit_values(v, n / 10);
    }
    v.push(n % 10);
    assert(final(v)@ =~= old(v)@ + digit_values(n));
}

fn weighted_sum(d: &Vec<u64>, modulus: u64) -> (r: u64)
    requires
        0 < modulus <= FIFTH_POWER_OF_26,
        forall|i: int| 0 <= i < d@.len() ==> #[trigger] d@[i] <= 255,
    ensures
        r == weighted(d@, modulus),
        r < modulus,
{
    let mut s: u64 = 0;
    let mut i: usize = 0;
    while i < d.len()
        invariant
            i <= d@.len(),
            0 < modulus <= FIFTH_POWER_OF_26,
            forall|j: int| 0 <= j < d@.len() ==> #[trigger] d@[j] <= 255,
            s == weighted(d@.take(i as int), modulus),
            s < modulus,
        decreases d@.len() - i,
    {
        assert(d@.take(i + 1).drop_last() =~= d@.take(i as int));
        s = (CHECKSUM_WEIGHT * s + d[i]) % modulus;
        i += 1;
    }
    assert(d@.take(i as int) =~= d@);
    s
}

fn alternate(d: &Vec<u64>, odd: bool) -> (r: u64)
    requires
        forall|i: int| 0 <= i < d@.len() ==> #[trigger] d@[i] <= 255,
    ensures
        r == alternate_sum(d@, odd),
        r < 11,
{
    let mut s: u64 = 0;
    let mut i: usize = 0;
    while i < d.len()
        invariant
            i <= d@.len(),
            forall|j: int| 0 <= j < d@.len() ==> #[trigger] d@[j] <= 255,
            s == alternate_sum(d@.take(i as int), odd),
            s < 11,
        decreases d@.len() - i,
    {
        assert(d@.take(i + 1).drop_last() =~= d@.take(i as int));
        assert(d@.take(i + 1).len() - 1 == i);
        if (i % 2 == 1) == odd {
            s = (s + d[i]) % 11;
        }
        i += 1;
    }
    assert(d@.take(i as int) =~= d@);
    s
}

fn push_letters(v: &mut Vec<u8>, c: u64, k: u64)
    ensures
        final(v)@ == old(v)@ + letters(c, k as nat),
    decreases k,
{
    if k > 0 {
        push_letters(v, c / 26, k - 1);
        v.push((97 + c % 26) as u8);
    }
    assert(final(v)@ =~= old(v)@ + letters(c, k as nat));
}

/// The checksum of entity `shard.realm.num` on the ledger `ledger`.
pub fn checksum(ledger: &LedgerId, shard: u64, realm: u64, num: u64) -> (r: Vec<u8>)
    ensures
        r@ == checksum_of(ledger.bytes@, shard, realm, num),
{
    let mut d: Vec<u64> = Vec::new();
    push_digit_values(&mut d, shard);
    d.push(10);
    push_digit_values(&mut d, realm);
    d.push(10);
    push_digit_values(&mut d, num);
    assert(d@ =~= address_digits(shard, realm, num));
    proof {
        lemma_digits_small(shard);
        lemma_digits_small(realm);
        lemma_digits_small(num);
        assert forall|i: int| 0 <= i < d@.len() implies #[trigger] d@[i] <= 255 by {
            let a = digit_values(shard).len() as int;
            let b = a + 1 + digit_values(realm).len();
            if i < a {
                assert(d@[i] == digit_values(shard)[i]);
            } else if i == a || i == b {
            } else if i < b {
                assert(d@[i] == digit_values(realm)[i - a - 1]);
            } else {
                assert(d@[i] == digit_values(num)[i - b - 1]);
            }
        }
    }
    let mut h: Vec<u64> = Vec::new();
    let mut k: usize = 0;
    while k < ledger.bytes.len()
        invariant
            k <= ledger.bytes@.len(),
            h@ == ledger.bytes@.take(k as int).map_values(|b: u8| b as u64),
        decreases ledger.bytes@.len() - k,
    {
        h.push(ledger.bytes[k] as u64);
        k += 1;
        assert(h@ =~= ledger.bytes@.take(k as int).map_values(|b: u8| b as u64));
    }
    let mut z: usize = 0;
    while z < 6
        invariant
            z <= 6,
            h@.len() == ledger.bytes@.len() + z,
            forall|i: int| 0 <= i < ledger.bytes@.len() ==> #[trigger] h@[i] == ledger.bytes@[i] as u64,
            forall|i: int| ledger.bytes@.len() <= i < h@.len() ==> #[trigger] h@[i] == 0,
        decreases 6 - z,
    {
        h.push(0);
        z += 1;
    }
    assert(ledger.bytes@.take(k as int) =~= ledger.bytes@);
    assert(h@ =~= ledger_values(ledger.bytes@));
    let s = weighted_sum(&d, CUBE_OF_26);
    let sh = weighted_sum(&h, FIFTH_POWER_OF_26);
    let s0 = alternate(&d, false);
    let s1 = alternate(&d, true);
    let c = (((((d.len() % 5) as u64) * 11 + s0) * 11 + s1) * CUBE_OF_26 + s + sh) % FIFTH_POWER_OF_26;
    let c = (c * CHECKSUM_MULTIPLIER) % FIFTH_POWER_OF_26;
    let mut r: Vec<u8> = Vec::new();
    push_letters(&mut r, c, 5);
    proof {
        reveal(checksum_of);
    }
    assert(r@ =~= checksum_of(ledger.bytes@, shard, realm, num));
    r
}

proof fn lemma_digits_small(n: u64)
    ensures
        forall|i: int| 0 <= i < digit_values(n).len() ==> #[trigger] digit_values(n)[i] < 10,
    decreases n,
{
    if n >= 10 {
        lemma_digits_small(n / 10);
        let t = digit_values(n / 10);
        assert forall|i: int| 0 <= i < digit_values(n).len() implies #[trigger] digit_values(n)[i] < 10 by {
            if i < t.len() {
                assert(digit_values(n)[i] == t[i]);
            }
        }
    }
}

/// An entity id as written with its checksum: `shard.realm.num-abcde`.
#[derive(Clone, Debug, PartialEq, Eq)]
pub struct EntityChecksum {
    pub shard: u64,
    pub realm: u64,
    pub num: u64,
    pub checksum: Vec<u8>,
}

impl Client {
    /// Checks the checksums that came with the request's entity ids, before any node is
    /// contacted: when the client validates checksums and knows its ledger, every given
    /// checksum must be the entity's checksum on that ledger, else the request fails with
    /// `CannotValidateChecksum`.
    pub fn validate_checksums(&self, entities: &Vec<EntityChecksum>) -> (r: Result<(), Error>)
        ensures
            r.is_ok() <==> !self.auto_validate_checksums || self.ledger_id.is_none()
                || forall|k: int| 0 <= k < entities@.len() ==> (#[trigger] entities@[k]).checksum@
                    == checksum_of(self.ledger_id.unwrap().bytes@, entities@[k].shard, entities@[k].realm, entities@[k].num),
            r.is_err() ==> r.unwrap_err() is CannotValidateChecksum,
    {
        if !self.auto_validate_checksums {
            return Ok(());
        }
        let ledger = match &self.ledger_id {
            Some(l) => l,
            None => {
                return Ok(());
            },
        };
        let mut k: usize = 0;
        while k < entities.len()
            invariant
                k <= entities@.len(),
                self.auto_validate_checksums,
                self.ledger_id == Some(*ledger),
                forall|j: int| 0 <= j < k ==> (#[trigger] entities@[j]).checksum@
                    == checksum_of(ledger.bytes@, entities@[j].shard, entities@[j].realm, entities@[j].num),
            decreases entities@.len() - k,
        {
            let e = &entities[k];
            let expected = checksum(ledger, e.shard, e.realm, e.num);
            if !same_bytes(&expected, &e.checksum) {
                assert(*e == entities@[k as int]);
                assert(self.ledger_id.unwrap() == *ledger);
                assert(entities@[k as int].checksum@ != checksum_of(
                    self.ledger_id.unwrap().bytes@, entities@[k as int].shard, entities@[k as int].realm,
                    entities@[k as int].num));
                return Err(Error::CannotValidateChecksum);
            }
            k += 1;
        }
        Ok(())
    }
}

fn same_bytes(a: &Vec<u8>, b: &Vec<u8>) -> (r: bool)
    ensures
        r == (a@ == b@),
{
    if a.len() != b.len() {
        return false;
    }
    let mut i: usize = 0;
    while i < a.len()
        invariant
            i <= a@.len(),
            a@.len() == b@.len(),
            forall|j: int| 0 <= j < i ==> a@[j] == b@[j],
        decreases a@.len() - i,
    {
        if a[i] != b[i] {
            return false;
        }
        i += 1;
    }
    assert(a@ =~= b@);
    true
}

} // verus!
