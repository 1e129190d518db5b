use vstd::prelude::*;

verus! {

/// `a` and `b` agree on their first `i` bytes.
pub open spec fn agree_upto(a: Seq<u8>, b: Seq<u8>, i: int) -> bool {
    forall|k: int| 0 <= k < i ==> #[trigger] a[k] == b[k]
}

/// `a` sorts before `b`, and they first differ at `i` (or `a` ends there).
pub open spec fn before_at(a: Seq<u8>, b: Seq<u8>, i: int) -> bool {
    &&& 0 <= i <= a.len()
    &&& i < b.len()
    &&& agree_upto(a, b, i)
    &&& (i == a.len() || a[i] < b[i])
}

/// Byte-lexicographic order: `a` sorts strictly before `b` (a proper prefix sorts first).
pub open spec fn lex_lt(a: Seq<u8>, b: Seq<u8>) -> bool {
    exists|i: int| #[trigger] before_at(a, b, i)
}

pub proof fn lemma_lex_lt_irreflexive(a: Seq<u8>)
    ensures
        !lex_lt(a, a),
{
}

pub proof fn lemma_lex_lt_asymmetric(a: Seq<u8>, b: Seq<u8>)
    requires
        lex_lt(a, b),
    ensures
        !lex_lt(b, a),
        a != b,
{
    let i = choose|i: int| #[trigger] before_at(a, b, i);
    if lex_lt(b, a) {
        let j = choose|j: int| #[trigger] before_at(b, a, j);
        if i < j {
            assert(a[i] == b[i]);
        } else if j < i {
            assert(a[j] == b[j]);
        }
    }
    if a == b {
        assert(!before_at(a, b, i));
    }
}

pub proof fn lemma_lex_lt_transitive(a: Seq<u8>, b: Seq<u8>, c: Seq<u8>)
    requires
        lex_lt(a, b),
        lex_lt(b, c),
    ensures
        lex_lt(a, c),
{
    let i = choose|i: int| #[trigger] before_at(a, b, i);
    let j = choose|j: int| #[trigger] before_at(b, c, j);
    if i < j {
        assert(b[i] == c[i]);
        assert(before_at(a, c, i));
    } else if j < i {
        assert(a[j] == b[j]);
        assert(before_at(a, c, j));
    } else {
        assert(before_at(a, c, i));
    }
}

/// Where `a` and `b` first differ, or the end of the shorter.
fn first_difference(a: &[u8], b: &[u8]) -> (r: usize)
    ensures
        r <= a@.len(),
        r <= b@.len(),
        agree_upto(a@, b@, r as int),
        r < a@.len() && r < b@.len() ==> a@[r as int] != b@[r as int],
{
    let mut i: usize = 0;
    while i < a.len() && i < b.len() && a[i] == b[i]
        invariant
            i <= a@.len(),
            i <= b@.len(),
            agree_upto(a@, b@, i as int),
        decreases a@.len() - i,
    {
        i += 1;
    }
    i
}

/// Compares two keys: `Some(true)` when `a` sorts first, `Some(false)` when `b` does,
/// `None` when they are equal.
pub fn compare_keys(a: &[u8], b: &[u8]) -> (r: Option<bool>)
    ensures
        r == Some(true) <==> lex_lt(a@, b@),
        r == Some(false) <==> lex_lt(b@, a@),
        r.is_none() <==> a@ == b@,
{
    let i = first_difference(a, b);
    if i == a.len() && i == b.len() {
        assert(a@ =~= b@);
        proof { lemma_lex_lt_irreflexive(a@); }
        None
    } else if i == a.len() || (i < b.len() && a[i] < b[i]) {
        assert(before_at(a@, b@, i as int));
        proof { lemma_lex_lt_asymmetric(a@, b@); }
        Some(true)
    } else {
        assert forall|k: int| 0 <= k < i implies #[trigger] b@[k] == a@[k] by {
            assert(a@[k] == b@[k]);
        }
        assert(before_at(b@, a@, i as int));
        proof { lemma_lex_lt_asymmetric(b@, a@); }
        Some(false)
    }
}

/// One entry of a signature map: a public key (whole, so unambiguous among distinct
/// keys) and the signature made with it.
#[derive(Clone, Debug, PartialEq, Eq)]
pub struct SignaturePair {
    pub public_key_prefix: Vec<u8>,
    pub signature: Vec<u8>,
}

/// The keys of `pairs` are in strictly increasing byte-lexicographic order.
pub open spec fn sorted_by_key(pairs: Seq<SignaturePair>) -> bool {
    forall|p: int, q: int| 0 <= p < q < pairs.len()
        ==> lex_lt(#[trigger] pairs[p].public_key_prefix@, #[trigger] pairs[q].public_key_prefix@)
}

/// `entry` is the first signature that `signatures` gives for its key.
pub open spec fn first_signature(signatures: Seq<(Vec<u8>, Vec<u8>)>, entry: SignaturePair) -> bool {
    exists|k: int| 0 <= k < signatures.len() && #[trigger] signatures[k].0@ == entry.public_key_prefix@
        && signatures[k].1@ == entry.signature@
        && forall|m: int| 0 <= m < k ==> (#[trigger] signatures[m].0)@ != signatures[k].0@
}

/// Every entry of `pairs` is the first signature that the first `k` of `signatures` give
/// for its key.
pub open spec fn firsts_upto(signatures: Seq<(Vec<u8>, Vec<u8>)>, k: int, pairs: Seq<SignaturePair>) -> bool {
    forall|j: int| 0 <= j < pairs.len() ==> first_signature(signatures.take(k), #[trigger] pairs[j])
}

/// Every key among the first `k` of `signatures` has an entry in `pairs`.
pub open spec fn covers_upto(signatures: Seq<(Vec<u8>, Vec<u8>)>, k: int, pairs: Seq<SignaturePair>) -> bool {
    forall|m: int| 0 <= m < k ==> #[trigger] has_key(pairs, signatures[m].0@)
}

/// Some entry of `pairs` has key `key`.
pub open spec fn has_key(pairs: Seq<SignaturePair>, key: Seq<u8>) -> bool {
    exists|j: int| 0 <= j < pairs.len() && #[trigger] pairs[j].public_key_prefix@ == key
}

/// Where `key` goes among the sorted keys of `pairs`: the first position whose key does
/// not sort before it, and whether that key is `key` itself.
fn locate(pairs: &Vec<SignaturePair>, key: &[u8]) -> (r: (usize, bool))
    requires
        sorted_by_key(pairs@),
    ensures
        r.0 <= pairs@.len(),
        forall|q: int| 0 <= q < r.0 ==> lex_lt(#[trigger] pairs@[q].public_key_prefix@, key@),
        r.1 ==> r.0 < pairs@.len() && pairs@[r.0 as int].public_key_prefix@ == key@,
        !r.1 && r.0 < pairs@.len() ==> lex_lt(key@, pairs@[r.0 as int].public_key_prefix@),
{
    let mut p: usize = 0;
    while p < pairs.len()
        invariant
            p <= pairs@.len(),
            forall|q: int| 0 <= q < p ==> lex_lt(#[trigger] pairs@[q].public_key_prefix@, key@),
        decreases pairs@.len() - p,
    {
        match compare_keys(pairs[p].public_key_prefix.as_slice(), key) {
            Some(true) => {
                p += 1;
            },
            Some(false) => {
                return (p, false);
            },
            None => {
                return (p, true);
            },
        }
    }
    (p, false)
}

proof fn lemma_insert_sorted(before: Seq<SignaturePair>, p: int, e: SignaturePair)
    requires
        sorted_by_key(before),
        0 <= p <= before.len(),
        forall|q: int| 0 <= q < p ==> lex_lt(#[trigger] before[q].public_key_prefix@, e.public_key_prefix@),
        p < before.len() ==> lex_lt(e.public_key_prefix@, before[p].public_key_prefix@),
    ensures
        sorted_by_key(before.insert(p, e)),
{
    let after = before.insert(p, e);
    assert forall|a: int, b: int| 0 <= a < b < after.len() implies lex_lt(
        #[trigger] after[a].public_key_prefix@, #[trigger] after[b].public_key_prefix@) by {
        if a == p {
            if b > p + 1 {
                lemma_lex_lt_transitive(e.public_key_prefix@, before[p].public_key_prefix@, before[b - 1].public_key_prefix@);
            }
        } else if b == p {
            assert(after[a] == before[a]);
        } else {
            let fa = if a < p { a } else { a - 1 };
            let fb = if b < p { b } else { b - 1 };
            assert(after[a] == before[fa] && after[b] == before[fb]);
        }
    }
}

proof fn lemma_extend(
    signatures: Seq<(Vec<u8>, Vec<u8>)>,
    k: int,
    before: Seq<SignaturePair>,
    after: Seq<SignaturePair>,
    p: int,
    duplicate: bool,
)
    requires
        0 <= k < signatures.len(),
        firsts_upto(signatures, k, before),
        covers_upto(signatures, k, before),
        duplicate ==> after == before && 0 <= p < before.len()
            && before[p].public_key_prefix@ == signatures[k].0@,
        !duplicate ==> 0 <= p <= before.len() && after.len() == before.len() + 1
            && after[p].public_key_prefix@ == signatures[k].0@ && after[p].signature@ == signatures[k].1@
            && (forall|q: int| 0 <= q < p ==> #[trigger] after[q] == before[q])
            && (forall|q: int| p < q < after.len() ==> #[trigger] after[q] == before[q - 1])
            && forall|q: int| 0 <= q < before.len() ==> (#[trigger] before[q]).public_key_prefix@ != signatures[k].0@,
    ensures
        firsts_upto(signatures, k + 1, after),
        covers_upto(signatures, k + 1, after),
{
    let prefix = signatures.take(k);
    let next = signatures.take(k + 1);
    assert forall|j: int| 0 <= j < after.len() implies first_signature(next, #[trigger] after[j]) by {
        if !duplicate && j == p {
            assert(next[k] == signatures[k]);
            assert forall|m: int| 0 <= m < k implies (#[trigger] next[m].0)@ != next[k].0@ by {
                assert(next[m] == signatures[m]);
                assert(has_key(before, signatures[m].0@));
            }
        } else {
            let old_j = if !duplicate && j > p { j - 1 } else { j };
            assert(after[j] == before[old_j]);
            assert(first_signature(prefix, before[old_j]));
            let w = choose|w: int| 0 <= w < prefix.len() && #[trigger] prefix[w].0@ == before[old_j].public_key_prefix@
                && prefix[w].1@ == before[old_j].signature@
                && forall|m: int| 0 <= m < w ==> (#[trigger] prefix[m].0)@ != prefix[w].0@;
            assert(next[w] == prefix[w]);
            assert forall|m: int| 0 <= m < w implies (#[trigger] next[m].0)@ != next[w].0@ by {
                assert(next[m] == prefix[m]);
            }
        }
    }
    assert forall|m: int| 0 <= m < k + 1 implies #[trigger] has_key(after, signatures[m].0@) by {
        if m == k {
            assert(after[p].public_key_prefix@ == signatures[m].0@);
        } else {
            assert(has_key(before, signatures[m].0@));
            let w = choose|w: int| 0 <= w < before.len() && #[trigger] before[w].public_key_prefix@ == signatures[m].0@;
            let nw = if !duplicate && w >= p { w + 1 } else { w };
            assert(after[nw] == before[w]);
        }
    }
}

/// The signature map of a transaction: one entry per distinct public key, with the first
/// signature given for it, in increasing byte-lexicographic order of the keys.
pub fn signature_map(signatures: &Vec<(Vec<u8>, Vec<u8>)>) -> (r: Vec<SignaturePair>)
    ensures
        sorted_by_key(r@),
        forall|j: int| 0 <= j < r@.len() ==> first_signature(signatures@, #[trigger] r@[j]),
        forall|k: int| 0 <= k < signatures@.len() ==> #[trigger] has_key(r@, signatures@[k].0@),
{
    let mut r: Vec<SignaturePair> = Vec::new();
    let mut k: usize = 0;
    while k < signatures.len()
        invariant
            k <= signatures@.len(),
            sorted_by_key(r@),
            firsts_upto(signatures@, k as int, r@),
            covers_upto(signatures@, k as int, r@),
        decreases signatures@.len() - k,
    {
        let key = &signatures[k].0;
        let (p, duplicate) = locate(&r, key.as_slice());
        let ghost before = r@;
        if !duplicate {
            let public_key_prefix = key.clone();
            let signature = signatures[k].1.clone();
            assert(public_key_prefix@ =~= key@);
            assert(signature@ =~= signatures@[k as int].1@);
            let entry = SignaturePair { public_key_prefix, signature };
            proof {
                assert forall|q: int| 0 <= q < before.len() implies (#[trigger] before[q]).public_key_prefix@ != key@ by {
                    if q < p {
                        lemma_lex_lt_asymmetric(before[q].public_key_prefix@, key@);
                    } else {
                        if q > p {
                            lemma_lex_lt_transitive(key@, before[p as int].public_key_prefix@, before[q].public_key_prefix@);
                        }
                        lemma_lex_lt_asymmetric(key@, before[q].public_key_prefix@);
                    }
                }
                lemma_insert_sorted(before, p as int, entry);
            }
            r.insert(p, entry);
            assert(r@ == before.insert(p as int, entry));
        }
        proof {
            lemma_extend(signatures@, k as int, before, r@, p as int, duplicate);
        }
        k += 1;
    }
    assert(signatures@.take(k as int) =~= signatures@);
    r
}

} // verus!
