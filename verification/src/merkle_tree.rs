//! Merkle tree committing to a borrower's vouch set.
//!
//! A leaf is the SHA-256 of a `0x00` prefix and the XDR encoding of
//! `(voucher, stake, token, vouch_timestamp)`. An internal node is the
//! SHA-256 of a `0x01` prefix and its two children in byte order, so a
//! proof is a list of sibling hashes with no direction bits. A level with
//! an odd number of nodes promotes the last one unchanged. Leaves are
//! sorted by byte value first, so the root depends only on the set of
//! leaves. The empty set has the root SHA-256(`0x02`).
use vstd::prelude::*;
use vstd::relations::{sorted_by, total_ordering};
use vstd::multiset::Multiset;
use soroban_sdk::Env;
use crate::sdk::{sha256, spec_sha256, spec_vouch_xdr, vouch_xdr};
use crate::types::{hash_bytes, hash_le, push_hash_bytes, Address, Hash32};

verus! {

broadcast use vstd::seq_lib::group_to_multiset_ensures;

/// Domain-separation prefix for leaf hashes.
pub const LEAF_PREFIX: u8 = 0x00;
/// Domain-separation prefix for internal-node hashes.
pub const NODE_PREFIX: u8 = 0x01;
/// Prefix hashed for the root of an empty set.
pub const EMPTY_PREFIX: u8 = 0x02;

/// The leaf of a vouch.
pub open spec fn leaf_hash(voucher: Address, stake: i128, token: Address, vouch_timestamp: u64) -> Hash32 {
    spec_sha256(seq![LEAF_PREFIX] + spec_vouch_xdr(voucher, stake, token, vouch_timestamp))
}

/// The parent of two nodes: the hash of the node prefix and the two
/// children, smaller first.
pub open spec fn pair_hash(a: Hash32, b: Hash32) -> Hash32 {
    let (x, y) = if hash_le(a, b) { (a, b) } else { (b, a) };
    spec_sha256(seq![NODE_PREFIX] + hash_bytes(x) + hash_bytes(y))
}

/// The root of the empty set.
pub open spec fn empty_root() -> Hash32 {
    spec_sha256(seq![EMPTY_PREFIX])
}

/// The level above `s`: adjacent pairs hashed together, an odd last node promoted.
pub open spec fn next_level(s: Seq<Hash32>) -> Seq<Hash32> {
    Seq::new(
        ((s.len() + 1) / 2) as nat,
        |k: int| if 2 * k + 1 < s.len() { pair_hash(s[2 * k], s[2 * k + 1]) } else { s[2 * k] },
    )
}

/// The root over a non-empty level.
pub open spec fn level_root(s: Seq<Hash32>) -> Hash32
    decreases s.len(),
{
    if s.len() <= 1 {
        s[0]
    } else {
        level_root(next_level(s))
    }
}

/// Leaves in canonical (byte) order.
pub open spec fn canonical(leaves: Seq<Hash32>) -> Seq<Hash32> {
    leaves.sort_by(|a: Hash32, b: Hash32| hash_le(a, b))
}

/// The root of a set of leaves.
pub open spec fn merkle_root(leaves: Seq<Hash32>) -> Hash32 {
    if leaves.len() == 0 {
        empty_root()
    } else {
        level_root(canonical(leaves))
    }
}

/// The number of levels above `n` leaves, each halving (rounding up) the
/// level below: the base-2 logarithm of `n` rounded up, 0 for one leaf.
pub open spec fn tree_height(n: nat) -> nat
    decreases n,
{
    if n <= 1 { 0 } else { 1 + tree_height(((n + 1) / 2) as nat) }
}

/// The node reached from `leaf` by combining it with each sibling in turn.
pub open spec fn fold_proof(leaf: Hash32, proof: Seq<Hash32>) -> Hash32
    decreases proof.len(),
{
    if proof.len() == 0 {
        leaf
    } else {
        pair_hash(fold_proof(leaf, proof.drop_last()), proof.last())
    }
}

/// Byte order on hashes is a total order, so leaves can be sorted by it.
pub proof fn lemma_hash_le_total()
    ensures
        total_ordering(|a: Hash32, b: Hash32| hash_le(a, b)),
{
}

/// The parent does not depend on the order of its children.
pub proof fn lemma_pair_hash_symmetric(a: Hash32, b: Hash32)
    ensures
        pair_hash(a, b) == pair_hash(b, a),
{
    if hash_le(a, b) && hash_le(b, a) {
        assert(a == b);
    }
}

proof fn lemma_insert_to_multiset(s: Seq<Hash32>, pos: int, x: Hash32)
    requires
        0 <= pos <= s.len(),
    ensures
        s.insert(pos, x).to_multiset() == s.to_multiset().insert(x),
{
    broadcast use vstd::multiset::group_multiset_axioms;
    let a = s.subrange(0, pos);
    let b = s.subrange(pos, s.len() as int);
    assert(s == a + b);
    assert(s.insert(pos, x) == a.push(x) + b);
    vstd::seq_lib::lemma_multiset_commutative(a.push(x), b);
    vstd::seq_lib::lemma_multiset_commutative(a, b);
    assert(a.push(x).to_multiset() == a.to_multiset().insert(x));
    assert(a.to_multiset().insert(x).add(b.to_multiset()) =~= a.to_multiset().add(b.to_multiset()).insert(x));
}

/// Hash a single vouch into its leaf.
pub fn hash_leaf(env: &Env, voucher: Address, stake: i128, token: Address, vouch_timestamp: u64) -> (h: Hash32)
    ensures
        h == leaf_hash(voucher, stake, token, vouch_timestamp),
{
    let encoded = vouch_xdr(env, voucher, stake, token, vouch_timestamp);
    let mut buf: Vec<u8> = Vec::new();
    buf.push(LEAF_PREFIX);
    let mut i: usize = 0;
    while i < encoded.len()
        invariant
            i <= encoded@.len(),
            buf@ == seq![LEAF_PREFIX] + encoded@.subrange(0, i as int),
        decreases encoded@.len() - i,
    {
        buf.push(encoded[i]);
        assert(encoded@.subrange(0, i + 1) == encoded@.subrange(0, i as int).push(encoded@[i as int]));
        i = i + 1;
    }
    assert(encoded@.subrange(0, encoded@.len() as int) == encoded@);
    sha256(env, &buf)
}

fn le(a: Hash32, b: Hash32) -> (r: bool)
    ensures
        r == hash_le(a, b),
{
    a.hi < b.hi || (a.hi == b.hi && a.lo <= b.lo)
}

/// Combine two child hashes into their parent, order-independently.
pub fn hash_pair(env: &Env, a: Hash32, b: Hash32) -> (h: Hash32)
    ensures
        h == pair_hash(a, b),
{
    let (x, y) = if le(a, b) { (a, b) } else { (b, a) };
    let mut buf: Vec<u8> = Vec::new();
    buf.push(NODE_PREFIX);
    push_hash_bytes(&mut buf, x);
    push_hash_bytes(&mut buf, y);
    sha256(env, &buf)
}

/// The root committed to by an empty vouch set.
pub fn empty_root_hash(env: &Env) -> (h: Hash32)
    ensures
        h == empty_root(),
{
    let mut buf: Vec<u8> = Vec::new();
    buf.push(EMPTY_PREFIX);
    sha256(env, &buf)
}

/// Sort leaves by byte value (insertion sort), whatever order they came in.
pub fn canonical_order(leaves: &Vec<Hash32>) -> (r: Vec<Hash32>)
    ensures
        r@ == canonical(leaves@),
{
    let mut sorted: Vec<Hash32> = Vec::new();
    let n = leaves.len();
    let mut k: usize = 0;
    while k < n
        invariant
            n == leaves@.len(),
            k <= n,
            forall|i: int, j: int| 0 <= i < j < sorted@.len() ==> #[trigger] hash_le(sorted@[i], sorted@[j]),
            sorted@.to_multiset() == leaves@.subrange(0, k as int).to_multiset(),
        decreases n - k,
    {
        let x = leaves[k];
        let mut pos: usize = 0;
        while pos < sorted.len() && le(sorted[pos], x)
            invariant
                pos <= sorted@.len(),
                forall|j: int| 0 <= j < pos ==> hash_le(#[trigger] sorted@[j], x),
            decreases sorted@.len() - pos,
        {
            pos = pos + 1;
        }
        let ghost before = sorted@;
        sorted.insert(pos, x);
        proof {
            assert(sorted@ == before.insert(pos as int, x));
            assert forall|i: int, j: int| 0 <= i < j < sorted@.len()
                implies #[trigger] hash_le(sorted@[i], sorted@[j]) by {
                if j < pos {
                    assert(sorted@[i] == before[i] && sorted@[j] == before[j]);
                } else if j == pos {
                    assert(sorted@[i] == before[i]);
                } else if i == pos {
                    assert(sorted@[j] == before[j - 1]);
                    assert(!hash_le(before[pos as int], x));
                    if j - 1 > pos {
                        assert(hash_le(before[pos as int], before[j - 1]));
                    }
                    assert(hash_le(x, before[j - 1]));
                } else if i < pos {
                    assert(sorted@[i] == before[i] && sorted@[j] == before[j - 1]);
                } else {
                    assert(sorted@[i] == before[i - 1] && sorted@[j] == before[j - 1]);
                }
            }
            assert(leaves@.subrange(0, k + 1) == leaves@.subrange(0, k as int).push(x));
            lemma_insert_to_multiset(before, pos as int, x);
        }
        k = k + 1;
    }
    proof {
        assert(leaves@.subrange(0, n as int) == leaves@);
        assert(sorted_by(sorted@, |a: Hash32, b: Hash32| hash_le(a, b)));
        lemma_hash_le_total();
        leaves@.lemma_sort_by_ensures(|a: Hash32, b: Hash32| hash_le(a, b));
        vstd::seq_lib::lemma_sorted_unique(sorted@, canonical(leaves@), |a: Hash32, b: Hash32| hash_le(a, b));
    }
    sorted
}

/// Computes the level above `level`.
fn build_next_level(env: &Env, level: &Vec<Hash32>) -> (next: Vec<Hash32>)
    ensures
        next@ == next_level(level@),
{
    let n = level.len();
    let mut next: Vec<Hash32> = Vec::new();
    let mut i: usize = 0;
    while i + 1 < n
        invariant
            n == level@.len(),
            i % 2 == 0,
            i <= n,
            next@.len() == i / 2,
            forall|k: int| 0 <= k < next@.len() ==> #[trigger] next@[k] == next_level(level@)[k],
        decreases n - i,
    {
        next.push(hash_pair(env, level[i], level[i + 1]));
        i = i + 2;
    }
    if i < n {
        next.push(level[i]);
    }
    assert(next@ == next_level(level@));
    next
}

/// Build the Merkle root of a set of leaf hashes; the order of the leaves
/// does not matter.
pub fn build_merkle_root(env: &Env, leaves: &Vec<Hash32>) -> (root: Hash32)
    ensures
        root == merkle_root(leaves@),
{
    if leaves.len() == 0 {
        return empty_root_hash(env);
    }
    let sorted = canonical_order(leaves);
    proof {
        lemma_hash_le_total();
        leaves@.lemma_sort_by_ensures(|a: Hash32, b: Hash32| hash_le(a, b));
        assert(sorted@.to_multiset().len() == leaves@.len());
    }
    let mut level = sorted;
    while level.len() > 1
        invariant
            level@.len() >= 1,
            level_root(level@) == level_root(canonical(leaves@)),
        decreases level@.len(),
    {
        level = build_next_level(env, &level);
    }
    level[0]
}

/// Position of the first occurrence of `x` in `s`.
fn position_of(s: &Vec<Hash32>, x: Hash32) -> (r: Option<usize>)
    ensures
        r is None <==> !s@.contains(x),
        r matches Some(i) ==> i < s@.len() && s@[i as int] == x,
{
    let mut i: usize = 0;
    while i < s.len()
        invariant
            i <= s@.len(),
            forall|j: int| 0 <= j < i ==> s@[j] != x,
        decreases s@.len() - i,
    {
        if s[i] == x {
            return Some(i);
        }
        i = i + 1;
    }
    None
}

/// Generate an inclusion proof for `leaf` against the given leaf set:
/// `None` when the leaf is not in the set; otherwise sibling hashes that
/// lead from the leaf to the set's root.
pub fn generate_proof(env: &Env, leaves: &Vec<Hash32>, leaf: Hash32) -> (r: Option<Vec<Hash32>>)
    ensures
        r is None <==> !leaves@.contains(leaf),
        r matches Some(p) ==> fold_proof(leaf, p@) == merkle_root(leaves@),
        r matches Some(p) ==> p@.len() <= tree_height(leaves@.len()),
        r matches Some(p) ==> (leaves@.len() == 1 ==> p@.len() == 0),
{
    if leaves.len() == 0 {
        return None;
    }
    let mut level = canonical_order(leaves);
    proof {
        lemma_hash_le_total();
        leaves@.lemma_sort_by_ensures(|a: Hash32, b: Hash32| hash_le(a, b));
        assert(level@.to_multiset().len() == leaves@.len());
        assert(level@.contains(leaf) <==> level@.to_multiset().count(leaf) > 0);
        assert(leaves@.contains(leaf) <==> leaves@.to_multiset().count(leaf) > 0);
        assert(level@.len() == leaves@.len());
    }
    let mut idx = match position_of(&level, leaf) {
        Some(i) => i,
        None => {
            return None;
        },
    };
    let mut proof: Vec<Hash32> = Vec::new();
    while level.len() > 1
        invariant
            level@.len() >= 1,
            idx < level@.len(),
            level_root(level@) == merkle_root(leaves@),
            fold_proof(leaf, proof@) == level@[idx as int],
            proof@.len() + tree_height(level@.len()) <= tree_height(leaves@.len()),
        decreases level@.len(),
    {
        let n = level.len();
        let ghost target = level@[idx as int];
        let ghost p0 = proof@.len();
        let mut next: Vec<Hash32> = Vec::new();
        let mut i: usize = 0;
        let ghost mut done = false;
        while i + 1 < n
            invariant
                n == level@.len(),
                i % 2 == 0,
                i <= n,
                next@.len() == i / 2,
                forall|k: int| 0 <= k < next@.len() ==> #[trigger] next@[k] == next_level(level@)[k],
                target == level@[idx as int] || done,
                done ==> idx < next@.len() && fold_proof(leaf, proof@) == next_level(level@)[idx as int],
                !done ==> idx >= i && idx < n && fold_proof(leaf, proof@) == level@[idx as int],
                proof@.len() <= p0 + (if done { 1int } else { 0int }),
            decreases n - i,
        {
            if i == idx || i + 1 == idx {
                let sibling = if i == idx { level[i + 1] } else { level[i] };
                let ghost node = level@[idx as int];
                let ghost old_proof = proof@;
                proof.push(sibling);
                idx = next.len();
                proof {
                    lemma_pair_hash_symmetric(level@[i as int], level@[i + 1]);
                    assert(proof@.drop_last() == old_proof);
                    assert(proof@.last() == sibling);
                    assert(fold_proof(leaf, proof@) == pair_hash(fold_proof(leaf, old_proof), sibling));
                    assert(fold_proof(leaf, proof@) == pair_hash(node, sibling));
                    done = true;
                }
            }
            next.push(hash_pair(env, level[i], level[i + 1]));
            i = i + 2;
        }
        if i < n {
            if i == idx {
                idx = next.len();
                proof { done = true; }
            }
            next.push(level[i]);
        }
        assert(next@ == next_level(level@));
        level = next;
    }
    Some(proof)
}

/// Verify that `leaf` is included under `root` given an inclusion proof:
/// true exactly when folding the proof from the leaf gives the root.
pub fn verify_inclusion(env: &Env, root: Hash32, leaf: Hash32, proof: &Vec<Hash32>) -> (b: bool)
    ensures
        b == (fold_proof(leaf, proof@) == root),
{
    let mut computed = leaf;
    let mut i: usize = 0;
    while i < proof.len()
        invariant
            i <= proof@.len(),
            computed == fold_proof(leaf, proof@.subrange(0, i as int)),
        decreases proof@.len() - i,
    {
        assert(proof@.subrange(0, i + 1).drop_last() == proof@.subrange(0, i as int));
        computed = hash_pair(env, computed, proof[i]);
        i = i + 1;
    }
    assert(proof@.subrange(0, proof@.len() as int) == proof@);
    computed == root
}

/// The root depends only on the leaves present, not on their order: two
/// leaf lists holding the same leaves have the same root.
pub proof fn lemma_root_order_independent(a: Seq<Hash32>, b: Seq<Hash32>)
    requires
        a.to_multiset() == b.to_multiset(),
    ensures
        merkle_root(a) == merkle_root(b),
{
    lemma_hash_le_total();
    a.lemma_sort_by_ensures(|x: Hash32, y: Hash32| hash_le(x, y));
    b.lemma_sort_by_ensures(|x: Hash32, y: Hash32| hash_le(x, y));
    vstd::seq_lib::lemma_sorted_unique(canonical(a), canonical(b), |x: Hash32, y: Hash32| hash_le(x, y));
    assert(a.len() == a.to_multiset().len());
    assert(b.len() == b.to_multiset().len());
}

} // verus!
