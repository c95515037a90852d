//! Custom key/value attributes an account keeps on itself, with bounded
//! sizes: at most 50 keys, each key (non-empty) and value at most 256 bytes.
use vstd::prelude::*;
use crate::errors::ContractError;

verus! {

/// Most attributes one account may keep.
pub const MAX_CUSTOM_ATTRIBUTES: usize = 50;

/// Most bytes in an attribute key or value.
pub const MAX_ATTRIBUTE_BYTES: usize = 256;

/// One attribute: its key and value, as UTF-8 bytes.
pub struct AttributeEntry {
    pub key: Vec<u8>,
    pub value: Vec<u8>,
}

/// The attributes as `(key, value)` byte sequences.
pub open spec fn entries(attrs: Seq<AttributeEntry>) -> Seq<(Seq<u8>, Seq<u8>)> {
    attrs.map_values(|e: AttributeEntry| (e.key@, e.value@))
}

/// The attribute entries other than those with key `key`, in order.
pub open spec fn without_key(es: Seq<(Seq<u8>, Seq<u8>)>, key: Seq<u8>) -> Seq<(Seq<u8>, Seq<u8>)> {
    es.filter(|e: (Seq<u8>, Seq<u8>)| e.0 != key)
}

/// Whether some attribute has key `key`.
pub open spec fn has_key(attrs: Seq<AttributeEntry>, key: Seq<u8>) -> bool {
    exists|i: int| 0 <= i < attrs.len() && #[trigger] attrs[i].key@ == key
}

/// Whether two byte strings are equal.
pub fn bytes_eq(a: &Vec<u8>, b: &Vec<u8>) -> (r: bool)
    ensures
        r == (a@ == b@),
{
    if a.len() != b.len() {
        return false;
    }
    let mut i: usize = 0;
    while i < a.len()
        invariant
            i <= a@.len() == b@.len(),
            forall|j: int| 0 <= j < i ==> a@[j] == b@[j],
        decreases a@.len() - i,
    {
        if a[i] != b[i] {
            return false;
        }
        i = i + 1;
    }
    assert(a@ =~= b@);
    true
}

fn copy_bytes(a: &Vec<u8>) -> (r: Vec<u8>)
    ensures
        r@ == a@,
{
    let r = a.clone();
    assert(r@ =~= a@);
    r
}

/// Set attribute `key` to `value` on the account's attributes `attrs`: an
/// existing key is overwritten in place; a new key is appended unless the
/// account already keeps 50. An empty key, or a key or value over 256
/// bytes, is refused.
pub fn set_attribute(attrs: &Vec<AttributeEntry>, key: &Vec<u8>, value: &Vec<u8>) -> (r: Result<
    Vec<AttributeEntry>,
    ContractError,
>)
    ensures
        key@.len() == 0 || key@.len() > 256 || value@.len() > 256 ==> r is Err && r->Err_0 == ContractError::InvalidAmount,
        !(key@.len() == 0 || key@.len() > 256 || value@.len() > 256) ==> {
            &&& has_key(attrs@, key@) ==> (r matches Ok(v) && entries(v@) == entries(attrs@).map_values(
                |e: (Seq<u8>, Seq<u8>)| if e.0 == key@ { (key@, value@) } else { e },
            ))
            &&& !has_key(attrs@, key@) && attrs@.len() >= 50 ==> r is Err && r->Err_0 == ContractError::InvalidAmount
            &&& !has_key(attrs@, key@) && attrs@.len() < 50 ==> (r matches Ok(v) && entries(v@) == entries(attrs@).push(
                (key@, value@),
            ))
        },
{
    if key.len() == 0 || key.len() > MAX_ATTRIBUTE_BYTES || value.len() > MAX_ATTRIBUTE_BYTES {
        return Err(ContractError::InvalidAmount);
    }
    let ghost target = entries(attrs@).map_values(
        |e: (Seq<u8>, Seq<u8>)| if e.0 == key@ { (key@, value@) } else { e },
    );
    let mut found = false;
    let mut updated: Vec<AttributeEntry> = Vec::new();
    let mut i: usize = 0;
    while i < attrs.len()
        invariant
            i <= attrs@.len(),
            updated@.len() == i,
            forall|j: int| 0 <= j < i ==> entries(updated@)[j] == #[trigger] target[j],
            found <==> exists|j: int| 0 <= j < i && #[trigger] attrs@[j].key@ == key@,
            target == entries(attrs@).map_values(
                |e: (Seq<u8>, Seq<u8>)| if e.0 == key@ { (key@, value@) } else { e },
            ),
        decreases attrs@.len() - i,
    {
        let same = bytes_eq(&attrs[i].key, key);
        if same {
            updated.push(AttributeEntry { key: copy_bytes(key), value: copy_bytes(value) });
            found = true;
        } else {
            updated.push(AttributeEntry { key: copy_bytes(&attrs[i].key), value: copy_bytes(&attrs[i].value) });
        }
        assert forall|j: int| 0 <= j < i + 1 implies entries(updated@)[j] == #[trigger] target[j] by {
            if j < i {
                assert(entries(updated@)[j] == (updated@[j].key@, updated@[j].value@));
            }
        }
        i = i + 1;
    }
    if !found {
        if attrs.len() >= MAX_CUSTOM_ATTRIBUTES {
            return Err(ContractError::InvalidAmount);
        }
        assert(entries(updated@) =~= entries(attrs@)) by {
            assert forall|j: int| 0 <= j < attrs@.len() implies entries(updated@)[j] == entries(attrs@)[j] by {
                assert(attrs@[j].key@ != key@);
                assert(target[j] == entries(attrs@)[j]);
            }
        }
        let ghost before = updated@;
        updated.push(AttributeEntry { key: copy_bytes(key), value: copy_bytes(value) });
        assert(entries(updated@) =~= entries(before).push((key@, value@)));
        return Ok(updated);
    }
    assert(entries(updated@) =~= target);
    Ok(updated)
}

/// Remove attribute `key` from the account's attributes (removing a key
/// that is not there changes nothing).
pub fn remove_attribute(attrs: &Vec<AttributeEntry>, key: &Vec<u8>) -> (r: Vec<AttributeEntry>)
    ensures
        entries(r@) == without_key(entries(attrs@), key@),
        !has_key(r@, key@),
{
    let mut updated: Vec<AttributeEntry> = Vec::new();
    let mut i: usize = 0;
    while i < attrs.len()
        invariant
            i <= attrs@.len(),
            entries(updated@) == entries(attrs@.subrange(0, i as int)).filter(|e: (Seq<u8>, Seq<u8>)| e.0 != key@),
            forall|j: int| 0 <= j < updated@.len() ==> #[trigger] updated@[j].key@ != key@,
        decreases attrs@.len() - i,
    {
        let ghost prefix = attrs@.subrange(0, i as int);
        let ghost next = attrs@.subrange(0, i + 1);
        assert(entries(next) =~= entries(prefix).push((attrs@[i as int].key@, attrs@[i as int].value@)));
        reveal(Seq::filter);
        assert(entries(next).drop_last() =~= entries(prefix));
        let same = bytes_eq(&attrs[i].key, key);
        if !same {
            let ghost before = updated@;
            updated.push(AttributeEntry { key: copy_bytes(&attrs[i].key), value: copy_bytes(&attrs[i].value) });
            assert(entries(updated@) =~= entries(before).push((attrs@[i as int].key@, attrs@[i as int].value@)));
        }
        i = i + 1;
    }
    assert(attrs@.subrange(0, attrs@.len() as int) =~= attrs@);
    updated
}

/// Removing a key twice leaves the same attributes as removing it once:
/// with `remove_attribute`'s contract, removing `key` from its own result
/// gives entries equal to that result.
pub proof fn lemma_remove_idempotent(es: Seq<(Seq<u8>, Seq<u8>)>, key: Seq<u8>)
    ensures
        without_key(without_key(es, key), key) == without_key(es, key),
    decreases es.len(),
{
    reveal(Seq::filter);
    if es.len() > 0 {
        lemma_remove_idempotent(es.drop_last(), key);
        let f = without_key(es.drop_last(), key);
        if es.last().0 != key {
            assert(f.push(es.last()).drop_last() =~= f);
        }
    }
}

} // verus!
