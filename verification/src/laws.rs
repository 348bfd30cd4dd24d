//! The registry's laws, stated over the same spec functions that the
//! executable functions' contracts use: `stored_contacts` for what a
//! read returns, and `Seq::push` for what one append does to the
//! collection (see `create_contact` and `list_contacts`).

use vstd::prelude::*;
use crate::contact::ContactView;
use crate::contact::Contacts;
use crate::registry::stored_contacts;
use crate::store::DataKey;
use crate::store::InstanceStore;

verus! {

/// The collection that a run of appends leaves behind: starting from
/// `s0`, each record of `recs` appended in order. One `create` call
/// takes the stored collection from `s` to `s.push(record)`, so this
/// is the stored collection after the whole run.
pub open spec fn after_creates(s0: Seq<ContactView>, recs: Seq<ContactView>) -> Seq<ContactView>
    decreases recs.len(),
{
    if recs.len() == 0 {
        s0
    } else {
        after_creates(s0.push(recs[0]), recs.drop_first())
    }
}

/// A run of appends adds exactly its records, in order, after the
/// records that were already there.
pub proof fn lemma_after_creates_is_concat(s0: Seq<ContactView>, recs: Seq<ContactView>)
    ensures
        after_creates(s0, recs) == s0 + recs,
    decreases recs.len(),
{
    if recs.len() == 0 {
        assert(s0 + recs =~= s0);
    } else {
        lemma_after_creates_is_concat(s0.push(recs[0]), recs.drop_first());
        assert(s0.push(recs[0]) + recs.drop_first() =~= s0 + recs);
    }
}

/// Law: for any finite sequence of created records, issued in order
/// against a store whose collection starts empty, a subsequent read
/// returns exactly those records, in creation order.
pub proof fn lemma_creates_listed_in_order(recs: Seq<ContactView>)
    ensures
        after_creates(Seq::<ContactView>::empty(), recs) == recs,
{
    lemma_after_creates_is_concat(Seq::<ContactView>::empty(), recs);
    assert(Seq::<ContactView>::empty() + recs =~= recs);
}

/// Law: while the registry key is absent — no create has ever run, as
/// in a fresh store — a read returns the empty collection.
pub proof fn lemma_absent_key_lists_empty(store: InstanceStore)
    requires
        !store@.contains_key(DataKey::Contacts),
    ensures
        stored_contacts(store) == Seq::<ContactView>::empty(),
{
}

/// Law: an append is non-destructive: the collection grows by one, and
/// every record of the prior collection still appears, unchanged, at
/// its original position; the new record stands at the end.
pub proof fn lemma_append_non_destructive(s: Seq<ContactView>, r: ContactView)
    ensures
        s.push(r).len() == s.len() + 1,
        forall|i: int| 0 <= i < s.len() ==> s.push(r)[i] == s[i],
        s.push(r)[s.len() as int] == r,
{
}

/// Law: reads are idempotent: two reads of one store with no write in
/// between return collections with identical contents.
pub proof fn lemma_reads_idempotent(store: InstanceStore, r1: Contacts, r2: Contacts)
    requires
        r1@ == stored_contacts(store),
        r2@ == stored_contacts(store),
    ensures
        r1@ == r2@,
{
}

} // verus!
