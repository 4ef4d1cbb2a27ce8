use vstd::prelude::*;
use crate::id::ID;
use crate::runtime::RegistryModel;

verus! {

/// No two simultaneously live identities ever share an (index, generation)
/// pair: distinct occupied slots hold identities with distinct indices, so
/// their packed values differ however the generations fall. Well-formedness
/// is established by `create` and preserved by every registry operation, so
/// the hypothesis holds of every reachable registry, whatever the sequence of
/// `register` and `remove` calls that produced it.
pub proof fn lemma_live_identities_distinct<T>(m: RegistryModel<T>, i: int, j: int)
    requires
        m.wf(),
        0 <= i < m.table.len(),
        0 <= j < m.table.len(),
        i != j,
        m.table[i] is Some,
        m.table[j] is Some,
    ensures
        ({
            let a = m.table[i]->Some_0.0;
            let b = m.table[j]->Some_0.0;
            &&& a.spec_index() != b.spec_index()
            &&& !(a.spec_index() == b.spec_index() && a.spec_generation() == b.spec_generation())
        }),
{
}

/// The identity issued by `register` names the slot that now holds its task,
/// and no other simultaneously live identity shares its index — so none
/// shares its (index, generation) pair either. With
/// `lemma_live_identities_distinct` this carries the distinctness of live
/// identities through every register/remove sequence.
pub proof fn lemma_register_issues_fresh_identity<T>(m: RegistryModel<T>, task: T)
    requires
        m.wf(),
        m.can_register(),
    ensures
        ({
            let id = m.next_id();
            let m1 = m.after_register(task);
            &&& m1.live(id)
            &&& m1.table[id.spec_index() as int] == Some((id, task))
            &&& forall|other: ID|
                m1.live(other) && other != id ==> other.spec_index() != id.spec_index()
        }),
{
    let id = m.next_id();
    let m1 = m.after_register(task);
    if m.free.len() > 0 {
        let prev = m.free.last();
        ID::lemma_index_bound(prev);
        ID::lemma_parts(prev.spec_index(), ((prev.spec_generation() + 1) % 256) as u8);
    } else {
        ID::lemma_parts(m.table.len() as u32, 0);
    }
    assert(m1.table[id.spec_index() as int] == Some((id, task)));
    assert forall|other: ID| m1.live(other) && other != id implies other.spec_index()
        != id.spec_index() by {
        if other.spec_index() == id.spec_index() {
            assert(m1.table[other.spec_index() as int]->Some_0.0 == other);
        }
    }
}

/// Reusing a slot advances its generation: after `remove(id)`, the identity
/// that the next `register` issues carries `id`'s index with the generation
/// advanced by one modulo 256 — so the generations differ, and
/// `is_same_generation` on the old and new identities is false.
pub proof fn lemma_reuse_advances_generation<T>(m: RegistryModel<T>, id: ID)
    requires
        m.wf(),
        m.live(id),
    ensures
        ({
            let next = m.after_remove(id).next_id();
            &&& next.spec_index() == id.spec_index()
            &&& next.spec_generation() == (id.spec_generation() + 1) % 256
            &&& next.spec_generation() != id.spec_generation()
        }),
{
    let m1 = m.after_remove(id);
    assert(m1.free.last() == id);
    ID::lemma_index_bound(id);
    ID::lemma_parts(id.spec_index(), ((id.spec_generation() + 1) % 256) as u8);
    let g = id.spec_generation() as int;
    if g == 255 {
        assert((g + 1) % 256 == 0);
    } else {
        assert((g + 1) % 256 == g + 1);
    }
}

} // verus!
