//! The textures egui has handed out, looked up by egui's texture id.
use vstd::prelude::*;
use std::collections::HashMap;

verus! {

broadcast use vstd::std_specs::hash::group_hash_axioms;

/// egui's id of a texture: one egui manages, or one the user registered.
#[derive(Clone, Copy, PartialEq, Eq, Structural, Debug, Hash)]
pub enum TexId {
    Managed(u64),
    User(u64),
}

/// A map from texture ids to entries.
pub struct TexMap<T> {
    managed: HashMap<u64, T>,
    user: HashMap<u64, T>,
}

/// The map of ids to entries held in the two halves of a `TexMap`.
pub open spec fn merged<T>(managed: Map<u64, T>, user: Map<u64, T>) -> Map<TexId, T> {
    Map::new(
        |id: TexId|
            match id {
                TexId::Managed(k) => managed.contains_key(k),
                TexId::User(k) => user.contains_key(k),
            },
        |id: TexId|
            match id {
                TexId::Managed(k) => managed[k],
                TexId::User(k) => user[k],
            },
    )
}

/// The map `m` without the ids in `ids`.
pub open spec fn without_ids<T>(m: Map<TexId, T>, ids: Seq<TexId>) -> Map<TexId, T> {
    m.remove_keys(ids.to_set())
}

impl<T> View for TexMap<T> {
    type V = Map<TexId, T>;

    closed spec fn view(&self) -> Map<TexId, T> {
        merged(self.managed@, self.user@)
    }
}

impl<T> TexMap<T> {
    /// An empty map.
    pub fn new() -> (m: TexMap<T>)
        ensures
            m@ == Map::<TexId, T>::empty(),
    {
        let m = TexMap { managed: HashMap::new(), user: HashMap::new() };
        assert(m@ =~= Map::<TexId, T>::empty());
        m
    }

    /// Adds or replaces the entry of `id`; returns the entry it replaced.
    pub fn insert(&mut self, id: TexId, entry: T) -> (old_entry: Option<T>)
        ensures
            final(self)@ == old(self)@.insert(id, entry),
            match old_entry {
                Some(e) => old(self)@.contains_key(id) && e == old(self)@[id],
                None => !old(self)@.contains_key(id),
            },
    {
        let r = match id {
            TexId::Managed(k) => self.managed.insert(k, entry),
            TexId::User(k) => self.user.insert(k, entry),
        };
        assert(self@ =~= old(self)@.insert(id, entry));
        r
    }

    /// The entry of `id`, if there is one.
    pub fn get(&self, id: TexId) -> (r: Option<&T>)
        ensures
            match r {
                Some(e) => self@.contains_key(id) && *e == self@[id],
                None => !self@.contains_key(id),
            },
    {
        match id {
            TexId::Managed(k) => self.managed.get(&k),
            TexId::User(k) => self.user.get(&k),
        }
    }

    /// Removes the entry of `id`; returns it, if there was one.
    pub fn remove(&mut self, id: TexId) -> (r: Option<T>)
        ensures
            final(self)@ == old(self)@.remove(id),
            match r {
                Some(e) => old(self)@.contains_key(id) && e == old(self)@[id],
                None => !old(self)@.contains_key(id),
            },
    {
        let r = match id {
            TexId::Managed(k) => self.managed.remove(&k),
            TexId::User(k) => self.user.remove(&k),
        };
        assert(self@ =~= old(self)@.remove(id));
        r
    }

    /// Removes the entries of all the ids egui has freed; ids without an
    /// entry are ignored.
    pub fn free_textures(&mut self, ids: &Vec<TexId>)
        ensures
            final(self)@ == without_ids(old(self)@, ids@),
    {
        let n = ids.len();
        let mut i: usize = 0;
        while i < n
            invariant
                n == ids@.len(),
                i <= n,
                self@ == without_ids(old(self)@, ids@.take(i as int)),
            decreases n - i,
        {
            let id = ids[i];
            self.remove(id);
            assert(ids@.take(i + 1) == ids@.take(i as int).push(id));
            assert(ids@.take(i + 1).to_set() =~= ids@.take(i as int).to_set().insert(id)) by {
                ids@.take(i as int).lemma_push_to_set_commute(id);
            }
            assert(without_ids(old(self)@, ids@.take(i + 1)) =~= without_ids(
                old(self)@,
                ids@.take(i as int),
            ).remove(id));
            i = i + 1;
        }
        assert(ids@.take(n as int) =~= ids@);
    }
}


/// What an entry is looked up as after it was added: the entry just added
/// under its id, and what was there before under every other id.
pub proof fn lemma_get_after_insert<T>(m: Map<TexId, T>, id: TexId, entry: T, other: TexId)
    ensures
        m.insert(id, entry).contains_key(id),
        m.insert(id, entry)[id] == entry,
        other != id ==> (m.insert(id, entry).contains_key(other) == m.contains_key(other)),
        other != id && m.contains_key(other) ==> m.insert(id, entry)[other] == m[other],
{
}

/// After freeing, no freed id has an entry, and every other id keeps the
/// entry it had.
pub proof fn lemma_free_textures<T>(m: Map<TexId, T>, ids: Seq<TexId>, id: TexId)
    ensures
        ids.contains(id) ==> !without_ids(m, ids).contains_key(id),
        !ids.contains(id) ==> (without_ids(m, ids).contains_key(id) == m.contains_key(id)),
        !ids.contains(id) && m.contains_key(id) ==> without_ids(m, ids)[id] == m[id],
{
}

} // verus!
