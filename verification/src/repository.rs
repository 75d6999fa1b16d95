use std::collections::HashMap;
use vstd::prelude::*;

verus! {

broadcast use vstd::std_specs::hash::group_hash_axioms;

/// The number by which a repository knows one of its entities.
pub type EntityUniqueID = usize;

/// A number drawn by `rand::random`. Nothing is stated of it: it is whatever the
/// thread's generator gave.
#[verifier::external_body]
fn random_id() -> (r: EntityUniqueID) {
    rand::random()
}

/// The entities of one type that a transaction has loaded, each under a number
/// of its own.
pub struct Repository<E> {
    pool: HashMap<EntityUniqueID, E>,
}

impl<E> View for Repository<E> {
    type V = Map<EntityUniqueID, E>;

    closed spec fn view(&self) -> Map<EntityUniqueID, E> {
        self.pool@
    }
}

impl<E: Clone> Repository<E> {
    /// An empty repository.
    pub fn create() -> (r: Repository<E>)
        ensures
            r@ == Map::<EntityUniqueID, E>::empty(),
    {
        Repository { pool: HashMap::new() }
    }

    /// The number of entities held.
    pub fn len(&self) -> (r: usize)
        ensures
            r == self@.len(),
    {
        self.pool.len()
    }

    /// A number that no entity of the repository has yet. Numbers are drawn at
    /// random until one is free; should every draw of a very long run be taken,
    /// the least free number is given instead.
    fn generate_unique_id(&self) -> (id: EntityUniqueID)
        ensures
            !self@.contains_key(id),
    {
        let mut attempts: usize = usize::MAX;
        while attempts > 0
            decreases attempts,
        {
            let id = random_id();
            if !self.pool.contains_key(&id) {
                return id;
            }
            attempts = attempts - 1;
        }
        let n = self.pool.len();
        let ghost dom = self@.dom();
        let ghost mut taken: Set<EntityUniqueID> = Set::empty();
        let mut i: usize = 0;
        loop
            invariant
                dom == self@.dom(),
                dom.finite(),
                dom.len() == n,
                taken.finite(),
                taken.len() == i,
                taken.subset_of(dom),
                forall|j: EntityUniqueID| j < i ==> taken.contains(j),
                forall|j: EntityUniqueID| taken.contains(j) ==> j < i,
            decreases n - i,
        {
            if !self.pool.contains_key(&i) {
                return i;
            }
            proof {
                assert(!taken.contains(i));
                taken = taken.insert(i);
                vstd::set_lib::lemma_len_subset(taken, dom);
            }
            i = i + 1;
        }
    }

    /// Adds `entity` under a number that no entity had, and gives that number.
    pub fn insert_entity(&mut self, entity: E) -> (id: EntityUniqueID)
        ensures
            !old(self)@.contains_key(id),
            final(self)@ == old(self)@.insert(id, entity),
    {
        let id = self.generate_unique_id();
        self.pool.insert(id, entity);
        id
    }

    /// A copy of the entity numbered `id`, if there is one.
    pub fn get_entity(&self, id: &EntityUniqueID) -> (r: Option<E>)
        ensures
            match r {
                Some(e) => self@.contains_key(*id) && cloned::<E>(self@[*id], e),
                None => !self@.contains_key(*id),
            },
    {
        self.pool.get(id).cloned()
    }

    /// Takes the entity numbered `id` out of the repository and gives it, if
    /// there is one.
    pub fn drop_entity(&mut self, id: &EntityUniqueID) -> (r: Option<E>)
        ensures
            final(self)@ == old(self)@.remove(*id),
            match r {
                Some(e) => old(self)@.contains_key(*id) && e == old(self)@[*id],
                None => !old(self)@.contains_key(*id),
            },
    {
        self.pool.remove(id)
    }
}

/// After an entity is inserted under a number that the repository did not use,
/// reading that number gives the entity, every other number reads as before, and
/// dropping the number again leaves the repository as it was.
pub proof fn law_insert_get_drop<E>(
    pool: Map<EntityUniqueID, E>,
    id: EntityUniqueID,
    entity: E,
    other: EntityUniqueID,
)
    requires
        !pool.contains_key(id),
    ensures
        pool.insert(id, entity).contains_key(id),
        pool.insert(id, entity)[id] == entity,
        other != id ==> pool.insert(id, entity).contains_key(other) == pool.contains_key(other),
        other != id && pool.contains_key(other) ==> pool.insert(id, entity)[other] == pool[other],
        pool.insert(id, entity).remove(id) == pool,
{
    assert(pool.insert(id, entity).remove(id) =~= pool);
}

} // verus!
