use vstd::prelude::*;
use dashmap::DashMap;
use dashmap::try_result::TryResult;
use crate::game::{mutation_user, Mutations};

verus! {

#[verifier::external_type_specification]
#[verifier::external_body]
#[verifier::reject_recursive_types(K)]
#[verifier::reject_recursive_types(V)]
#[verifier::reject_recursive_types(S)]
pub struct ExDashMap<K, V, S>(DashMap<K, V, S>);

/// The changes a shared map holds for each user.
pub uninterp spec fn queued(m: DashMap<u64, Vec<Mutations>>) -> Map<u64, Seq<Mutations>>;

/// Calls `DashMap::new`: the map starts empty.
#[verifier::external_body]
fn shared_new() -> (r: DashMap<u64, Vec<Mutations>>)
    ensures
        queued(r).dom().is_empty(),
{
    DashMap::new()
}

/// What a look-up that does not wait for a lock found: a copy of the value, nothing, or a
/// lock held elsewhere.
pub enum Found {
    Present(Vec<Mutations>),
    Absent,
    Locked,
}

/// Calls `DashMap::try_get` and copies the value found (with `Clone`). Where it finds a value
/// the key is there and the copy holds a clone of each change, in order; where it finds none
/// the key is not there. Nothing is claimed where the shard is locked.
#[verifier::external_body]
fn shared_try_get(m: &DashMap<u64, Vec<Mutations>>, key: u64) -> (r: Found)
    ensures
        match r {
            Found::Present(v) => queued(*m).contains_key(key) && v@.len() == queued(*m)[key].len()
                && forall|i: int| 0 <= i < v@.len() ==> cloned(queued(*m)[key][i], #[trigger] v@[i]),
            Found::Absent => !queued(*m).contains_key(key),
            Found::Locked => true,
        },
{
    match m.try_get(&key) {
        TryResult::Present(r) => Found::Present(r.value().clone()),
        TryResult::Absent => Found::Absent,
        TryResult::Locked => Found::Locked,
    }
}

/// Calls `DashMap::get` and copies the value found (with `Clone`): where the key is there, a
/// clone of each change, in order.
#[verifier::external_body]
fn shared_get(m: &DashMap<u64, Vec<Mutations>>, key: u64) -> (r: Option<Vec<Mutations>>)
    ensures
        match r {
            Some(v) => queued(*m).contains_key(key) && v@.len() == queued(*m)[key].len()
                && forall|i: int| 0 <= i < v@.len() ==> cloned(queued(*m)[key][i], #[trigger] v@[i]),
            None => !queued(*m).contains_key(key),
        },
{
    m.get(&key).map(|r| r.value().clone())
}

/// Calls `DashMap::insert`: the key holds the value from then on.
#[verifier::external_body]
fn shared_insert(m: &mut DashMap<u64, Vec<Mutations>>, key: u64, value: Vec<Mutations>)
    ensures
        queued(*final(m)) == queued(*old(m)).insert(key, value@),
{
    m.insert(key, value);
}

/// Calls `DashMap::remove`: the key is gone from then on.
#[verifier::external_body]
fn shared_remove(m: &mut DashMap<u64, Vec<Mutations>>, key: u64)
    ensures
        queued(*final(m)) == queued(*old(m)).remove(key),
{
    m.remove(&key);
}

/// The changes waiting for each user, in the order they came.
pub struct Buffer {
    mutations: DashMap<u64, Vec<Mutations>>,
}

/// `c` holds a clone of each of `v`, in order.
pub open spec fn clones_of(v: Seq<Mutations>, c: Seq<Mutations>) -> bool {
    &&& c.len() == v.len()
    &&& forall|i: int| 0 <= i < c.len() ==> cloned(v[i], #[trigger] c[i])
}

/// How many times a change waits for a locked shard before it is given up.
pub open spec fn retry_limit() -> u32 {
    10
}

impl Buffer {
    /// The changes waiting for each user.
    pub closed spec fn pending(self) -> Map<u64, Seq<Mutations>> {
        queued(self.mutations)
    }

    /// A buffer with no changes.
    pub fn new() -> (r: Buffer)
        ensures
            r.pending() == Map::<u64, Seq<Mutations>>::empty(),
    {
        let mutations = shared_new();
        assert(queued(mutations) =~= Map::<u64, Seq<Mutations>>::empty());
        Buffer { mutations }
    }

    /// Puts the changes, all of the first one's user, in place of those the user had: the
    /// changes the user had are given up. Where the user's shard stays locked through ten
    /// retries, nothing changes.
    pub fn extend(&mut self, mutation: Vec<Mutations>)
        requires
            mutation@.len() > 0,
        ensures
            final(self).pending() == old(self).pending().insert(mutation_user(mutation@[0]), mutation@)
                || final(self).pending() == old(self).pending(),
    {
        let key = *mutation[0].user_id();
        let mut pending = Some(mutation);
        let ghost wanted = pending.unwrap()@;
        let mut done = false;
        let mut retries: u32 = 0;
        while !done
            invariant_except_break
                retries <= retry_limit(),
            invariant
                !done ==> pending == Some::<Vec<Mutations>>(pending.unwrap()) && pending.unwrap()@ == wanted,
                !done ==> queued(self.mutations) == old(self).pending(),
                done ==> queued(self.mutations) == old(self).pending().insert(key, wanted),
            ensures
                queued(self.mutations) == old(self).pending().insert(key, wanted)
                    || queued(self.mutations) == old(self).pending(),
            decreases retry_limit() + 1 - retries, (if done { 0int } else { 1int }),
        {
            let found = shared_try_get(&self.mutations, key);
            done = self.settle_extend(key, found, &mut pending);
            if !done {
                retries = retries + 1;
                if retries > 10 {
                    break;
                }
            }
        }
    }

    /// Adds a change after those its user has waiting (a copy of them, with the change at its
    /// end, takes their place), or as the user's first. Where the user's shard stays locked
    /// through ten retries, nothing changes.
    pub fn add(&mut self, mutation: Mutations)
        ensures
            ({
                let key = mutation_user(mutation);
                let before = old(self).pending();
                let after = final(self).pending();
                ||| after == before
                ||| !before.contains_key(key) && after == before.insert(key, seq![mutation])
                ||| before.contains_key(key) && exists|c: Seq<Mutations>|
                    clones_of(before[key], c) && after == before.insert(key, #[trigger] c.push(mutation))
            }),
    {
        let key = *mutation.user_id();
        let ghost m = mutation;
        let mut pending = Some(mutation);
        let mut done = false;
        let mut retries: u32 = 0;
        while !done
            invariant_except_break
                retries <= retry_limit(),
            invariant
                key == mutation_user(m),
                !done ==> pending == Some(m),
                !done ==> queued(self.mutations) == old(self).pending(),
                done ==> ({
                    let before = old(self).pending();
                    let after = queued(self.mutations);
                    ||| !before.contains_key(key) && after == before.insert(key, seq![m])
                    ||| before.contains_key(key) && exists|c: Seq<Mutations>|
                        clones_of(before[key], c) && after == before.insert(key, #[trigger] c.push(m))
                }),
            ensures
                ({
                    let before = old(self).pending();
                    let after = queued(self.mutations);
                    ||| after == before
                    ||| !before.contains_key(key) && after == before.insert(key, seq![m])
                    ||| before.contains_key(key) && exists|c: Seq<Mutations>|
                        clones_of(before[key], c) && after == before.insert(key, #[trigger] c.push(m))
                }),
            decreases retry_limit() + 1 - retries, (if done { 0int } else { 1int }),
        {
            let found = shared_try_get(&self.mutations, key);
            let ghost seen = found;
            done = self.settle_add(key, found, &mut pending);
            proof {
                if let Found::Present(v) = seen {
                    assert(clones_of(old(self).pending()[key], v@));
                }
            }
            if !done {
                retries = retries + 1;
                if retries > 10 {
                    break;
                }
            }
        }
    }

    /// One attempt of `extend`, once a look-up that does not wait for a lock found `found`
    /// under `key`: unless the shard was locked, the waiting changes take the key's place and
    /// the attempt is done; a locked shard leaves everything as it was.
    pub fn settle_extend(&mut self, key: u64, found: Found, pending: &mut Option<Vec<Mutations>>) -> (done: bool)
        requires
            *old(pending) is Some,
        ensures
            done == !(found is Locked),
            done ==> final(self).pending() == old(self).pending().insert(key, (*old(pending)).unwrap()@)
                && *final(pending) is None,
            !done ==> final(self).pending() == old(self).pending() && *final(pending) == *old(pending),
    {
        match found {
            Found::Locked => false,
            _ => {
                let value = pending.take().unwrap();
                shared_insert(&mut self.mutations, key, value);
                true
            },
        }
    }

    /// One attempt of `add`, once a look-up that does not wait for a lock found `found` under
    /// `key`: a copy of changes found gets the waiting change at its end and takes the key's
    /// place; where nothing was found the waiting change becomes the key's only one; a locked
    /// shard leaves everything as it was.
    pub fn settle_add(&mut self, key: u64, found: Found, pending: &mut Option<Mutations>) -> (done: bool)
        requires
            *old(pending) is Some,
        ensures
            done == !(found is Locked),
            match found {
                Found::Present(v) => final(self).pending() == old(self).pending().insert(
                    key,
                    v@.push((*old(pending)).unwrap()),
                ),
                Found::Absent => final(self).pending() == old(self).pending().insert(
                    key,
                    seq![(*old(pending)).unwrap()],
                ),
                Found::Locked => final(self).pending() == old(self).pending(),
            },
            done ==> *final(pending) is None,
            !done ==> *final(pending) == *old(pending),
    {
        match found {
            Found::Present(existing) => {
                let mut mutations = existing;
                let ghost c = mutations@;
                mutations.push(pending.take().unwrap());
                assert(mutations@ == c.push((*old(pending)).unwrap()));
                shared_insert(&mut self.mutations, key, mutations);
                true
            },
            Found::Absent => {
                let first = vec![pending.take().unwrap()];
                assert(first@ == seq![(*old(pending)).unwrap()]);
                shared_insert(&mut self.mutations, key, first);
                true
            },
            Found::Locked => false,
        }
    }

    /// Gives up every change the user has waiting.
    pub fn clear(&mut self, character: u64)
        ensures
            final(self).pending() == old(self).pending().remove(character),
    {
        shared_remove(&mut self.mutations, character);
    }

    /// A copy of the changes the user has waiting, if any.
    pub fn get(&self, key: u64) -> (r: Option<Vec<Mutations>>)
        ensures
            match r {
                Some(v) => self.pending().contains_key(key) && clones_of(self.pending()[key], v@),
                None => !self.pending().contains_key(key),
            },
    {
        shared_get(&self.mutations, key)
    }
}

} // verus!
