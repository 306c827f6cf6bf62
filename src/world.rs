use vstd::prelude::*;
use crate::user::{User, valid_input};
use crate::service::{ServiceError, StoreFault, cache_key_of, invalid_reason, lift};
use crate::machine::{Request, CacheLookup, Event, Action, Phase, step_spec};

verus! {

/// What the cache holds under one key: a value that decodes to a record, or
/// bytes that do not decode.
pub enum Slot {
    Holds(User),
    Garbled,
}

/// A model of the two collaborators: the store's rows keyed by identifier,
/// the cache's entries keyed by cache key, whether the cache can be reached,
/// the identifier the store gives the next row it inserts, and what a full
/// scan of the store returns.
pub ghost struct World {
    pub rows: Map<Seq<char>, User>,
    pub cache: Map<Seq<char>, Slot>,
    pub cache_up: bool,
    pub fresh_id: String,
    pub scan: Result<Vec<User>, StoreFault>,
}

impl World {
    /// The same state with the store's rows replaced.
    pub open spec fn with_rows(self, rows: Map<Seq<char>, User>) -> World {
        World { rows, cache: self.cache, cache_up: self.cache_up, fresh_id: self.fresh_id, scan: self.scan }
    }

    /// The same state with the cache's entries replaced.
    pub open spec fn with_cache(self, cache: Map<Seq<char>, Slot>) -> World {
        World { rows: self.rows, cache, cache_up: self.cache_up, fresh_id: self.fresh_id, scan: self.scan }
    }

    /// Every row is filed under its own identifier.
    pub open spec fn rows_wf(self) -> bool {
        forall|k: Seq<char>| #[trigger] self.rows.contains_key(k) ==> self.rows[k].id@ == k
    }

    /// Every decodable cache entry shows the current row of its identifier.
    pub open spec fn cache_agrees(self) -> bool {
        forall|id: Seq<char>|
            #[trigger] self.cache.contains_key(cache_key_of(id)) && self.cache[cache_key_of(
                id,
            )] is Holds ==> self.rows.contains_key(id) && self.rows[id]
                == self.cache[cache_key_of(id)]->Holds_0
    }

    /// The state the service keeps: rows filed by identifier and, while the
    /// cache can be reached, a cache that shows no stale record.
    pub open spec fn sound(self) -> bool {
        self.rows_wf() && (self.cache_up ==> self.cache_agrees())
    }
}

/// How the collaborators answer an action and what it does to them. A cache
/// that cannot be reached answers lookups as unavailable and ignores writes.
pub open spec fn answer(w: World, a: Action) -> (World, Event) {
    match a {
        Action::CacheGet { id } => {
            let k = cache_key_of(id@);
            if !w.cache_up {
                (w, Event::Cached(CacheLookup::Unavailable))
            } else if !w.cache.contains_key(k) {
                (w, Event::Cached(CacheLookup::Miss))
            } else {
                match w.cache[k] {
                    Slot::Holds(u) => (w, Event::Cached(CacheLookup::Hit(u))),
                    Slot::Garbled => (w, Event::Cached(CacheLookup::Undecodable)),
                }
            }
        },
        Action::CachePut { id, user, ttl_secs } => {
            if w.cache_up {
                (w.with_cache(w.cache.insert(cache_key_of(id@), Slot::Holds(user))), Event::CacheDone)
            } else {
                (w, Event::CacheDone)
            }
        },
        Action::CacheDelete { id } => {
            if w.cache_up {
                (w.with_cache(w.cache.remove(cache_key_of(id@))), Event::CacheDone)
            } else {
                (w, Event::CacheDone)
            }
        },
        Action::StoreInsert { fields } => {
            let u = User { id: w.fresh_id, name: fields.name, age: fields.age };
            (w.with_rows(w.rows.insert(w.fresh_id@, u)), Event::StoreRow(Ok(u)))
        },
        Action::StoreFind { id } => {
            if w.rows.contains_key(id@) {
                (w, Event::StoreRow(Ok(w.rows[id@])))
            } else {
                (w, Event::StoreRow(Err(StoreFault::NotFound)))
            }
        },
        Action::StoreFindAll => (w, Event::StoreRows(w.scan)),
        Action::StoreUpdate { id, fields } => {
            if w.rows.contains_key(id@) {
                let u = User { id: w.rows[id@].id, name: fields.name, age: fields.age };
                (w.with_rows(w.rows.insert(id@, u)), Event::StoreRow(Ok(u)))
            } else {
                (w, Event::StoreRow(Err(StoreFault::NotFound)))
            }
        },
        Action::StoreDelete { id } => {
            if w.rows.contains_key(id@) {
                (w.with_rows(w.rows.remove(id@)), Event::StoreRemoved(Ok(())))
            } else {
                (w, Event::StoreRemoved(Err(StoreFault::NotFound)))
            }
        },
        _ => (w, Event::CacheDone),
    }
}

/// Runs an operation against the collaborators for at most `fuel` further
/// actions, giving the final state and the last action decided.
pub open spec fn run(w: World, p: Phase, e: Event, fuel: nat) -> (World, Action)
    decreases fuel,
{
    let (np, a) = step_spec(p, e);
    if fuel == 0 || a.is_reply() || a is Stray {
        (w, a)
    } else {
        let (w2, e2) = answer(w, a);
        run(w2, np, e2, (fuel - 1) as nat)
    }
}

/// The state after a whole operation and the reply it gave; no operation
/// takes more than three actions before its reply.
pub open spec fn outcome(w: World, req: Request) -> (World, Action) {
    run(w, Phase::Idle, Event::Start(req), 4)
}

/// Distinct identifiers have distinct cache keys.
pub proof fn lemma_cache_key_injective(a: Seq<char>, b: Seq<char>)
    ensures
        cache_key_of(a) == cache_key_of(b) ==> a == b,
{
    if cache_key_of(a) == cache_key_of(b) {
        assert(cache_key_of(a).subrange(5, cache_key_of(a).len() as int) =~= a);
        assert(cache_key_of(b).subrange(5, cache_key_of(b).len() as int) =~= b);
    }
}

/// A create or update whose name is blank or whose age is out of range is
/// refused with a validation error before any call to the store or the cache.
pub proof fn lemma_invalid_write_touches_nothing(w: World, req: Request)
    requires
        match req {
            Request::Create { name, age } => !valid_input(name@, age),
            Request::Update { id, name, age } => !valid_input(name@, age),
            _ => false,
        },
    ensures
        ({
            let (name, age) = match req {
                Request::Create { name, age } => (name, age),
                Request::Update { id, name, age } => (name, age),
                _ => arbitrary(),
            };
            outcome(w, req) == (w, Action::ReplyUser(
                Err(ServiceError::Validation(invalid_reason(name@, age))),
            ))
        }),
{
    reveal_with_fuel(run, 2);
}

/// A listing answers with exactly what a full scan of the store returns,
/// whatever the cache holds and whether or not it can be reached.
pub proof fn lemma_list_reads_store(w: World)
    ensures
        outcome(w, Request::List) == (w, Action::ReplyUsers(lift(w.scan))),
{
    reveal_with_fuel(run, 3);
}

/// With the cache out of reach a read still answers with the stored row,
/// and changes nothing.
pub proof fn lemma_get_without_cache(w: World, id: String)
    requires
        !w.cache_up,
        w.rows.contains_key(id@),
    ensures
        outcome(w, Request::Get { id }) == (w, Action::ReplyUser(Ok(w.rows[id@]))),
{
    reveal_with_fuel(run, 5);
}

/// An entry that does not decode counts as a miss: a read answers with the
/// stored row and puts that row in the cache in its place.
pub proof fn lemma_get_past_garbled_entry(w: World, id: String)
    requires
        w.cache_up,
        w.cache.contains_key(cache_key_of(id@)),
        w.cache[cache_key_of(id@)] is Garbled,
        w.rows.contains_key(id@),
    ensures
        outcome(w, Request::Get { id }).1 == Action::ReplyUser(Ok(w.rows[id@])),
        outcome(w, Request::Get { id }).0.cache[cache_key_of(id@)] == Slot::Holds(w.rows[id@]),
{
    reveal_with_fuel(run, 5);
}

/// In a sound state a read answers with the stored row of `id`, or with
/// `NotFound` when there is none, and leaves the state sound.
pub proof fn lemma_get_answers_row(w: World, id: String)
    requires
        w.sound(),
    ensures
        outcome(w, Request::Get { id }).1 == Action::ReplyUser(
            if w.rows.contains_key(id@) {
                Ok(w.rows[id@])
            } else {
                Err(ServiceError::NotFound)
            },
        ),
        outcome(w, Request::Get { id }).0.sound(),
        outcome(w, Request::Get { id }).0.rows == w.rows,
{
    reveal_with_fuel(run, 5);
    let k = cache_key_of(id@);
    if w.cache_up && w.cache.contains_key(k) && w.cache[k] is Holds {
        assert(w.cache.contains_key(cache_key_of(id@)));
    } else if w.rows.contains_key(id@) && w.cache_up {
        let w2 = w.with_cache(w.cache.insert(k, Slot::Holds(w.rows[id@])));
        assert(outcome(w, Request::Get { id }).0 == w2);
        assert forall|j: Seq<char>|
            #[trigger] w2.cache.contains_key(cache_key_of(j)) && w2.cache[cache_key_of(j)] is Holds
            implies w2.rows.contains_key(j) && w2.rows[j] == w2.cache[cache_key_of(j)]->Holds_0 by {
            lemma_cache_key_injective(j, id@);
            if j != id@ {
                assert(w.cache.contains_key(cache_key_of(j)));
            }
        }
    }
}

/// A create fills no cache entry, and reading the record right after
/// creating it gives back what the create returned, whatever the cache then holds and whether or not it can be
/// reached, as long as the state is sound.
pub proof fn lemma_get_after_create(w: World, name: String, age: i32, later: World)
    requires
        w.sound(),
        !w.rows.contains_key(w.fresh_id@),
        valid_input(name@, age),
        later.rows == outcome(w, Request::Create { name, age }).0.rows,
        later.sound(),
    ensures
        outcome(w, Request::Create { name, age }).1 == Action::ReplyUser(
            Ok(User { id: w.fresh_id, name, age }),
        ),
        outcome(w, Request::Create { name, age }).0.sound(),
        outcome(w, Request::Create { name, age }).0.cache == w.cache,
        outcome(later, Request::Get { id: w.fresh_id }).1 == Action::ReplyUser(
            Ok(User { id: w.fresh_id, name, age }),
        ),
{
    reveal_with_fuel(run, 3);
    let u = User { id: w.fresh_id, name, age };
    let w1 = w.with_rows(w.rows.insert(w.fresh_id@, u));
    assert(outcome(w, Request::Create { name, age }).0 == w1);
    if w.cache_up {
        assert forall|j: Seq<char>|
            #[trigger] w1.cache.contains_key(cache_key_of(j)) && w1.cache[cache_key_of(j)] is Holds
            implies w1.rows.contains_key(j) && w1.rows[j] == w1.cache[cache_key_of(j)]->Holds_0 by {
            assert(w.cache.contains_key(cache_key_of(j)));
        }
    }
    lemma_get_answers_row(later, w.fresh_id);
}

/// After an update, a read gives the new fields and never the record as it
/// was before, even where the cache held the old record.
pub proof fn lemma_get_after_update(w: World, id: String, name: String, age: i32)
    requires
        w.sound(),
        w.rows.contains_key(id@),
        valid_input(name@, age),
    ensures
        ({
            let (w1, reply) = outcome(w, Request::Update { id, name, age });
            let fresh = User { id: w.rows[id@].id, name, age };
            &&& reply == Action::ReplyUser(Ok(fresh))
            &&& w1.sound()
            &&& outcome(w1, Request::Get { id }).1 == Action::ReplyUser(Ok(fresh))
        }),
{
    reveal_with_fuel(run, 4);
    let fresh = User { id: w.rows[id@].id, name, age };
    let w0 = w.with_rows(w.rows.insert(id@, fresh));
    let w1 = if w.cache_up {
        w0.with_cache(w0.cache.remove(cache_key_of(id@)))
    } else {
        w0
    };
    assert(outcome(w, Request::Update { id, name, age }).0 == w1);
    if w.cache_up {
        assert forall|j: Seq<char>|
            #[trigger] w1.cache.contains_key(cache_key_of(j)) && w1.cache[cache_key_of(j)] is Holds
            implies w1.rows.contains_key(j) && w1.rows[j] == w1.cache[cache_key_of(j)]->Holds_0 by {
            assert(w.cache.contains_key(cache_key_of(j)));
        }
    }
    lemma_get_answers_row(w1, id);
}

/// After a delete, with the cache reachable, the cache holds no entry for
/// the record and a read answers `NotFound`.
pub proof fn lemma_get_after_delete(w: World, id: String)
    requires
        w.cache_up,
    ensures
        ({
            let (w1, reply) = outcome(w, Request::Delete { id });
            &&& reply == Action::ReplyDeleted(
                if w.rows.contains_key(id@) {
                    Ok(())
                } else {
                    Err(ServiceError::NotFound)
                },
            )
            &&& !w1.cache.contains_key(cache_key_of(id@))
            &&& outcome(w1, Request::Get { id }).1 == Action::ReplyUser(Err(ServiceError::NotFound))
            &&& !outcome(w1, Request::Get { id }).0.cache.contains_key(cache_key_of(id@))
        }),
{
    reveal_with_fuel(run, 5);
}

/// Every operation keeps the state sound: while the cache can be reached it
/// never comes to show a record other than the stored one.
pub proof fn lemma_operations_keep_sound(w: World, req: Request)
    requires
        w.sound(),
        !w.rows.contains_key(w.fresh_id@),
    ensures
        outcome(w, req).0.sound(),
{
    reveal_with_fuel(run, 5);
    match req {
        Request::Create { name, age } => {
            if valid_input(name@, age) {
                let w1 = w.with_rows(w.rows.insert(w.fresh_id@, User { id: w.fresh_id, name, age }));
                assert(outcome(w, req).0 == w1);
                if w.cache_up {
                    assert forall|j: Seq<char>|
                        #[trigger] w1.cache.contains_key(cache_key_of(j))
                            && w1.cache[cache_key_of(j)] is Holds implies w1.rows.contains_key(j)
                        && w1.rows[j] == w1.cache[cache_key_of(j)]->Holds_0 by {
                        assert(w.cache.contains_key(cache_key_of(j)));
                    }
                }
            }
        },
        Request::Get { id } => {
            lemma_get_answers_row(w, id);
        },
        Request::List => {},
        Request::Update { id, name, age } => {
            if valid_input(name@, age) && w.rows.contains_key(id@) {
                lemma_get_after_update(w, id, name, age);
            }
        },
        Request::Delete { id } => {
            let w0 = if w.cache_up {
                w.with_cache(w.cache.remove(cache_key_of(id@)))
            } else {
                w
            };
            let w1 = if w.rows.contains_key(id@) {
                w0.with_rows(w0.rows.remove(id@))
            } else {
                w0
            };
            assert(outcome(w, req).0 == w1);
            if w.cache_up {
                assert forall|j: Seq<char>|
                    #[trigger] w1.cache.contains_key(cache_key_of(j))
                        && w1.cache[cache_key_of(j)] is Holds implies w1.rows.contains_key(j)
                    && w1.rows[j] == w1.cache[cache_key_of(j)]->Holds_0 by {
                    assert(w.cache.contains_key(cache_key_of(j)));
                }
            }
        },
    }
}

} // verus!
