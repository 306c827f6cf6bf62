use std::collections::HashMap;

use user_cache::machine::{step, Action, CacheLookup, Event, Phase, Request};
use user_cache::service::{
    cache_key, from_store_fault, validate, InvalidInput, ServiceError, StoreFault, CACHE_TTL_SECS,
};
use user_cache::user::{age_in_range, is_blank, CreateUserRequest, ErrorResponse, User};

enum Entry {
    Record(User),
    Garbage,
}

/// An in-memory store and cache that answer the machine's actions.
struct Sim {
    rows: Vec<User>,
    cache: HashMap<String, Entry>,
    cache_up: bool,
    next_id: u32,
    store_calls: usize,
    cache_calls: usize,
    last_ttl: Option<u64>,
}

impl Sim {
    fn new() -> Sim {
        Sim {
            rows: Vec::new(),
            cache: HashMap::new(),
            cache_up: true,
            next_id: 1,
            store_calls: 0,
            cache_calls: 0,
            last_ttl: None,
        }
    }

    fn find(&self, id: &str) -> Option<usize> {
        self.rows.iter().position(|u| u.id == id)
    }

    fn perform(&mut self, a: Action) -> Event {
        match a {
            Action::CacheGet { id } => {
                self.cache_calls += 1;
                if !self.cache_up {
                    return Event::Cached(CacheLookup::Unavailable);
                }
                match self.cache.get(&cache_key(&id)) {
                    None => Event::Cached(CacheLookup::Miss),
                    Some(Entry::Garbage) => Event::Cached(CacheLookup::Undecodable),
                    Some(Entry::Record(u)) => Event::Cached(CacheLookup::Hit(u.clone())),
                }
            }
            Action::CachePut { id, user, ttl_secs } => {
                self.cache_calls += 1;
                if self.cache_up {
                    self.last_ttl = Some(ttl_secs);
                    self.cache.insert(cache_key(&id), Entry::Record(user));
                }
                Event::CacheDone
            }
            Action::CacheDelete { id } => {
                self.cache_calls += 1;
                if self.cache_up {
                    self.cache.remove(&cache_key(&id));
                }
                Event::CacheDone
            }
            Action::StoreInsert { fields } => {
                self.store_calls += 1;
                let id = format!("id-{}", self.next_id);
                self.next_id += 1;
                let u = User { id, name: fields.name, age: fields.age };
                self.rows.push(u.clone());
                Event::StoreRow(Ok(u))
            }
            Action::StoreFind { id } => {
                self.store_calls += 1;
                match self.find(&id) {
                    Some(i) => Event::StoreRow(Ok(self.rows[i].clone())),
                    None => Event::StoreRow(Err(StoreFault::NotFound)),
                }
            }
            Action::StoreFindAll => {
                self.store_calls += 1;
                Event::StoreRows(Ok(self.rows.clone()))
            }
            Action::StoreUpdate { id, fields } => {
                self.store_calls += 1;
                match self.find(&id) {
                    Some(i) => {
                        self.rows[i].name = fields.name;
                        self.rows[i].age = fields.age;
                        Event::StoreRow(Ok(self.rows[i].clone()))
                    }
                    None => Event::StoreRow(Err(StoreFault::NotFound)),
                }
            }
            Action::StoreDelete { id } => {
                self.store_calls += 1;
                match self.find(&id) {
                    Some(i) => {
                        self.rows.remove(i);
                        Event::StoreRemoved(Ok(()))
                    }
                    None => Event::StoreRemoved(Err(StoreFault::NotFound)),
                }
            }
            other => panic!("not an action for the collaborators: {:?}", other),
        }
    }

    fn run(&mut self, req: Request) -> Action {
        let mut phase = Phase::Idle;
        let mut event = Event::Start(req);
        loop {
            let (next, action) = step(phase, event);
            match action {
                Action::ReplyUser(_) | Action::ReplyUsers(_) | Action::ReplyDeleted(_) | Action::Stray => {
                    return action
                }
                other => {
                    event = self.perform(other);
                    phase = next;
                }
            }
        }
    }

    fn create(&mut self, name: &str, age: i32) -> Result<User, ServiceError> {
        match self.run(Request::Create { name: name.to_string(), age }) {
            Action::ReplyUser(r) => r,
            other => panic!("unexpected {:?}", other),
        }
    }

    fn get(&mut self, id: &str) -> Result<User, ServiceError> {
        match self.run(Request::Get { id: id.to_string() }) {
            Action::ReplyUser(r) => r,
            other => panic!("unexpected {:?}", other),
        }
    }

    fn update(&mut self, id: &str, name: &str, age: i32) -> Result<User, ServiceError> {
        match self.run(Request::Update { id: id.to_string(), name: name.to_string(), age }) {
            Action::ReplyUser(r) => r,
            other => panic!("unexpected {:?}", other),
        }
    }

    fn delete(&mut self, id: &str) -> Result<(), ServiceError> {
        match self.run(Request::Delete { id: id.to_string() }) {
            Action::ReplyDeleted(r) => r,
            other => panic!("unexpected {:?}", other),
        }
    }

    fn list(&mut self) -> Result<Vec<User>, ServiceError> {
        match self.run(Request::List) {
            Action::ReplyUsers(r) => r,
            other => panic!("unexpected {:?}", other),
        }
    }
}

fn same(a: &User, b: &User) -> bool {
    a.id == b.id && a.name == b.name && a.age == b.age
}

fn is_validation(r: &Result<User, ServiceError>, why: InvalidInput) -> bool {
    matches!(r, Err(ServiceError::Validation(w)) if *w == why)
}

#[test]
fn cache_key_has_user_prefix() {
    assert_eq!(cache_key("abc-123"), "user:abc-123");
    assert_eq!(cache_key(""), "user:");
}

#[test]
fn blank_names_are_white_space_only() {
    assert!(is_blank(""));
    assert!(is_blank("   \t\n"));
    assert!(is_blank("\u{3000}\u{00a0}"));
    assert!(!is_blank(" Ana "));
    assert!(!is_blank("x"));
}

#[test]
fn age_bounds_are_exclusive() {
    assert!(!age_in_range(0));
    assert!(age_in_range(1));
    assert!(age_in_range(149));
    assert!(!age_in_range(150));
    assert!(!age_in_range(-5));
    assert!(!age_in_range(i32::MAX));
}

#[test]
fn validate_checks_name_before_age() {
    assert!(validate("Ana", 30).is_ok());
    assert_eq!(validate("  ", 30), Err(InvalidInput::BlankName));
    assert_eq!(validate("  ", 200), Err(InvalidInput::BlankName));
    assert_eq!(validate("Ana", 150), Err(InvalidInput::AgeOutOfRange));
    assert_eq!(validate("Ana", 0), Err(InvalidInput::AgeOutOfRange));
}

#[test]
fn invalid_create_touches_nothing() {
    let mut sim = Sim::new();
    let r = sim.create("   ", 30);
    assert!(is_validation(&r, InvalidInput::BlankName));
    let r = sim.create("Ana", 0);
    assert!(is_validation(&r, InvalidInput::AgeOutOfRange));
    let r = sim.create("Ana", 150);
    assert!(is_validation(&r, InvalidInput::AgeOutOfRange));
    assert_eq!(sim.store_calls, 0);
    assert_eq!(sim.cache_calls, 0);
    assert!(sim.rows.is_empty());
}

#[test]
fn invalid_update_touches_nothing() {
    let mut sim = Sim::new();
    let u = sim.create("Ana", 30).unwrap();
    let (s0, c0) = (sim.store_calls, sim.cache_calls);
    let r = sim.update(&u.id, "", 31);
    assert!(is_validation(&r, InvalidInput::BlankName));
    let r = sim.update(&u.id, "Ana", 200);
    assert!(is_validation(&r, InvalidInput::AgeOutOfRange));
    assert_eq!((sim.store_calls, sim.cache_calls), (s0, c0));
    assert_eq!(sim.rows[0].age, 30);
}

#[test]
fn create_does_not_touch_cache() {
    let mut sim = Sim::new();
    let u = sim.create("Ana", 30).unwrap();
    assert_eq!(u.name, "Ana");
    assert_eq!(u.age, 30);
    assert_eq!(sim.cache_calls, 0);
    assert!(sim.cache.is_empty());
}

#[test]
fn get_after_create_round_trips() {
    let mut sim = Sim::new();
    let u = sim.create("Ana", 30).unwrap();
    let cold = sim.get(&u.id).unwrap();
    assert!(same(&cold, &u));
    assert!(matches!(sim.cache.get(&cache_key(&u.id)), Some(Entry::Record(c)) if same(c, &u)));
    assert_eq!(sim.last_ttl, Some(86400));
    let store_before = sim.store_calls;
    let warm = sim.get(&u.id).unwrap();
    assert!(same(&warm, &u));
    assert_eq!(sim.store_calls, store_before);
}

#[test]
fn update_invalidates_cached_value() {
    let mut sim = Sim::new();
    let u = sim.create("Ana", 30).unwrap();
    sim.get(&u.id).unwrap();
    assert!(sim.cache.contains_key(&cache_key(&u.id)));
    let updated = sim.update(&u.id, "Ana", 31).unwrap();
    assert_eq!(updated.age, 31);
    assert_eq!(updated.id, u.id);
    assert!(!sim.cache.contains_key(&cache_key(&u.id)));
    let after = sim.get(&u.id).unwrap();
    assert_eq!(after.age, 31);
    assert_eq!(after.name, "Ana");
}

#[test]
fn update_of_missing_row_is_not_found() {
    let mut sim = Sim::new();
    let cache_before = sim.cache_calls;
    let r = sim.update("nope", "Ana", 31);
    assert!(matches!(r, Err(ServiceError::NotFound)));
    assert_eq!(sim.cache_calls, cache_before);
}

#[test]
fn delete_clears_cache_and_row() {
    let mut sim = Sim::new();
    let u = sim.create("Ana", 30).unwrap();
    sim.get(&u.id).unwrap();
    assert!(sim.delete(&u.id).is_ok());
    assert!(!sim.cache.contains_key(&cache_key(&u.id)));
    assert!(matches!(sim.get(&u.id), Err(ServiceError::NotFound)));
    assert!(!sim.cache.contains_key(&cache_key(&u.id)));
    assert!(matches!(sim.delete(&u.id), Err(ServiceError::NotFound)));
}

#[test]
fn get_without_cache_falls_back_to_store() {
    let mut sim = Sim::new();
    let u = sim.create("Bo", 44).unwrap();
    sim.cache_up = false;
    let r = sim.get(&u.id).unwrap();
    assert!(same(&r, &u));
    assert!(sim.cache.is_empty());
    assert!(matches!(sim.get("missing"), Err(ServiceError::NotFound)));
}

#[test]
fn undecodable_entry_is_a_miss() {
    let mut sim = Sim::new();
    let u = sim.create("Cy", 12).unwrap();
    sim.cache.insert(cache_key(&u.id), Entry::Garbage);
    let r = sim.get(&u.id).unwrap();
    assert!(same(&r, &u));
    assert!(matches!(sim.cache.get(&cache_key(&u.id)), Some(Entry::Record(c)) if same(c, &u)));
}

#[test]
fn list_ignores_cache() {
    let mut sim = Sim::new();
    let a = sim.create("Ana", 30).unwrap();
    let b = sim.create("Bo", 44).unwrap();
    sim.get(&a.id).unwrap();
    sim.cache.insert(cache_key(&b.id), Entry::Record(User { id: b.id.clone(), name: "Stale".to_string(), age: 1 }));
    let cache_before = sim.cache_calls;
    let all = sim.list().unwrap();
    assert_eq!(all.len(), 2);
    assert!(same(&all[0], &a));
    assert!(same(&all[1], &b));
    assert_eq!(sim.cache_calls, cache_before);
}

#[test]
fn store_failure_propagates() {
    let (_, a) = step(Phase::Reading { id: "x".to_string() }, Event::StoreRow(Err(StoreFault::Failed("down".to_string()))));
    assert!(matches!(a, Action::ReplyUser(Err(ServiceError::Store(ref m))) if m == "down"));
    let (_, a) = step(Phase::Listing, Event::StoreRows(Err(StoreFault::Failed("timeout".to_string()))));
    assert!(matches!(a, Action::ReplyUsers(Err(ServiceError::Store(ref m))) if m == "timeout"));
    let (_, a) = step(Phase::Removing, Event::StoreRemoved(Err(StoreFault::NotFound)));
    assert!(matches!(a, Action::ReplyDeleted(Err(ServiceError::NotFound))));
}

#[test]
fn cache_fill_uses_fixed_ttl() {
    let u = User { id: "7".to_string(), name: "Di".to_string(), age: 70 };
    let (p, a) = step(Phase::Reading { id: "7".to_string() }, Event::StoreRow(Ok(u)));
    assert!(matches!(p, Phase::Filling { .. }));
    match a {
        Action::CachePut { id, user, ttl_secs } => {
            assert_eq!(id, "7");
            assert_eq!(user.name, "Di");
            assert_eq!(ttl_secs, CACHE_TTL_SECS);
            assert_eq!(ttl_secs, 86400);
        }
        other => panic!("unexpected {:?}", other),
    }
}

#[test]
fn stray_event_changes_nothing() {
    let (p, a) = step(Phase::Idle, Event::CacheDone);
    assert!(matches!(p, Phase::Idle));
    assert!(matches!(a, Action::Stray));
    let (p, a) = step(Phase::Listing, Event::Cached(CacheLookup::Miss));
    assert!(matches!(p, Phase::Listing));
    assert!(matches!(a, Action::Stray));
}

#[test]
fn errors_map_to_status_and_text() {
    assert_eq!(ServiceError::Validation(InvalidInput::BlankName).status_code(), 400);
    assert_eq!(ServiceError::NotFound.status_code(), 404);
    assert_eq!(ServiceError::Store("x".to_string()).status_code(), 500);
    assert_eq!(ServiceError::NotFound.message(), "User not found");
    assert_eq!(ServiceError::Validation(InvalidInput::BlankName).message(), "name must not be blank");
    assert_eq!(ServiceError::Validation(InvalidInput::AgeOutOfRange).message(), "age must be between 1 and 149");
    let e: ErrorResponse = ServiceError::Store("db gone".to_string()).to_response();
    assert_eq!(e.error, "db gone");
    assert!(matches!(from_store_fault(StoreFault::NotFound), ServiceError::NotFound));
}

#[test]
fn request_and_response_bodies_carry_fields() {
    let req = CreateUserRequest { name: "Ed".to_string(), age: 9 };
    let f = req.into_fields();
    assert_eq!(f.name, "Ed");
    assert_eq!(f.age, 9);
    let u = User { id: "1".to_string(), name: "Ed".to_string(), age: 9 };
    let d = u.duplicate();
    assert!(same(&d, &u));
    let r = u.to_response();
    assert_eq!((r.id.as_str(), r.name.as_str(), r.age), ("1", "Ed", 9));
}
