use vstd::prelude::*;
use crate::user::{User, CreateUser, valid_input};
use crate::service::{
    ServiceError, StoreFault, CACHE_TTL_SECS, invalid_reason, lift, validate, lift_result,
};

verus! {

/// An operation asked of the service.
#[derive(Debug)]
pub enum Request {
    Create { name: String, age: i32 },
    Get { id: String },
    List,
    Update { id: String, name: String, age: i32 },
    Delete { id: String },
}

/// What a cache lookup gave. Only a decoded value counts as a hit.
#[derive(Debug)]
pub enum CacheLookup {
    Hit(User),
    Miss,
    Undecodable,
    Unavailable,
}

/// What the runner hands back after performing an action.
#[derive(Debug)]
pub enum Event {
    Start(Request),
    Cached(CacheLookup),
    /// A best-effort cache write or removal finished, whether or not it
    /// succeeded: its outcome is never escalated.
    CacheDone,
    StoreRow(Result<User, StoreFault>),
    StoreRows(Result<Vec<User>, StoreFault>),
    StoreRemoved(Result<(), StoreFault>),
}

/// What the runner is to do next.
#[derive(Debug)]
pub enum Action {
    /// Look up the entry of `id`; a failed connection is reported as unavailable.
    CacheGet { id: String },
    /// Store `user` under the key of `id` for `ttl_secs` seconds, best effort.
    CachePut { id: String, user: User, ttl_secs: u64 },
    /// Remove the entry of `id`, best effort.
    CacheDelete { id: String },
    StoreInsert { fields: CreateUser },
    StoreFind { id: String },
    StoreFindAll,
    StoreUpdate { id: String, fields: CreateUser },
    StoreDelete { id: String },
    ReplyUser(Result<User, ServiceError>),
    ReplyUsers(Result<Vec<User>, ServiceError>),
    ReplyDeleted(Result<(), ServiceError>),
    /// The event does not answer the pending action; nothing is to be done.
    Stray,
}

/// Where an operation stands between two actions.
#[derive(Debug)]
pub enum Phase {
    Idle,
    Inserting,
    Looking { id: String },
    Reading { id: String },
    Filling { user: User },
    Listing,
    Updating { id: String },
    Invalidating { user: User },
    Clearing { id: String },
    Removing,
    Finished,
}

impl Action {
    /// Whether this action ends the operation with an answer to the caller.
    pub open spec fn is_reply(self) -> bool {
        self is ReplyUser || self is ReplyUsers || self is ReplyDeleted
    }
}

/// The service's decision: given where an operation stands and what just
/// happened, where it stands next and what is to be done.
pub open spec fn step_spec(p: Phase, e: Event) -> (Phase, Action) {
    match (p, e) {
        (Phase::Idle, Event::Start(Request::Create { name, age })) => {
            if valid_input(name@, age) {
                (Phase::Inserting, Action::StoreInsert { fields: CreateUser { name, age } })
            } else {
                (
                    Phase::Finished,
                    Action::ReplyUser(Err(ServiceError::Validation(invalid_reason(name@, age)))),
                )
            }
        },
        (Phase::Idle, Event::Start(Request::Get { id })) => (
            Phase::Looking { id },
            Action::CacheGet { id },
        ),
        (Phase::Idle, Event::Start(Request::List)) => (Phase::Listing, Action::StoreFindAll),
        (Phase::Idle, Event::Start(Request::Update { id, name, age })) => {
            if valid_input(name@, age) {
                (
                    Phase::Updating { id },
                    Action::StoreUpdate { id, fields: CreateUser { name, age } },
                )
            } else {
                (
                    Phase::Finished,
                    Action::ReplyUser(Err(ServiceError::Validation(invalid_reason(name@, age)))),
                )
            }
        },
        (Phase::Idle, Event::Start(Request::Delete { id })) => (
            Phase::Clearing { id },
            Action::CacheDelete { id },
        ),
        (Phase::Inserting, Event::StoreRow(r)) => (Phase::Finished, Action::ReplyUser(lift(r))),
        (Phase::Looking { id }, Event::Cached(c)) => match c {
            CacheLookup::Hit(u) => (Phase::Finished, Action::ReplyUser(Ok(u))),
            _ => (Phase::Reading { id }, Action::StoreFind { id }),
        },
        (Phase::Reading { id }, Event::StoreRow(r)) => match r {
            Ok(u) => (
                Phase::Filling { user: u },
                Action::CachePut { id, user: u, ttl_secs: CACHE_TTL_SECS },
            ),
            Err(f) => (Phase::Finished, Action::ReplyUser(lift(Err(f)))),
        },
        (Phase::Filling { user }, Event::CacheDone) => (
            Phase::Finished,
            Action::ReplyUser(Ok(user)),
        ),
        (Phase::Listing, Event::StoreRows(r)) => (Phase::Finished, Action::ReplyUsers(lift(r))),
        (Phase::Updating { id }, Event::StoreRow(r)) => match r {
            Ok(u) => (Phase::Invalidating { user: u }, Action::CacheDelete { id }),
            Err(f) => (Phase::Finished, Action::ReplyUser(lift(Err(f)))),
        },
        (Phase::Invalidating { user }, Event::CacheDone) => (
            Phase::Finished,
            Action::ReplyUser(Ok(user)),
        ),
        (Phase::Clearing { id }, Event::CacheDone) => (
            Phase::Removing,
            Action::StoreDelete { id },
        ),
        (Phase::Removing, Event::StoreRemoved(r)) => (
            Phase::Finished,
            Action::ReplyDeleted(lift(r)),
        ),
        (p, _) => (p, Action::Stray),
    }
}

/// Advances an operation by one event.
pub fn step(phase: Phase, event: Event) -> (r: (Phase, Action))
    ensures
        r == step_spec(phase, event),
{
    match (phase, event) {
        (Phase::Idle, Event::Start(Request::Create { name, age })) => {
            match validate(name.as_str(), age) {
                Ok(()) => (Phase::Inserting, Action::StoreInsert { fields: CreateUser { name, age } }),
                Err(why) => (Phase::Finished, Action::ReplyUser(Err(ServiceError::Validation(why)))),
            }
        },
        (Phase::Idle, Event::Start(Request::Get { id })) => {
            let key_id = id.clone();
            (Phase::Looking { id }, Action::CacheGet { id: key_id })
        },
        (Phase::Idle, Event::Start(Request::List)) => (Phase::Listing, Action::StoreFindAll),
        (Phase::Idle, Event::Start(Request::Update { id, name, age })) => {
            match validate(name.as_str(), age) {
                Ok(()) => {
                    let row_id = id.clone();
                    (
                        Phase::Updating { id },
                        Action::StoreUpdate { id: row_id, fields: CreateUser { name, age } },
                    )
                },
                Err(why) => (Phase::Finished, Action::ReplyUser(Err(ServiceError::Validation(why)))),
            }
        },
        (Phase::Idle, Event::Start(Request::Delete { id })) => {
            let key_id = id.clone();
            (Phase::Clearing { id }, Action::CacheDelete { id: key_id })
        },
        (Phase::Inserting, Event::StoreRow(r)) => (
            Phase::Finished,
            Action::ReplyUser(lift_result(r)),
        ),
        (Phase::Looking { id }, Event::Cached(c)) => match c {
            CacheLookup::Hit(u) => (Phase::Finished, Action::ReplyUser(Ok(u))),
            _ => {
                let row_id = id.clone();
                (Phase::Reading { id }, Action::StoreFind { id: row_id })
            },
        },
        (Phase::Reading { id }, Event::StoreRow(r)) => match r {
            Ok(u) => {
                let cached = u.duplicate();
                (
                    Phase::Filling { user: u },
                    Action::CachePut { id, user: cached, ttl_secs: CACHE_TTL_SECS },
                )
            },
            Err(f) => (Phase::Finished, Action::ReplyUser(lift_result(Err(f)))),
        },
        (Phase::Filling { user }, Event::CacheDone) => (
            Phase::Finished,
            Action::ReplyUser(Ok(user)),
        ),
        (Phase::Listing, Event::StoreRows(r)) => (
            Phase::Finished,
            Action::ReplyUsers(lift_result(r)),
        ),
        (Phase::Updating { id }, Event::StoreRow(r)) => match r {
            Ok(u) => (Phase::Invalidating { user: u }, Action::CacheDelete { id }),
            Err(f) => (Phase::Finished, Action::ReplyUser(lift_result(Err(f)))),
        },
        (Phase::Invalidating { user }, Event::CacheDone) => (
            Phase::Finished,
            Action::ReplyUser(Ok(user)),
        ),
        (Phase::Clearing { id }, Event::CacheDone) => (
            Phase::Removing,
            Action::StoreDelete { id },
        ),
        (Phase::Removing, Event::StoreRemoved(r)) => (
            Phase::Finished,
            Action::ReplyDeleted(lift_result(r)),
        ),
        (p, _) => (p, Action::Stray),
    }
}

} // verus!
