//! Handlers, the dispatcher, and the outward-facing service. Each handler
//! is the execution logic of one command variant; the dispatcher routes a
//! command to its handler, or answers an absent or unimplemented payload
//! with an error response; the service owns one backend and hands every
//! command to the dispatcher.

use vstd::prelude::*;

use crate::model::{
    dispatch_model, dispatch_next, hget_model, hgetall_model, hset_model, resp_matches,
    RespModel, StoreModel,
};
use crate::storage::Storage;
use crate::types::{CommandRequest, CommandResponse, Hget, Hgetall, Hset, KvError, RequestData};

verus! {

/// The execution logic of one command variant: a mapping from the variant's
/// payload and a storage backend to one response. `resp_model` names the
/// response owed, `next_model` the store left behind, and `execute` is held
/// to both.
pub trait CommandService: Sized {
    /// The response this payload must produce against store `m`.
    spec fn resp_model(self, m: StoreModel) -> RespModel;

    /// The store this payload leaves behind when executed against `m`.
    spec fn next_model(self, m: StoreModel) -> StoreModel;

    /// Executes the payload against the backend.
    fn execute<S: Storage>(self, store: &mut S) -> (r: CommandResponse)
        requires
            old(store).inv(),
        ensures
            final(store).inv(),
            final(store).contents() == self.next_model(old(store).contents()),
            resp_matches(r, self.resp_model(old(store).contents())),
    ;
}

impl CommandService for Hget {
    open spec fn resp_model(self, m: StoreModel) -> RespModel {
        hget_model(m, self.table@, self.key@)
    }

    open spec fn next_model(self, m: StoreModel) -> StoreModel {
        m
    }

    fn execute<S: Storage>(self, store: &mut S) -> (r: CommandResponse) {
        match store.get(&self.table, &self.key) {
            Some(v) => CommandResponse::Value(v),
            None => CommandResponse::Error(KvError::NotFound(self.table, self.key)),
        }
    }
}

impl CommandService for Hgetall {
    open spec fn resp_model(self, m: StoreModel) -> RespModel {
        hgetall_model(m, self.table@)
    }

    open spec fn next_model(self, m: StoreModel) -> StoreModel {
        m
    }

    fn execute<S: Storage>(self, store: &mut S) -> (r: CommandResponse) {
        CommandResponse::Pairs(store.get_all(&self.table))
    }
}

impl CommandService for Hset {
    open spec fn resp_model(self, m: StoreModel) -> RespModel {
        hset_model(m, self.table@, self.key@)
    }

    open spec fn next_model(self, m: StoreModel) -> StoreModel {
        crate::model::store_set(m, self.table@, self.key@, self.value@)
    }

    fn execute<S: Storage>(self, store: &mut S) -> (r: CommandResponse) {
        match store.set(self.table, self.key, self.value) {
            Some(prev) => CommandResponse::Value(prev),
            None => CommandResponse::Ack,
        }
    }
}

/// Routes a command to the handler of its active variant. A command with no
/// payload is answered with an invalid-command error; a variant with no
/// registered handler with an internal error. Total: every command value
/// yields exactly one response, and the backend stays well-formed.
pub fn dispatch<Store: Storage>(cmd: CommandRequest, store: &mut Store) -> (res: CommandResponse)
    requires
        old(store).inv(),
    ensures
        final(store).inv(),
        final(store).contents() == dispatch_next(cmd, old(store).contents()),
        resp_matches(res, dispatch_model(cmd, old(store).contents())),
{
    match cmd.request_data {
        Some(RequestData::Hget(param)) => param.execute(store),
        Some(RequestData::Hgetall(param)) => param.execute(store),
        Some(RequestData::Hset(param)) => param.execute(store),
        Some(RequestData::Hdel(_)) => CommandResponse::Error(
            KvError::Internal("Not implemented".to_owned()),
        ),
        None => CommandResponse::Error(KvError::InvalidCommand("Request has no data".to_owned())),
    }
}

/// What a service owns: one storage backend.
pub struct ServiceInner<Store> {
    pub store: Store,
}

/// The outward-facing object: accepts commands, delegates each to the
/// dispatcher, and returns its response.
pub struct Service<Store = crate::memory::MemTable> {
    pub inner: ServiceInner<Store>,
}

impl<Store: Storage> Service<Store> {
    /// Well-formedness of the owned backend.
    pub open spec fn inv(&self) -> bool {
        self.inner.store.inv()
    }

    /// The store the owned backend denotes.
    pub open spec fn contents(&self) -> StoreModel {
        self.inner.store.contents()
    }

    /// A service over the given backend.
    pub fn new(store: Store) -> (s: Self)
        requires
            store.inv(),
        ensures
            s.inv(),
            s.contents() == store.contents(),
    {
        Self { inner: ServiceInner { store } }
    }

    /// Executes one command and returns its one response.
    pub fn execute(&mut self, cmd: CommandRequest) -> (res: CommandResponse)
        requires
            old(self).inv(),
        ensures
            final(self).inv(),
            final(self).contents() == dispatch_next(cmd, old(self).contents()),
            resp_matches(res, dispatch_model(cmd, old(self).contents())),
    {
        dispatch(cmd, &mut self.inner.store)
    }
}

} // verus!
