//! Proved statements that relate the operations of the core to one another.
//! Each is stated over the same model that the contracts of `dispatch` and
//! `Service::execute` speak, so it carries over to any backend satisfying
//! the storage contract.

use vstd::prelude::*;

use crate::model::{
    dispatch_model, dispatch_next, hset_model, msg_no_data, store_get, store_set, table_of,
    ErrModel, RespModel, StoreModel,
};
use crate::types::{CommandRequest, Hget, Hgetall, Hset, RequestData};

verus! {

/// Setting a key and then getting it yields exactly the value written,
/// whatever the store held before.
pub proof fn lemma_set_then_get(m: StoreModel, t: Seq<char>, k: Seq<char>, v: Seq<char>)
    ensures
        store_get(store_set(m, t, k, v), t, k) == Some(v),
{
}

/// At the command level: dispatching a set and then a get of the same table
/// and key answers a success carrying the value the set wrote.
pub proof fn lemma_set_then_get_dispatch(m: StoreModel, s: Hset, g: Hget)
    requires
        g.table@ == s.table@,
        g.key@ == s.key@,
    ensures
        ({
            let set_cmd = CommandRequest { request_data: Some(RequestData::Hset(s)) };
            let get_cmd = CommandRequest { request_data: Some(RequestData::Hget(g)) };
            dispatch_model(get_cmd, dispatch_next(set_cmd, m)) == RespModel::Value(s.value@)
        }),
{
}

/// Overwriting a key answers a success carrying the prior value: after a
/// set of `v1`, a second set of the same table and key answers `v1`.
pub proof fn lemma_set_overwrite_returns_prior(m: StoreModel, s1: Hset, s2: Hset)
    requires
        s2.table@ == s1.table@,
        s2.key@ == s1.key@,
    ensures
        ({
            let first = CommandRequest { request_data: Some(RequestData::Hset(s1)) };
            let second = CommandRequest { request_data: Some(RequestData::Hset(s2)) };
            dispatch_model(second, dispatch_next(first, m)) == RespModel::Value(s1.value@)
        }),
        hset_model(store_set(m, s1.table@, s1.key@, s1.value@), s2.table@, s2.key@)
            == RespModel::Value(s1.value@),
{
}

/// A get of an absent key answers a not-found error naming that table and
/// key — so never an invalid-command and never an internal error.
pub proof fn lemma_get_absent_is_not_found(m: StoreModel, g: Hget)
    requires
        store_get(m, g.table@, g.key@) is None,
    ensures
        ({
            let cmd = CommandRequest { request_data: Some(RequestData::Hget(g)) };
            dispatch_model(cmd, m) == RespModel::Error(ErrModel::NotFound(g.table@, g.key@))
        }),
{
}

/// A get-all of an empty or absent table answers a success carrying an
/// empty listing, not an error.
pub proof fn lemma_get_all_empty_is_empty_success(m: StoreModel, g: Hgetall)
    requires
        table_of(m, g.table@) == Map::<Seq<char>, Seq<char>>::empty(),
    ensures
        ({
            let cmd = CommandRequest { request_data: Some(RequestData::Hgetall(g)) };
            dispatch_model(cmd, m) == RespModel::Pairs(Map::<Seq<char>, Seq<char>>::empty())
        }),
{
}

/// A command with no active variant is answered with an invalid-command
/// error carrying the message that says so, and leaves the store untouched.
pub proof fn lemma_no_variant_is_invalid_command(m: StoreModel, cmd: CommandRequest)
    requires
        cmd.request_data is None,
    ensures
        dispatch_model(cmd, m) == RespModel::Error(ErrModel::InvalidCommand(msg_no_data())),
        dispatch_next(cmd, m) == m,
{
}

/// Two sets of distinct keys of one table do not lose one another: after
/// both, each key holds the value its own set wrote, in whichever order the
/// backend serialized them.
pub proof fn lemma_distinct_keys_keep_both(
    m: StoreModel,
    t: Seq<char>,
    k1: Seq<char>,
    v1: Seq<char>,
    k2: Seq<char>,
    v2: Seq<char>,
)
    requires
        k1 != k2,
    ensures
        ({
            let m2 = store_set(store_set(m, t, k1, v1), t, k2, v2);
            store_get(m2, t, k1) == Some(v1) && store_get(m2, t, k2) == Some(v2)
        }),
{
}

} // verus!
