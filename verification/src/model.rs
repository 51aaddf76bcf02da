//! The mathematical model of the service: a store is a map from table name
//! to a map from key to value, and every operation of the core is specified
//! as a function over that model.

use vstd::prelude::*;

use crate::types::{CommandRequest, CommandResponse, KvError, Kvpair, RequestData};

verus! {

/// A store: each table name owns an independent keyspace.
pub type StoreModel = Map<Seq<char>, Map<Seq<char>, Seq<char>>>;

/// The keyspace of table `t`: its map if the table exists, empty otherwise.
pub open spec fn table_of(m: StoreModel, t: Seq<char>) -> Map<Seq<char>, Seq<char>> {
    if m.contains_key(t) {
        m[t]
    } else {
        Map::empty()
    }
}

/// What a get returns: the value under `k` in table `t`, if present.
pub open spec fn store_get(m: StoreModel, t: Seq<char>, k: Seq<char>) -> Option<Seq<char>> {
    if table_of(m, t).contains_key(k) {
        Some(table_of(m, t)[k])
    } else {
        None
    }
}

/// Whether table `t` holds key `k`.
pub open spec fn store_contains(m: StoreModel, t: Seq<char>, k: Seq<char>) -> bool {
    table_of(m, t).contains_key(k)
}

/// The store after an unconditional write of `v` under `k` in table `t`;
/// the table is created if absent.
pub open spec fn store_set(m: StoreModel, t: Seq<char>, k: Seq<char>, v: Seq<char>) -> StoreModel {
    m.insert(t, table_of(m, t).insert(k, v))
}

/// The store after removing `k` from table `t`; a store without that table
/// is unchanged.
pub open spec fn store_delete(m: StoreModel, t: Seq<char>, k: Seq<char>) -> StoreModel {
    if m.contains_key(t) {
        m.insert(t, m[t].remove(k))
    } else {
        m
    }
}

/// The map a list of pairs denotes; a later pair wins over an earlier one
/// with the same key.
pub open spec fn pairs_view(s: Seq<Kvpair>) -> Map<Seq<char>, Seq<char>>
    decreases s.len(),
{
    if s.len() == 0 {
        Map::empty()
    } else {
        pairs_view(s.drop_last()).insert(s.last().key@, s.last().value@)
    }
}

/// No two pairs of the list share a key.
pub open spec fn pair_keys_distinct(s: Seq<Kvpair>) -> bool {
    forall|i: int, j: int| 0 <= i < j < s.len() ==> s[i].key@ != s[j].key@
}

/// Some pair of the list carries key `k`.
pub open spec fn has_key(s: Seq<Kvpair>, k: Seq<char>) -> bool {
    exists|i: int| 0 <= i < s.len() && (#[trigger] s[i]).key@ == k
}

/// The message of a response to a command with no active variant.
pub open spec fn msg_no_data() -> Seq<char> {
    "Request has no data"@
}

/// The message of a response to a variant with no registered handler.
pub open spec fn msg_not_implemented() -> Seq<char> {
    "Not implemented"@
}

/// The error a response can carry, at the level of the model.
pub ghost enum ErrModel {
    InvalidCommand(Seq<char>),
    NotFound(Seq<char>, Seq<char>),
    Internal(Seq<char>),
}

/// The response a command must produce, at the level of the model. A list
/// of pairs is modelled as the map it denotes, since its order is not
/// specified.
pub ghost enum RespModel {
    Value(Seq<char>),
    Pairs(Map<Seq<char>, Seq<char>>),
    Ack,
    Error(ErrModel),
}

/// Whether error `e` is the one the model `em` calls for.
pub open spec fn err_matches(e: KvError, em: ErrModel) -> bool {
    match em {
        ErrModel::InvalidCommand(msg) => match e {
            KvError::InvalidCommand(s) => s@ == msg,
            _ => false,
        },
        ErrModel::NotFound(t, k) => match e {
            KvError::NotFound(rt, rk) => rt@ == t && rk@ == k,
            _ => false,
        },
        ErrModel::Internal(msg) => match e {
            KvError::Internal(s) => s@ == msg,
            _ => false,
        },
    }
}

/// Whether response `r` is the one the model `rm` calls for. For a list of
/// pairs, the list must denote exactly the modelled map, each key once; its
/// order is free.
pub open spec fn resp_matches(r: CommandResponse, rm: RespModel) -> bool {
    match rm {
        RespModel::Value(v) => match r {
            CommandResponse::Value(s) => s@ == v,
            _ => false,
        },
        RespModel::Pairs(tm) => match r {
            CommandResponse::Pairs(ps) => pair_keys_distinct(ps@) && pairs_view(ps@) == tm,
            _ => false,
        },
        RespModel::Ack => r is Ack,
        RespModel::Error(em) => match r {
            CommandResponse::Error(e) => err_matches(e, em),
            _ => false,
        },
    }
}

/// What a get-one must answer: the value if present, else a not-found error
/// naming the table and the key.
pub open spec fn hget_model(m: StoreModel, t: Seq<char>, k: Seq<char>) -> RespModel {
    match store_get(m, t, k) {
        Some(v) => RespModel::Value(v),
        None => RespModel::Error(ErrModel::NotFound(t, k)),
    }
}

/// What a get-all must answer: every pair of the table, an empty table
/// giving an empty success.
pub open spec fn hgetall_model(m: StoreModel, t: Seq<char>) -> RespModel {
    RespModel::Pairs(table_of(m, t))
}

/// What a set-one must answer: the prior value if the key existed, else a
/// plain acknowledgement.
pub open spec fn hset_model(m: StoreModel, t: Seq<char>, k: Seq<char>) -> RespModel {
    match store_get(m, t, k) {
        Some(prev) => RespModel::Value(prev),
        None => RespModel::Ack,
    }
}

/// The response dispatch owes for any command: one per active variant, an
/// invalid-command error for an absent payload, and an internal error for a
/// variant with no handler. Total over all command values.
pub open spec fn dispatch_model(cmd: CommandRequest, m: StoreModel) -> RespModel {
    match cmd.request_data {
        Some(RequestData::Hget(p)) => hget_model(m, p.table@, p.key@),
        Some(RequestData::Hgetall(p)) => hgetall_model(m, p.table@),
        Some(RequestData::Hset(p)) => hset_model(m, p.table@, p.key@),
        Some(RequestData::Hdel(_)) => RespModel::Error(ErrModel::Internal(msg_not_implemented())),
        None => RespModel::Error(ErrModel::InvalidCommand(msg_no_data())),
    }
}

/// The store dispatch leaves behind: only a set changes it.
pub open spec fn dispatch_next(cmd: CommandRequest, m: StoreModel) -> StoreModel {
    match cmd.request_data {
        Some(RequestData::Hset(p)) => store_set(m, p.table@, p.key@, p.value@),
        _ => m,
    }
}

} // verus!
