//! The values the core exchanges with its transport: decoded commands in,
//! structured responses out.

use vstd::prelude::*;

verus! {

/// One key/value pair of a table, as stored and as listed by a get-all.
#[derive(Debug, PartialEq, Eq)]
pub struct Kvpair {
    pub key: String,
    pub value: String,
}

impl Clone for Kvpair {
    fn clone(&self) -> (r: Self)
        ensures
            r == *self,
    {
        Kvpair { key: self.key.clone(), value: self.value.clone() }
    }
}

/// Payload of a get-one command: one key of one table.
#[derive(Debug, PartialEq, Eq)]
pub struct Hget {
    pub table: String,
    pub key: String,
}

/// Payload of a get-all command: every pair of one table.
#[derive(Debug, PartialEq, Eq)]
pub struct Hgetall {
    pub table: String,
}

/// Payload of a set-one command: write one value under one key of one table.
#[derive(Debug, PartialEq, Eq)]
pub struct Hset {
    pub table: String,
    pub key: String,
    pub value: String,
}

/// Payload of a delete command: a variant the type system knows but for which
/// no handler is registered yet.
#[derive(Debug, PartialEq, Eq)]
pub struct Hdel {
    pub table: String,
    pub key: String,
}

/// The operation a command asks for. Exactly one variant is active.
#[derive(Debug, PartialEq, Eq)]
pub enum RequestData {
    Hget(Hget),
    Hgetall(Hgetall),
    Hset(Hset),
    Hdel(Hdel),
}

/// A decoded command. A malformed or empty message decodes to `None`.
#[derive(Debug, PartialEq, Eq)]
pub struct CommandRequest {
    pub request_data: Option<RequestData>,
}

/// The error kinds a response can carry. Errors are values inside a
/// response, never process-level failures.
#[derive(Debug, PartialEq, Eq)]
pub enum KvError {
    /// The command carried no recognized payload; the message says why.
    InvalidCommand(String),
    /// A read addressed a key that is not present: the table and the key.
    NotFound(String, String),
    /// A recognized variant has no handler yet; the message says so.
    Internal(String),
}

/// The single result produced for a command: a success payload or an error.
#[derive(Debug, PartialEq, Eq)]
pub enum CommandResponse {
    /// Success carrying one value.
    Value(String),
    /// Success carrying every pair of a table.
    Pairs(Vec<Kvpair>),
    /// Success with nothing to return: a set that created a fresh key.
    Ack,
    /// A structured error.
    Error(KvError),
}

} // verus!
