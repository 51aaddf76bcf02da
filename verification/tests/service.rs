//! End-to-end tests of the service: commands in, responses out.

use kv_server::memory::MemTable;
use kv_server::service::Service;
use kv_server::types::{
    CommandRequest, CommandResponse, Hdel, Hget, Hgetall, Hset, KvError, Kvpair, RequestData,
};

fn set_cmd(table: &str, key: &str, value: &str) -> CommandRequest {
    CommandRequest {
        request_data: Some(RequestData::Hset(Hset {
            table: table.to_string(),
            key: key.to_string(),
            value: value.to_string(),
        })),
    }
}

fn get_cmd(table: &str, key: &str) -> CommandRequest {
    CommandRequest {
        request_data: Some(RequestData::Hget(Hget {
            table: table.to_string(),
            key: key.to_string(),
        })),
    }
}

fn get_all_cmd(table: &str) -> CommandRequest {
    CommandRequest {
        request_data: Some(RequestData::Hgetall(Hgetall { table: table.to_string() })),
    }
}

fn new_service() -> Service<MemTable> {
    Service::new(MemTable::new())
}

#[test]
fn scenario_set_get_absent() {
    let mut svc = new_service();
    assert_eq!(svc.execute(set_cmd("t", "a", "1")), CommandResponse::Ack);
    assert_eq!(
        svc.execute(get_cmd("t", "a")),
        CommandResponse::Value("1".to_string())
    );
    assert_eq!(
        svc.execute(get_cmd("t", "b")),
        CommandResponse::Error(KvError::NotFound("t".to_string(), "b".to_string()))
    );
}

#[test]
fn set_then_get_returns_value() {
    let mut svc = new_service();
    svc.execute(set_cmd("scores", "alice", "40"));
    assert_eq!(
        svc.execute(get_cmd("scores", "alice")),
        CommandResponse::Value("40".to_string())
    );
}

#[test]
fn set_overwrite_returns_prior_value() {
    let mut svc = new_service();
    assert_eq!(svc.execute(set_cmd("t", "k", "v1")), CommandResponse::Ack);
    assert_eq!(
        svc.execute(set_cmd("t", "k", "v2")),
        CommandResponse::Value("v1".to_string())
    );
    assert_eq!(
        svc.execute(get_cmd("t", "k")),
        CommandResponse::Value("v2".to_string())
    );
}

#[test]
fn get_absent_is_not_found_only() {
    let mut svc = new_service();
    svc.execute(set_cmd("t", "present", "1"));
    let resp = svc.execute(get_cmd("t", "absent"));
    assert!(matches!(
        resp,
        CommandResponse::Error(KvError::NotFound(_, _))
    ));
    let resp2 = svc.execute(get_cmd("other_table", "absent"));
    assert!(matches!(
        resp2,
        CommandResponse::Error(KvError::NotFound(_, _))
    ));
}

#[test]
fn get_all_of_empty_table_is_empty_success() {
    let mut svc = new_service();
    assert_eq!(
        svc.execute(get_all_cmd("nothing_here")),
        CommandResponse::Pairs(vec![])
    );
}

#[test]
fn get_all_lists_every_pair() {
    let mut svc = new_service();
    svc.execute(set_cmd("t", "b", "2"));
    svc.execute(set_cmd("t", "a", "1"));
    let resp = svc.execute(get_all_cmd("t"));
    match resp {
        CommandResponse::Pairs(mut pairs) => {
            pairs.sort_by(|x, y| x.key.cmp(&y.key));
            assert_eq!(
                pairs,
                vec![
                    Kvpair { key: "a".to_string(), value: "1".to_string() },
                    Kvpair { key: "b".to_string(), value: "2".to_string() },
                ]
            );
        }
        other => panic!("expected a pairs response, got {:?}", other),
    }
}

#[test]
fn get_all_after_overwrite_has_one_pair() {
    let mut svc = new_service();
    svc.execute(set_cmd("t", "k", "old"));
    svc.execute(set_cmd("t", "k", "new"));
    assert_eq!(
        svc.execute(get_all_cmd("t")),
        CommandResponse::Pairs(vec![Kvpair {
            key: "k".to_string(),
            value: "new".to_string()
        }])
    );
}

#[test]
fn no_variant_is_invalid_command() {
    let mut svc = new_service();
    assert_eq!(
        svc.execute(CommandRequest { request_data: None }),
        CommandResponse::Error(KvError::InvalidCommand("Request has no data".to_string()))
    );
    assert_eq!(
        svc.execute(get_cmd("t", "k")),
        CommandResponse::Error(KvError::NotFound("t".to_string(), "k".to_string()))
    );
}

#[test]
fn unimplemented_variant_is_internal_error() {
    let mut svc = new_service();
    svc.execute(set_cmd("t", "k", "v"));
    let del = CommandRequest {
        request_data: Some(RequestData::Hdel(Hdel {
            table: "t".to_string(),
            key: "k".to_string(),
        })),
    };
    assert_eq!(
        svc.execute(del),
        CommandResponse::Error(KvError::Internal("Not implemented".to_string()))
    );
    assert_eq!(
        svc.execute(get_cmd("t", "k")),
        CommandResponse::Value("v".to_string())
    );
}

#[test]
fn sets_of_distinct_keys_are_both_visible() {
    let mut svc = new_service();
    assert_eq!(svc.execute(set_cmd("t", "k1", "v1")), CommandResponse::Ack);
    assert_eq!(svc.execute(set_cmd("t", "k2", "v2")), CommandResponse::Ack);
    assert_eq!(
        svc.execute(get_cmd("t", "k1")),
        CommandResponse::Value("v1".to_string())
    );
    assert_eq!(
        svc.execute(get_cmd("t", "k2")),
        CommandResponse::Value("v2".to_string())
    );
}

#[test]
fn tables_are_independent_keyspaces() {
    let mut svc = new_service();
    svc.execute(set_cmd("t1", "k", "v1"));
    svc.execute(set_cmd("t2", "k", "v2"));
    assert_eq!(
        svc.execute(get_cmd("t1", "k")),
        CommandResponse::Value("v1".to_string())
    );
    assert_eq!(
        svc.execute(get_cmd("t2", "k")),
        CommandResponse::Value("v2".to_string())
    );
}
