use hrana_client::proto::{BatchResult, Col, StmtResult, Value};
use libsql_client::http::{Action, Client, Ending, HttpRequest, InnerClient, ServerMsg, StreamResult};
use libsql_client::{Error, ErrorKind, Statement};

const ENDPOINT: &str = "http://localhost:8080/v2/pipeline";

fn client() -> Client {
    Client::new(InnerClient::Reqwest, "http://localhost:8080/", "secret")
}

fn rows(affected: u64) -> StmtResult {
    StmtResult { cols: Vec::new(), rows: Vec::new(), affected_row_count: affected, last_insert_rowid: None }
}

fn reply(baton: Option<&str>, base_url: Option<&str>, results: Vec<StreamResult>) -> Result<ServerMsg, Error> {
    Ok(ServerMsg {
        baton: baton.map(|b| b.to_string()),
        base_url: base_url.map(|u| u.to_string()),
        results,
    })
}

fn executed(baton: Option<&str>, affected: u64) -> Result<ServerMsg, Error> {
    reply(baton, None, vec![StreamResult::Execute(rows(affected))])
}

fn execute_body(baton: &str, sql: &str) -> String {
    format!(
        "{{\"baton\":{},\"requests\":[{{\"type\":\"execute\",\"stmt\":{{\"sql\":\"{}\",\"args\":[],\"named_args\":[],\"want_rows\":true}}}}]}}",
        baton, sql
    )
}

fn close_body(baton: &str) -> String {
    format!("{{\"baton\":{},\"requests\":[{{\"type\":\"close\"}}]}}", baton)
}

fn sent(action: Action) -> HttpRequest {
    match action {
        Action::Send(request) => request,
        Action::Return(outcome) => panic!("returned {:?}", outcome),
    }
}

fn returned(action: Action) -> Result<(), Error> {
    match action {
        Action::Return(outcome) => outcome,
        Action::Send(request) => panic!("sent {:?}", request),
    }
}

#[test]
fn commit_is_sent_with_the_latest_token() {
    let mut c = client();
    let insert = c.execute_in_transaction(7, Statement::new("INSERT")).unwrap();
    assert_eq!(insert.body, execute_body("null", "INSERT"));
    assert_eq!(c.finish_execute(7, executed(Some("A"), 1)).unwrap().rows_affected, 1);
    let update = c.execute_in_transaction(7, Statement::new("UPDATE")).unwrap();
    assert_eq!(update.body, execute_body("\"A\"", "UPDATE"));
    assert_eq!(c.finish_execute(7, executed(Some("B"), 2)).unwrap().rows_affected, 2);
    let (ending, action) = c.commit_transaction(7);
    assert!(matches!(ending, Ending::Control { tx_id: 7 }));
    let commit = sent(action);
    assert_eq!(commit.body, execute_body("\"B\"", "COMMIT"));
    assert_eq!(commit.url, ENDPOINT);
    assert_eq!(commit.auth, "Bearer secret");
}

#[test]
fn commit_closes_with_the_token_of_its_reply_and_forgets() {
    let mut c = client();
    c.finish_execute(7, executed(Some("A"), 1)).unwrap();
    let (ending, action) = c.commit_transaction(7);
    assert_eq!(sent(action).body, execute_body("\"A\"", "COMMIT"));
    let (ending, action) = c.resume(ending, executed(Some("C"), 0));
    assert!(matches!(ending, Ending::Closing { tx_id: 7, outcome: Ok(()) }));
    assert_eq!(sent(action).body, close_body("\"C\""));
    assert!(c.has_session(7));
    let (ending, action) = c.resume(ending, reply(None, None, vec![StreamResult::Close]));
    assert!(matches!(ending, Ending::Done));
    assert!(returned(action).is_ok());
    assert!(!c.has_session(7));
}

#[test]
fn batch_goes_out_in_one_request_and_comes_back_in_order() {
    let c = client();
    let request = c
        .raw_batch(vec![
            Statement::new("CREATE TABLE t(x)"),
            Statement::new("INSERT INTO t VALUES (1)"),
        ])
        .unwrap();
    assert_eq!(
        request.body,
        "{\"baton\":null,\"requests\":[{\"type\":\"batch\",\"batch\":{\"steps\":[{\"condition\":null,\"stmt\":{\"sql\":\"CREATE TABLE t(x)\",\"args\":[],\"named_args\":[],\"want_rows\":true}},{\"condition\":null,\"stmt\":{\"sql\":\"INSERT INTO t VALUES (1)\",\"args\":[],\"named_args\":[],\"want_rows\":true}}]}},{\"type\":\"close\"}]}"
    );
    assert_eq!(request.url, ENDPOINT);
    let outcomes = BatchResult {
        step_results: vec![Some(rows(0)), Some(rows(1))],
        step_errors: vec![None, None],
    };
    let result = Client::finish_batch(reply(
        None,
        None,
        vec![StreamResult::Batch(outcomes), StreamResult::Close],
    ))
    .unwrap();
    assert_eq!(result.step_results.len(), 2);
    assert_eq!(result.step_results[0].as_ref().unwrap().affected_row_count, 0);
    assert_eq!(result.step_results[1].as_ref().unwrap().affected_row_count, 1);
    assert!(result.step_errors.iter().all(|e| e.is_none()));
}

#[test]
fn rollback_of_an_unused_transaction_does_nothing() {
    let mut c = client();
    c.finish_execute(1, executed(Some("A"), 1)).unwrap();
    let (ending, action) = c.rollback_transaction(42);
    assert!(matches!(ending, Ending::Done));
    assert!(returned(action).is_ok());
    assert!(!c.has_session(42));
    assert!(c.has_session(1));
    assert_eq!(c.cookie_for(1).baton.as_deref(), Some("A"));
}

#[test]
fn rollback_without_transaction_id_does_nothing() {
    let mut c = client();
    let (ending, action) = c.rollback_transaction(0);
    assert!(matches!(ending, Ending::Done));
    assert!(returned(action).is_ok());
}

#[test]
fn rollback_of_an_open_transaction_goes_through() {
    let mut c = client();
    c.finish_execute(5, executed(Some("A"), 1)).unwrap();
    let (ending, action) = c.rollback_transaction(5);
    assert_eq!(sent(action).body, execute_body("\"A\"", "ROLLBACK"));
    let (ending, action) = c.resume(ending, executed(Some("B"), 0));
    assert_eq!(sent(action).body, close_body("\"B\""));
    let (_, action) = c.resume(ending, Err(Error::connection_failed("timeout")));
    assert!(returned(action).is_ok());
    assert!(!c.has_session(5));
}

#[test]
fn commit_of_an_unused_transaction_is_sent() {
    let mut c = client();
    let (ending, action) = c.commit_transaction(9);
    assert!(matches!(ending, Ending::Control { tx_id: 9 }));
    assert_eq!(sent(action).body, execute_body("null", "COMMIT"));
    let (ending, action) = c.resume(ending, executed(Some("Z"), 0));
    assert_eq!(sent(action).body, close_body("\"Z\""));
    let (_, action) = c.resume(ending, reply(None, None, vec![StreamResult::Close]));
    assert!(returned(action).is_ok());
    assert!(!c.has_session(9));
}

#[test]
fn commit_forgets_the_session_when_the_server_call_fails() {
    let mut c = client();
    c.finish_execute(7, executed(Some("A"), 1)).unwrap();
    let (ending, action) = c.commit_transaction(7);
    sent(action);
    let (ending, action) = c.resume(ending, Err(Error::connection_failed("connection reset")));
    assert!(matches!(ending, Ending::Closing { tx_id: 7, outcome: Err(_) }));
    assert_eq!(sent(action).body, close_body("\"A\""));
    let (ending, action) = c.resume(ending, Err(Error::connection_failed("connection reset")));
    assert!(matches!(ending, Ending::Done));
    match returned(action) {
        Err(e) => {
            assert_eq!(e.kind(), ErrorKind::ConnectionFailed);
            assert_eq!(e.message(), "connection reset");
        }
        Ok(()) => panic!("the commit did not fail"),
    }
    assert!(!c.has_session(7));
}

#[test]
fn commit_returns_the_server_error_and_forgets() {
    let mut c = client();
    c.finish_execute(7, executed(Some("A"), 1)).unwrap();
    let (ending, action) = c.commit_transaction(7);
    sent(action);
    let (ending, action) = c.resume(
        ending,
        reply(Some("B"), None, vec![StreamResult::Error("cannot commit".to_string())]),
    );
    assert_eq!(sent(action).body, close_body("\"B\""));
    let (_, action) = c.resume(ending, reply(None, None, vec![StreamResult::Close]));
    match returned(action) {
        Err(e) => {
            assert_eq!(e.kind(), ErrorKind::ServerError);
            assert_eq!(e.message(), "cannot commit");
        }
        Ok(()) => panic!("the commit did not fail"),
    }
    assert!(!c.has_session(7));
}

#[test]
fn failure_of_the_close_request_is_swallowed() {
    let mut c = client();
    c.finish_execute(7, executed(Some("A"), 1)).unwrap();
    let (ending, action) = c.commit_transaction(7);
    sent(action);
    let (ending, action) = c.resume(ending, executed(Some("B"), 0));
    sent(action);
    let (_, action) = c.resume(
        ending,
        reply(None, None, vec![StreamResult::Error("close failed".to_string())]),
    );
    assert!(returned(action).is_ok());
    assert!(!c.has_session(7));
}

#[test]
fn resuming_a_finished_operation_is_a_misuse() {
    let mut c = client();
    c.finish_execute(3, executed(Some("A"), 1)).unwrap();
    let (ending, action) = c.resume(Ending::Done, executed(Some("B"), 0));
    assert!(matches!(ending, Ending::Done));
    match returned(action) {
        Err(e) => {
            assert_eq!(e.kind(), ErrorKind::Misuse);
            assert_eq!(e.message(), "No commit or rollback is under way");
        }
        Ok(()) => panic!("resumed a finished operation"),
    }
    assert_eq!(c.cookie_for(3).baton.as_deref(), Some("A"));
}

#[test]
fn reused_id_starts_without_memory() {
    let mut c = client();
    c.finish_execute(7, reply(Some("A"), Some("http://replica/"), vec![StreamResult::Execute(rows(1))]))
        .unwrap();
    let during = c.execute_in_transaction(7, Statement::new("SELECT 1")).unwrap();
    assert_eq!(during.url, "http://replica/");
    assert_eq!(during.body, execute_body("\"A\"", "SELECT 1"));
    c.forget(7);
    assert!(!c.has_session(7));
    let after = c.execute_in_transaction(7, Statement::new("SELECT 1")).unwrap();
    assert_eq!(after.url, ENDPOINT);
    assert_eq!(after.body, execute_body("null", "SELECT 1"));
}

#[test]
fn forgetting_twice_changes_nothing() {
    let mut c = client();
    c.finish_execute(7, executed(Some("A"), 1)).unwrap();
    c.finish_execute(8, executed(Some("B"), 1)).unwrap();
    c.forget(7);
    c.forget(7);
    assert!(!c.has_session(7));
    assert_eq!(c.cookie_for(8).baton.as_deref(), Some("B"));
}

#[test]
fn reply_without_results_is_a_connection_failure() {
    let mut c = client();
    let e = c.finish_execute(7, reply(Some("A"), None, Vec::new())).unwrap_err();
    assert_eq!(e.kind(), ErrorKind::ConnectionFailed);
    assert_eq!(e.message(), "Unexpected empty response from server");
    let e = c.finish_execute(0, reply(None, None, Vec::new())).unwrap_err();
    assert_eq!(e.kind(), ErrorKind::ConnectionFailed);
}

#[test]
fn reply_with_two_results_is_a_connection_failure() {
    let mut c = client();
    let two = vec![StreamResult::Execute(rows(1)), StreamResult::Execute(rows(2))];
    let e = c.finish_execute(7, reply(Some("A"), None, two)).unwrap_err();
    assert_eq!(e.kind(), ErrorKind::ConnectionFailed);
    assert_eq!(e.message(), "Unexpected multiple responses from server");
}

#[test]
fn token_is_kept_even_if_the_results_are_refused() {
    let mut c = client();
    c.finish_execute(7, reply(Some("A"), None, Vec::new())).unwrap_err();
    assert_eq!(c.cookie_for(7).baton.as_deref(), Some("A"));
}

#[test]
fn first_reply_without_token_fails_and_leaves_no_entry() {
    let mut c = client();
    let e = c.finish_execute(7, executed(None, 1)).unwrap_err();
    assert_eq!(e.kind(), ErrorKind::ConnectionFailed);
    assert_eq!(e.message(), "Stream closed: server returned empty baton");
    assert!(!c.has_session(7));
}

#[test]
fn later_reply_without_token_fails_and_keeps_the_cookie() {
    let mut c = client();
    c.finish_execute(7, executed(Some("A"), 1)).unwrap();
    let e = c.finish_execute(7, executed(None, 1)).unwrap_err();
    assert_eq!(e.kind(), ErrorKind::ConnectionFailed);
    assert!(c.has_session(7));
    assert_eq!(c.cookie_for(7).baton.as_deref(), Some("A"));
}

#[test]
fn transport_failure_is_passed_on_and_changes_nothing() {
    let mut c = client();
    c.finish_execute(7, executed(Some("A"), 1)).unwrap();
    let e = c.finish_execute(7, Err(Error::connection_failed("timed out"))).unwrap_err();
    assert_eq!(e.kind(), ErrorKind::ConnectionFailed);
    assert_eq!(e.message(), "timed out");
    assert_eq!(c.cookie_for(7).baton.as_deref(), Some("A"));
    let e = c.finish_execute(8, Err(Error::connection_failed("timed out"))).unwrap_err();
    assert_eq!(e.message(), "timed out");
    assert!(!c.has_session(8));
}

#[test]
fn server_error_is_reported_and_keeps_the_session() {
    let mut c = client();
    let e = c
        .finish_execute(7, reply(Some("A"), None, vec![StreamResult::Error("no such table: t".to_string())]))
        .unwrap_err();
    assert_eq!(e.kind(), ErrorKind::ServerError);
    assert_eq!(e.message(), "no such table: t");
    assert!(c.has_session(7));
    let next = c.execute_in_transaction(7, Statement::new("ROLLBACK")).unwrap();
    assert_eq!(next.body, execute_body("\"A\"", "ROLLBACK"));
}

#[test]
fn result_of_another_kind_is_a_connection_failure() {
    let mut c = client();
    let e = c.finish_execute(7, reply(Some("A"), None, vec![StreamResult::Close])).unwrap_err();
    assert_eq!(e.kind(), ErrorKind::ConnectionFailed);
    assert_eq!(e.message(), "Unexpected response from server");
    let batch = BatchResult { step_results: Vec::new(), step_errors: Vec::new() };
    let e = c.finish_execute(7, reply(Some("A"), None, vec![StreamResult::Batch(batch)])).unwrap_err();
    assert_eq!(e.kind(), ErrorKind::ConnectionFailed);
}

#[test]
fn statement_result_is_handed_through() {
    let mut c = client();
    let result = StmtResult {
        cols: vec![Col { name: Some("x".to_string()) }],
        rows: vec![vec![Value::Integer { value: 1 }], vec![Value::Integer { value: 2 }]],
        affected_row_count: 0,
        last_insert_rowid: Some(12),
    };
    let got = c.finish_execute(0, reply(None, None, vec![StreamResult::Execute(result)])).unwrap();
    assert_eq!(got.columns, vec!["x".to_string()]);
    assert_eq!(got.rows.len(), 2);
    assert!(matches!(got.rows[0].values[0], Value::Integer { value: 1 }));
    assert!(matches!(got.rows[1].values[0], Value::Integer { value: 2 }));
    assert!(matches!(got.cell(1, "x"), Some(Value::Integer { value: 2 })));
    assert_eq!(got.rows_affected, 0);
    assert_eq!(got.last_insert_rowid, Some(12));
}

#[test]
fn plain_execute_keeps_no_cookie() {
    let mut c = client();
    c.finish_execute(0, executed(Some("A"), 1)).unwrap();
    assert!(!c.has_session(0));
    let next = c.execute(Statement::new("SELECT 1")).unwrap();
    assert_eq!(next.body, execute_body("null", "SELECT 1"));
}

#[test]
fn plain_execute_needs_no_token() {
    let mut c = client();
    assert_eq!(c.finish_execute(0, executed(None, 3)).unwrap().rows_affected, 3);
}

#[test]
fn statements_leave_in_order_and_carry_the_chain_of_tokens() {
    let mut c = client();
    let statements = ["S0", "S1", "S2", "S3"];
    let tokens = ["null", "\"t0\"", "\"t1\"", "\"t2\""];
    for i in 0..statements.len() {
        let request = c.execute_in_transaction(11, Statement::new(statements[i])).unwrap();
        assert_eq!(request.body, execute_body(tokens[i], statements[i]));
        let baton = format!("t{}", i);
        c.finish_execute(11, executed(Some(baton.as_str()), 0)).unwrap();
    }
}

#[test]
fn redirection_is_followed_and_may_be_withdrawn() {
    let mut c = client();
    c.finish_execute(4, reply(Some("A"), Some("http://shard-2/"), vec![StreamResult::Execute(rows(1))]))
        .unwrap();
    assert_eq!(c.execute_in_transaction(4, Statement::new("X")).unwrap().url, "http://shard-2/");
    assert_eq!(c.close_stream_for(4).unwrap().url, "http://shard-2/");
    c.finish_execute(4, executed(Some("B"), 1)).unwrap();
    assert_eq!(c.execute_in_transaction(4, Statement::new("X")).unwrap().url, ENDPOINT);
}

#[test]
fn transactions_do_not_see_each_other() {
    let mut c = client();
    c.finish_execute(1, reply(Some("one"), Some("http://a/"), vec![StreamResult::Execute(rows(1))]))
        .unwrap();
    c.finish_execute(2, executed(Some("two"), 1)).unwrap();
    assert_eq!(c.execute_in_transaction(1, Statement::new("X")).unwrap().body, execute_body("\"one\"", "X"));
    assert_eq!(c.execute_in_transaction(2, Statement::new("X")).unwrap().body, execute_body("\"two\"", "X"));
    assert_eq!(c.execute_in_transaction(2, Statement::new("X")).unwrap().url, ENDPOINT);
    assert_eq!(c.execute(Statement::new("X")).unwrap().body, execute_body("null", "X"));
    let (ending, action) = c.commit_transaction(1);
    sent(action);
    let (ending, action) = c.resume(ending, executed(Some("one-b"), 0));
    sent(action);
    let (_, action) = c.resume(ending, reply(None, None, vec![StreamResult::Close]));
    assert!(returned(action).is_ok());
    assert!(!c.has_session(1));
    assert_eq!(c.cookie_for(2).baton.as_deref(), Some("two"));
}

#[test]
fn batch_reply_without_results_is_refused() {
    let e = Client::finish_batch(reply(None, None, Vec::new())).unwrap_err();
    assert_eq!(e.kind(), ErrorKind::ConnectionFailed);
    assert_eq!(e.message(), "Unexpected empty response from server");
}

#[test]
fn batch_reply_with_three_results_is_refused() {
    let batch = BatchResult { step_results: Vec::new(), step_errors: Vec::new() };
    let e = Client::finish_batch(reply(
        None,
        None,
        vec![StreamResult::Batch(batch), StreamResult::Close, StreamResult::Close],
    ))
    .unwrap_err();
    assert_eq!(e.kind(), ErrorKind::ConnectionFailed);
    assert_eq!(e.message(), "Unexpected multiple responses from server");
}

#[test]
fn batch_reply_with_one_result_is_enough() {
    let batch = BatchResult { step_results: vec![Some(rows(4))], step_errors: vec![None] };
    let got = Client::finish_batch(reply(None, None, vec![StreamResult::Batch(batch)])).unwrap();
    assert_eq!(got.step_results[0].as_ref().unwrap().affected_row_count, 4);
}

#[test]
fn batch_reply_of_another_kind_is_refused() {
    let e = Client::finish_batch(reply(None, None, vec![StreamResult::Execute(rows(1)), StreamResult::Close]))
        .unwrap_err();
    assert_eq!(e.kind(), ErrorKind::ConnectionFailed);
    assert_eq!(e.message(), "Unexpected response from server");
    let e = Client::finish_batch(reply(None, None, vec![StreamResult::Close])).unwrap_err();
    assert_eq!(e.kind(), ErrorKind::ConnectionFailed);
}

#[test]
fn batch_server_error_is_reported() {
    let e = Client::finish_batch(reply(
        None,
        None,
        vec![StreamResult::Error("syntax error".to_string()), StreamResult::Close],
    ))
    .unwrap_err();
    assert_eq!(e.kind(), ErrorKind::ServerError);
    assert_eq!(e.message(), "syntax error");
}

#[test]
fn batch_transport_failure_is_passed_on() {
    let e = Client::finish_batch(Err(Error::connection_failed("refused"))).unwrap_err();
    assert_eq!(e.kind(), ErrorKind::ConnectionFailed);
    assert_eq!(e.message(), "refused");
}

#[test]
fn batch_ignores_open_transactions() {
    let mut c = client();
    c.finish_execute(7, reply(Some("A"), Some("http://replica/"), vec![StreamResult::Execute(rows(1))]))
        .unwrap();
    let request = c.raw_batch(vec![Statement::new("SELECT 1")]).unwrap();
    assert_eq!(request.url, ENDPOINT);
    assert!(request.body.starts_with("{\"baton\":null,"));
}
