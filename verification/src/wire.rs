//! The wire format of requests and results, as the `hrana_client` protocol
//! types hold it and `serde_json` writes it.
//!
//! The protocol types are opaque here. Each has a model that holds its whole
//! content as mathematical values, and every function of this module says
//! over those models what the protocol crate's code does. None of these
//! statements is proved: they restate the source of the two crates.

use hrana_client::proto::pipeline::{ClientMsg, StreamBatchReq, StreamExecuteReq, StreamRequest};
use hrana_client::proto::{Batch, BatchCond, BatchResult, Col, Stmt, StmtResult, Value};
use serde_json::Error as JsonError;
use vstd::prelude::*;

verus! {

/// `hrana_client::proto::Value`: one SQL value.
#[verifier::external_type_specification]
#[verifier::external_body]
pub struct ExValue(Value);

/// `hrana_client::proto::Stmt`: one statement as it is sent.
#[verifier::external_type_specification]
#[verifier::external_body]
pub struct ExStmt(Stmt);

/// `hrana_client::proto::BatchCond`: the condition of a batch step.
#[verifier::external_type_specification]
#[verifier::external_body]
pub struct ExBatchCond(BatchCond);

/// `hrana_client::proto::Batch`: a sequence of statements sent as one.
#[verifier::external_type_specification]
#[verifier::external_body]
pub struct ExBatch(Batch);

/// `hrana_client::proto::pipeline::StreamRequest`: one step of a request.
#[verifier::external_type_specification]
#[verifier::external_body]
pub struct ExStreamRequest(StreamRequest);

/// `hrana_client::proto::StmtResult`: the rows that a statement gave.
#[verifier::external_type_specification]
#[verifier::external_body]
pub struct ExStmtResult(StmtResult);

/// `hrana_client::proto::BatchResult`: the outcome of each step of a batch.
#[verifier::external_type_specification]
#[verifier::external_body]
pub struct ExBatchResult(BatchResult);

/// `serde_json::Error`.
#[verifier::external_type_specification]
#[verifier::external_body]
pub struct ExJsonError(JsonError);

/// The content of a `Stmt`.
pub struct WireStmt {
    pub sql: Seq<char>,
    pub args: Seq<Value>,
    pub named_args: Seq<(Seq<char>, Value)>,
    pub want_rows: bool,
}

/// The content of one step of a `Batch`.
pub struct WireStep {
    pub condition: Option<BatchCond>,
    pub stmt: WireStmt,
}

/// The content of a `StreamRequest`.
pub enum WireRequest {
    Close,
    Execute(WireStmt),
    Batch(Seq<WireStep>),
}

/// The content of a `StmtResult`: the name of each column, where it has
/// one, the values of each row, and the two counters.
pub struct WireResult {
    pub cols: Seq<Option<Seq<char>>>,
    pub rows: Seq<Seq<Value>>,
    pub affected_row_count: u64,
    pub last_insert_rowid: Option<i64>,
}

/// The fields of a `StmtResult`, each column as its name.
pub uninterp spec fn result_content(result: StmtResult) -> WireResult;

/// Optional texts as mathematical values.
pub open spec fn names_view(names: Seq<Option<String>>) -> Seq<Option<Seq<char>>> {
    names.map_values(|n: Option<String>| n.deep_view())
}

/// Rows of values as mathematical values.
pub open spec fn rows_view(rows: Seq<Vec<Value>>) -> Seq<Seq<Value>> {
    rows.map_values(|r: Vec<Value>| r@)
}

/// The fields of a `Stmt`, `named_args` as pairs of name and value.
pub uninterp spec fn stmt_content(stmt: Stmt) -> WireStmt;

/// The steps of a `Batch`, in order.
pub uninterp spec fn batch_content(batch: Batch) -> Seq<WireStep>;

/// The variant of a `StreamRequest` and what it holds.
pub uninterp spec fn request_content(request: StreamRequest) -> WireRequest;

/// What `serde_json::to_string` gives for a `ClientMsg` with this baton and
/// these requests: the JSON text, or the text of the error where it fails.
pub uninterp spec fn pipeline_json(baton: Option<Seq<char>>, requests: Seq<WireRequest>) -> Result<
    Seq<char>,
    Seq<char>,
>;

/// The `Display` text of a `serde_json::Error`.
pub uninterp spec fn json_error_display(error: JsonError) -> Seq<char>;

/// The contents of a sequence of requests.
pub open spec fn requests_content(requests: Seq<StreamRequest>) -> Seq<WireRequest> {
    requests.map_values(|r: StreamRequest| request_content(r))
}

/// Takes a `StmtResult` apart: the names of its columns, its rows and its
/// two counters, each as the field holds it.
#[verifier::external_body]
pub(crate) fn result_parts(result: StmtResult) -> (parts: (
    Vec<Option<String>>,
    Vec<Vec<Value>>,
    u64,
    Option<i64>,
))
    ensures
        result_content(result) == (WireResult {
            cols: names_view(parts.0@),
            rows: rows_view(parts.1@),
            affected_row_count: parts.2,
            last_insert_rowid: parts.3,
        }),
{
    let StmtResult { cols, rows, affected_row_count, last_insert_rowid } = result;
    (cols.into_iter().map(|col: Col| col.name).collect(), rows, affected_row_count, last_insert_rowid)
}

/// `Stmt::new`: a statement with the given text and no arguments.
#[verifier::external_body]
pub(crate) fn stmt_new(sql: String, want_rows: bool) -> (stmt: Stmt)
    ensures
        stmt_content(stmt) == (WireStmt {
            sql: sql@,
            args: Seq::empty(),
            named_args: Seq::empty(),
            want_rows,
        }),
{
    Stmt::new(sql, want_rows)
}

/// `Stmt::bind`: appends one positional argument and changes nothing else.
#[verifier::external_body]
pub(crate) fn stmt_bind(stmt: &mut Stmt, value: Value)
    ensures
        stmt_content(*final(stmt)) == (WireStmt {
            args: stmt_content(*old(stmt)).args.push(value),
            ..stmt_content(*old(stmt))
        }),
{
    stmt.bind(value)
}

/// `Batch::new`: a batch without steps.
#[verifier::external_body]
pub(crate) fn batch_new() -> (batch: Batch)
    ensures
        batch_content(batch) == Seq::<WireStep>::empty(),
{
    Batch::new()
}

/// `Batch::step`, called without a condition: appends the statement as an
/// unconditional step.
#[verifier::external_body]
pub(crate) fn batch_step(batch: &mut Batch, stmt: Stmt)
    ensures
        batch_content(*final(batch)) == batch_content(*old(batch)).push(
            WireStep { condition: None, stmt: stmt_content(stmt) },
        ),
{
    batch.step(None, stmt)
}

/// The `StreamRequest` that executes one statement.
#[verifier::external_body]
pub(crate) fn request_execute(stmt: Stmt) -> (request: StreamRequest)
    ensures
        request_content(request) == WireRequest::Execute(stmt_content(stmt)),
{
    StreamRequest::Execute(StreamExecuteReq { stmt })
}

/// The `StreamRequest` that executes a batch.
#[verifier::external_body]
pub(crate) fn request_batch(batch: Batch) -> (request: StreamRequest)
    ensures
        request_content(request) == WireRequest::Batch(batch_content(batch)),
{
    StreamRequest::Batch(StreamBatchReq { batch })
}

/// The `StreamRequest` that closes the stream.
#[verifier::external_body]
pub(crate) fn request_close() -> (request: StreamRequest)
    ensures
        request_content(request) == WireRequest::Close,
{
    StreamRequest::Close
}

/// `serde_json::to_string` on the `ClientMsg` made of the two arguments.
/// Whether it succeeds, and the text it gives, depend on the content of the
/// message alone.
#[verifier::external_body]
pub(crate) fn encode_pipeline(baton: Option<String>, requests: Vec<StreamRequest>) -> (encoded:
    Result<String, JsonError>)
    ensures
        pipeline_json(baton.deep_view(), requests_content(requests@)) == match encoded {
            Ok(text) => Ok::<Seq<char>, Seq<char>>(text@),
            Err(error) => Err::<Seq<char>, Seq<char>>(json_error_display(error)),
        },
{
    serde_json::to_string(&ClientMsg { baton, requests })
}

/// `to_string` on a `serde_json::Error`: its `Display` text.
#[verifier::external_body]
pub(crate) fn json_error_text(error: &JsonError) -> (text: String)
    ensures
        text@ == json_error_display(*error),
{
    error.to_string()
}

} // verus!
