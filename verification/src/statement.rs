//! Statements, and how they are put on the wire.

use crate::wire::{batch_new, batch_step, stmt_bind, stmt_new, WireStep, WireStmt};
use hrana_client::proto::{Batch, Stmt, Value};
use vstd::prelude::*;
use vstd::string::*;

verus! {

/// An SQL statement with its positional arguments.
pub struct Statement {
    pub sql: String,
    pub args: Vec<Value>,
}

/// A statement as a mathematical value.
pub struct StatementView {
    pub sql: Seq<char>,
    pub args: Seq<Value>,
}

impl View for Statement {
    type V = StatementView;

    open spec fn view(&self) -> StatementView {
        StatementView { sql: self.sql@, args: self.args@ }
    }
}

impl StatementView {
    /// The statement as it is sent: the same text, the same arguments in
    /// the same order, no named arguments, rows wanted.
    pub open spec fn wire(self) -> WireStmt {
        WireStmt { sql: self.sql, args: self.args, named_args: Seq::empty(), want_rows: true }
    }

    /// The statement as an unconditional step of a batch.
    pub open spec fn step(self) -> WireStep {
        WireStep { condition: None, stmt: self.wire() }
    }
}

/// The steps of the batch that executes `stmts` in order.
pub open spec fn batch_steps(stmts: Seq<Statement>) -> Seq<WireStep> {
    stmts.map_values(|s: Statement| s@.step())
}

/// Which of the two statements ends a transaction.
#[derive(Clone, Copy, Debug, PartialEq, Eq, Structural)]
pub enum Control {
    Commit,
    Rollback,
}

impl Control {
    /// The statement that is sent.
    pub open spec fn statement(self) -> StatementView {
        match self {
            Control::Commit => StatementView { sql: "COMMIT"@, args: Seq::empty() },
            Control::Rollback => StatementView { sql: "ROLLBACK"@, args: Seq::empty() },
        }
    }

    /// The statement that is sent.
    pub fn to_statement(self) -> (stmt: Statement)
        ensures
            stmt@ == self.statement(),
    {
        match self {
            Control::Commit => Statement::new("COMMIT"),
            Control::Rollback => Statement::new("ROLLBACK"),
        }
    }
}

impl Statement {
    /// A statement without arguments.
    pub fn new(sql: &str) -> (stmt: Statement)
        ensures
            stmt@ == (StatementView { sql: sql@, args: Seq::empty() }),
    {
        Statement { sql: String::from_str(sql), args: Vec::new() }
    }

    /// A statement with positional arguments.
    pub fn with_args(sql: &str, args: Vec<Value>) -> (stmt: Statement)
        ensures
            stmt@ == (StatementView { sql: sql@, args: args@ }),
    {
        Statement { sql: String::from_str(sql), args }
    }
}

impl<'a> From<&'a str> for Statement {
    fn from(sql: &'a str) -> (stmt: Statement)
        ensures
            stmt@ == (StatementView { sql: sql@, args: Seq::empty() }),
    {
        Statement::new(sql)
    }
}

impl<'a> vstd::std_specs::convert::FromSpecImpl<&'a str> for Statement {
    open spec fn obeys_from_spec() -> bool {
        false
    }

    open spec fn from_spec(sql: &'a str) -> Statement {
        arbitrary()
    }
}

/// Puts a statement into its wire form.
pub fn into_hrana(stmt: Statement) -> (hrana_stmt: Stmt)
    ensures
        crate::wire::stmt_content(hrana_stmt) == stmt@.wire(),
{
    let ghost wanted = stmt@.wire();
    let Statement { sql, args } = stmt;
    let mut hrana_stmt = stmt_new(sql, true);
    proof {
        assert(wanted.args.take(0) =~= Seq::empty());
    }
    for param in it: args
        invariant
            it.seq() == wanted.args,
            crate::wire::stmt_content(hrana_stmt) == (WireStmt {
                args: wanted.args.take(it.index() as int),
                ..wanted
            }),
    {
        proof {
            assert(wanted.args.take(it.index() as int).push(param) =~= wanted.args.take(
                it.index() + 1,
            ));
        }
        stmt_bind(&mut hrana_stmt, param);
    }
    proof {
        assert(wanted.args.take(wanted.args.len() as int) =~= wanted.args);
    }
    hrana_stmt
}

/// Puts statements into one batch: a step for each, in the order given,
/// none of them conditional.
pub fn into_batch(stmts: Vec<Statement>) -> (batch: Batch)
    ensures
        crate::wire::batch_content(batch) == batch_steps(stmts@),
{
    let ghost wanted = batch_steps(stmts@);
    let mut batch = batch_new();
    for stmt in it: stmts
        invariant
            it.seq().map_values(|s: Statement| s@.step()) == wanted,
            crate::wire::batch_content(batch) == wanted.take(it.index() as int),
    {
        proof {
            assert(wanted.take(it.index() as int).push(stmt@.step()) =~= wanted.take(
                it.index() + 1,
            ));
        }
        let hrana_stmt = into_hrana(stmt);
        batch_step(&mut batch, hrana_stmt);
    }
    proof {
        assert(wanted.take(wanted.len() as int) =~= wanted);
    }
    batch
}

} // verus!
