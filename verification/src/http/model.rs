//! The cookie strategy as mathematics: what a client sends and keeps, as
//! functions of what it kept before and of what came back.
//!
//! The functions of [`crate::http::Client`] are specified by the functions
//! of this module, and the laws of [`crate::http::laws`] are proved of them.

use crate::error::ErrorView;
use crate::statement::{Control, StatementView};
use crate::result_set::{decoded, ResultSetView};
use crate::wire::{pipeline_json, result_content, WireRequest};
use hrana_client::proto::{BatchResult, StmtResult};
use vstd::prelude::*;

verus! {

/// A cookie as a mathematical value.
pub struct CookieView {
    pub baton: Option<Seq<char>>,
    pub base_url: Option<Seq<char>>,
}

impl CookieView {
    /// The cookie of a transaction that the server has not answered yet.
    pub open spec fn fresh() -> CookieView {
        CookieView { baton: None, base_url: None }
    }
}

/// One result entry of a reply, as a mathematical value.
pub enum ResultView {
    Close,
    Execute(StmtResult),
    Batch(BatchResult),
    Error(Seq<char>),
}

/// A reply of the server, as a mathematical value.
pub struct ServerMsgView {
    pub baton: Option<Seq<char>>,
    pub base_url: Option<Seq<char>>,
    pub results: Seq<ResultView>,
}

/// Which backend sends the requests of a client. `Default` stands for none.
#[derive(Clone, Copy, Debug, PartialEq, Eq, Structural)]
pub enum InnerClient {
    Reqwest,
    Workers,
    Spin,
    Default,
}

/// A request, as a mathematical value.
pub struct HttpRequestView {
    pub url: Seq<char>,
    pub auth: Seq<char>,
    pub body: Seq<char>,
}

/// How far a commit or rollback has come, as a mathematical value.
pub enum EndingView {
    Control { tx_id: u64 },
    Closing { tx_id: u64, outcome: Result<(), ErrorView> },
    Done,
}

/// What the caller of a commit or rollback does next, as a mathematical value.
pub enum ActionView {
    Send(HttpRequestView),
    Return(Result<(), ErrorView>),
}

/// A client after one turn of a commit or rollback, with the state of the
/// operation and what has to be done next.
pub struct Turn {
    pub client: ClientView,
    pub ending: EndingView,
    pub action: ActionView,
}

/// The text of the error for a reply without a continuation token.
pub open spec fn lost_baton_text() -> Seq<char> {
    "Stream closed: server returned empty baton"@
}

/// The text of the error for a reply without results.
pub open spec fn empty_reply_text() -> Seq<char> {
    "Unexpected empty response from server"@
}

/// The text of the error for a reply with too many results.
pub open spec fn crowded_reply_text() -> Seq<char> {
    "Unexpected multiple responses from server"@
}

/// The text of the error for a result of another kind than was asked for.
pub open spec fn foreign_result_text() -> Seq<char> {
    "Unexpected response from server"@
}

/// The text of the error for a turn of a commit or rollback that has ended.
pub open spec fn ended_text() -> Seq<char> {
    "No commit or rollback is under way"@
}

/// The result of a statement for a reply, or for the failure of the
/// transport. A transaction needs a continuation token; the reply must hold
/// one result, that of a statement.
pub open spec fn execute_outcome(tx_id: u64, reply: Result<ServerMsgView, ErrorView>) -> Result<
    ResultSetView,
    ErrorView,
> {
    match reply {
        Err(failure) => Err(failure),
        Ok(msg) => if tx_id > 0 && msg.baton is None {
            Err(ErrorView::connection_failed(lost_baton_text()))
        } else if msg.results.len() == 0 {
            Err(ErrorView::connection_failed(empty_reply_text()))
        } else if msg.results.len() > 1 {
            Err(ErrorView::connection_failed(crowded_reply_text()))
        } else {
            match msg.results[0] {
                ResultView::Execute(rows) => Ok(decoded(result_content(rows))),
                ResultView::Error(text) => Err(ErrorView::server_error(text)),
                _ => Err(ErrorView::connection_failed(foreign_result_text())),
            }
        },
    }
}

/// The result of a batch for a reply, or for the failure of the transport.
/// The reply must hold one or two results, the first that of a batch.
pub open spec fn batch_outcome(reply: Result<ServerMsgView, ErrorView>) -> Result<
    BatchResult,
    ErrorView,
> {
    match reply {
        Err(failure) => Err(failure),
        Ok(msg) => if msg.results.len() == 0 {
            Err(ErrorView::connection_failed(empty_reply_text()))
        } else if msg.results.len() > 2 {
            Err(ErrorView::connection_failed(crowded_reply_text()))
        } else {
            match msg.results[0] {
                ResultView::Batch(outcomes) => Ok(outcomes),
                ResultView::Error(text) => Err(ErrorView::server_error(text)),
                _ => Err(ErrorView::connection_failed(foreign_result_text())),
            }
        },
    }
}

/// One call of a transaction: the statement, and what came back for it, the
/// reply or the failure of the transport.
pub struct Exchange {
    pub stmt: StatementView,
    pub reply: Result<ServerMsgView, ErrorView>,
}

/// A result without its value.
pub open spec fn without_value<T>(outcome: Result<T, ErrorView>) -> Result<(), ErrorView> {
    match outcome {
        Ok(_) => Ok(()),
        Err(failure) => Err(failure),
    }
}

/// Whether `://` stands in `url` at index `i`.
pub open spec fn scheme_mark_at(url: Seq<char>, i: int) -> bool {
    &&& 0 <= i
    &&& i + 3 <= url.len()
    &&& url[i] == ':'
    &&& url[i + 1] == '/'
    &&& url[i + 2] == '/'
}

/// Whether `url` names its protocol: whether `://` stands anywhere in it.
pub open spec fn names_protocol(url: Seq<char>) -> bool {
    exists|i: int| scheme_mark_at(url, i)
}

/// The endpoint for the queries of a database at `url`: the pipeline path
/// right behind the URL, which gets `https://` in front where it names no
/// protocol.
pub open spec fn pipeline_url(url: Seq<char>) -> Seq<char> {
    if names_protocol(url) {
        url + "v2/pipeline"@
    } else {
        "https://"@ + url + "v2/pipeline"@
    }
}

/// The authorization header for a token.
pub open spec fn bearer(token: Seq<char>) -> Seq<char> {
    "Bearer "@ + token
}

/// A client as a mathematical value: its backend, the cookie of each open
/// transaction, the endpoint it was made for and its authorization header.
pub struct ClientView {
    pub inner: InnerClient,
    pub cookies: Map<u64, CookieView>,
    pub url_for_queries: Seq<char>,
    pub auth: Seq<char>,
}

impl ClientView {
    /// The client for the database at `url`, with no transaction open.
    pub open spec fn connecting(inner: InnerClient, url: Seq<char>, token: Seq<char>) -> ClientView {
        ClientView {
            inner,
            cookies: Map::empty(),
            url_for_queries: pipeline_url(url),
            auth: bearer(token),
        }
    }

    /// The cookie that a call under `tx_id` goes out with: that of the
    /// transaction, or a fresh one where it has none. Id 0 stands for no
    /// transaction and always gets a fresh one.
    pub open spec fn cookie_in_use(self, tx_id: u64) -> CookieView {
        if tx_id > 0 && self.cookies.contains_key(tx_id) {
            self.cookies[tx_id]
        } else {
            CookieView::fresh()
        }
    }

    /// Where a call under `tx_id` is sent: where the server redirected the
    /// transaction to, or else the client's endpoint.
    pub open spec fn url_in_use(self, tx_id: u64) -> Seq<char> {
        match self.cookie_in_use(tx_id).base_url {
            Some(url) => url,
            None => self.url_for_queries,
        }
    }

    /// The request that carries `requests` under `tx_id`, with the
    /// transaction's continuation token, or the error where they cannot be
    /// encoded.
    pub open spec fn planned(self, tx_id: u64, requests: Seq<WireRequest>) -> Result<
        HttpRequestView,
        ErrorView,
    > {
        match pipeline_json(self.cookie_in_use(tx_id).baton, requests) {
            Ok(body) => Ok(
                HttpRequestView { url: self.url_in_use(tx_id), auth: self.auth, body },
            ),
            Err(text) => Err(ErrorView::connection_failed(text)),
        }
    }

    /// The request for one statement under `tx_id`.
    pub open spec fn planned_statement(self, tx_id: u64, stmt: StatementView) -> Result<
        HttpRequestView,
        ErrorView,
    > {
        self.planned(tx_id, seq![WireRequest::Execute(stmt.wire())])
    }

    /// The client after the reply to a statement under `tx_id`: the token
    /// and the redirection of the reply take the place of the
    /// transaction's cookie. Nothing is kept for id 0, nor of a reply
    /// without a token, nor when the transport failed.
    pub open spec fn after_reply(self, tx_id: u64, reply: Result<ServerMsgView, ErrorView>) -> ClientView {
        match reply {
            Ok(msg) => if tx_id > 0 && msg.baton is Some {
                ClientView {
                    cookies: self.cookies.insert(
                        tx_id,
                        CookieView { baton: msg.baton, base_url: msg.base_url },
                    ),
                    ..self
                }
            } else {
                self
            },
            Err(_) => self,
        }
    }

    /// The client after the calls of `exchanges` under `tx_id`, one after
    /// the other.
    pub open spec fn after_exchanges(self, tx_id: u64, exchanges: Seq<Exchange>) -> ClientView
        decreases exchanges.len(),
    {
        if exchanges.len() == 0 {
            self
        } else {
            self.after_exchanges(tx_id, exchanges.drop_last()).after_reply(
                tx_id,
                exchanges.last().reply,
            )
        }
    }

    /// What goes out for the call number `i` of `exchanges` under `tx_id`.
    pub open spec fn sent(self, tx_id: u64, exchanges: Seq<Exchange>, i: int) -> Result<
        HttpRequestView,
        ErrorView,
    > {
        self.after_exchanges(tx_id, exchanges.take(i)).planned_statement(tx_id, exchanges[i].stmt)
    }

    /// The client without the cookie of `tx_id`.
    pub open spec fn forgetting(self, tx_id: u64) -> ClientView {
        ClientView { cookies: self.cookies.remove(tx_id), ..self }
    }

    /// The turn that releases the session of `tx_id` once the outcome of
    /// its control statement is known: the close request goes out with the
    /// latest cookie. Where it cannot even be encoded, the cookie is
    /// forgotten at once.
    pub open spec fn closing(self, tx_id: u64, outcome: Result<(), ErrorView>) -> Turn {
        match self.planned(tx_id, seq![WireRequest::Close]) {
            Ok(request) => Turn {
                client: self,
                ending: EndingView::Closing { tx_id, outcome },
                action: ActionView::Send(request),
            },
            Err(_) => Turn {
                client: self.forgetting(tx_id),
                ending: EndingView::Done,
                action: ActionView::Return(outcome),
            },
        }
    }

    /// The first turn of a commit or rollback of `tx_id`. The rollback of a
    /// transaction without a session changes nothing and succeeds. Else the
    /// control statement goes out as any statement of the transaction.
    pub open spec fn ending(self, tx_id: u64, control: Control) -> Turn {
        if control == Control::Rollback && !self.cookies.contains_key(tx_id) {
            Turn { client: self, ending: EndingView::Done, action: ActionView::Return(Ok(())) }
        } else {
            match self.planned_statement(tx_id, control.statement()) {
                Ok(request) => Turn {
                    client: self,
                    ending: EndingView::Control { tx_id },
                    action: ActionView::Send(request),
                },
                Err(failure) => self.closing(tx_id, Err(failure)),
            }
        }
    }

    /// The turn that follows the reply to what the turn before has sent.
    /// After the control statement comes the close request, whatever the
    /// outcome was; after the close request the cookie is forgotten,
    /// whatever came back, and the outcome of the control statement is
    /// returned.
    pub open spec fn resumed(self, ending: EndingView, reply: Result<ServerMsgView, ErrorView>) -> Turn {
        match ending {
            EndingView::Control { tx_id } => self.after_reply(tx_id, reply).closing(
                tx_id,
                without_value(execute_outcome(tx_id, reply)),
            ),
            EndingView::Closing { tx_id, outcome } => Turn {
                client: self.forgetting(tx_id),
                ending: EndingView::Done,
                action: ActionView::Return(outcome),
            },
            EndingView::Done => Turn {
                client: self,
                ending: EndingView::Done,
                action: ActionView::Return(Err(ErrorView::misuse(ended_text()))),
            },
        }
    }
}

} // verus!
