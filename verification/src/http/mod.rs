//! The cookie strategy: transactions over a stateless HTTP transport.
//!
//! The server answers every request with a continuation token, the baton,
//! and may name another endpoint for what follows. The client keeps both per
//! transaction and sends them back with the next request of the same
//! transaction, so that the server can tell which session is continued.

pub mod laws;
pub mod model;

pub use crate::http::model::InnerClient;

use crate::address::{url_as_str, url_text};
use crate::config::{token_or_empty, token_text, Config};
use crate::error::{failure_view, result_view, Error, ErrorView};
use crate::http::model::{
    names_protocol, scheme_mark_at, ActionView, ClientView, CookieView, EndingView,
    HttpRequestView, ResultView, ServerMsgView, Turn,
};
use crate::registry::Registry;
use crate::result_set::ResultSet;
use crate::statement::{batch_steps, into_batch, into_hrana, Control, Statement};
use crate::wire::{
    encode_pipeline, json_error_display, json_error_text, request_batch, request_close,
    request_execute, requests_content, WireRequest,
};
use hrana_client::proto::pipeline::StreamRequest;
use hrana_client::proto::{BatchResult, StmtResult};
use serde_json::Error as JsonError;
use vstd::prelude::*;
use vstd::string::*;

verus! {

/// What the server said of a session with its last reply: the continuation
/// token, and the endpoint to use from now on.
#[derive(Debug)]
pub struct Cookie {
    pub baton: Option<String>,
    pub base_url: Option<String>,
}

impl View for Cookie {
    type V = CookieView;

    open spec fn view(&self) -> CookieView {
        CookieView { baton: self.baton.deep_view(), base_url: self.base_url.deep_view() }
    }
}

/// A copy of an optional text.
fn copy_of(text: &Option<String>) -> (copy: Option<String>)
    ensures
        copy.deep_view() == text.deep_view(),
{
    match text {
        Some(t) => Some(t.clone()),
        None => None,
    }
}

impl Cookie {
    /// The cookie of a transaction that the server has not answered yet.
    pub fn fresh() -> (cookie: Cookie)
        ensures
            cookie@ == CookieView::fresh(),
    {
        Cookie { baton: None, base_url: None }
    }

    /// A copy of the cookie.
    pub fn duplicate(&self) -> (cookie: Cookie)
        ensures
            cookie@ == self@,
    {
        Cookie { baton: copy_of(&self.baton), base_url: copy_of(&self.base_url) }
    }
}

/// One result entry of a reply.
#[derive(Debug)]
pub enum StreamResult {
    /// The stream was closed.
    Close,
    /// A statement was executed.
    Execute(StmtResult),
    /// A batch was executed.
    Batch(BatchResult),
    /// The step failed on the server, with this message.
    Error(String),
}

impl View for StreamResult {
    type V = ResultView;

    open spec fn view(&self) -> ResultView {
        match self {
            StreamResult::Close => ResultView::Close,
            StreamResult::Execute(rows) => ResultView::Execute(*rows),
            StreamResult::Batch(outcomes) => ResultView::Batch(*outcomes),
            StreamResult::Error(text) => ResultView::Error(text@),
        }
    }
}

/// A reply of the server.
#[derive(Debug)]
pub struct ServerMsg {
    pub baton: Option<String>,
    pub base_url: Option<String>,
    pub results: Vec<StreamResult>,
}

impl View for ServerMsg {
    type V = ServerMsgView;

    open spec fn view(&self) -> ServerMsgView {
        ServerMsgView {
            baton: self.baton.deep_view(),
            base_url: self.base_url.deep_view(),
            results: self.results@.map_values(|r: StreamResult| r@),
        }
    }
}

/// What has to be sent: the endpoint, the authorization header and the body.
#[derive(Debug)]
pub struct HttpRequest {
    pub url: String,
    pub auth: String,
    pub body: String,
}

impl View for HttpRequest {
    type V = HttpRequestView;

    open spec fn view(&self) -> HttpRequestView {
        HttpRequestView { url: self.url@, auth: self.auth@, body: self.body@ }
    }
}

impl HttpRequest {
    /// The request to `url` with the encoded body, or the connection failure
    /// that carries the encoder's error.
    pub fn from_encoded(url: String, auth: String, encoded: Result<String, JsonError>) -> (request:
        Result<HttpRequest, Error>)
        ensures
            result_view(request) == match encoded {
                Ok(body) => Ok::<HttpRequestView, ErrorView>(
                    HttpRequestView { url: url@, auth: auth@, body: body@ },
                ),
                Err(error) => Err::<HttpRequestView, ErrorView>(
                    ErrorView::connection_failed(json_error_display(error)),
                ),
            },
    {
        match encoded {
            Ok(body) => Ok(HttpRequest { url, auth, body }),
            Err(error) => Err(Error::ConnectionFailed(json_error_text(&error))),
        }
    }
}

/// How far a commit or rollback has come.
#[derive(Debug)]
pub enum Ending {
    /// The control statement is on its way.
    Control { tx_id: u64 },
    /// The close request is on its way; the outcome of the control
    /// statement is kept for the caller.
    Closing { tx_id: u64, outcome: Result<(), Error> },
    /// Nothing is left to do.
    Done,
}

impl View for Ending {
    type V = EndingView;

    open spec fn view(&self) -> EndingView {
        match self {
            Ending::Control { tx_id } => EndingView::Control { tx_id: *tx_id },
            Ending::Closing { tx_id, outcome } => EndingView::Closing {
                tx_id: *tx_id,
                outcome: failure_view(*outcome),
            },
            Ending::Done => EndingView::Done,
        }
    }
}

/// What the caller of a commit or rollback does next.
#[derive(Debug)]
pub enum Action {
    /// Send the request and come back with what the transport gave.
    Send(HttpRequest),
    /// The operation is over, with this result.
    Return(Result<(), Error>),
}

impl View for Action {
    type V = ActionView;

    open spec fn view(&self) -> ActionView {
        match self {
            Action::Send(request) => ActionView::Send(request@),
            Action::Return(outcome) => ActionView::Return(failure_view(*outcome)),
        }
    }
}

/// A database client over HTTP. It sends nothing itself: it says what has to
/// be sent and takes what came back.
#[derive(Debug)]
pub struct Client {
    inner: InnerClient,
    cookies: Registry<Cookie>,
    url_for_queries: String,
    auth: String,
}

impl View for Client {
    type V = ClientView;

    closed spec fn view(&self) -> ClientView {
        ClientView {
            inner: self.inner,
            cookies: self.cookies@.map_values(|c: Cookie| c@),
            url_for_queries: self.url_for_queries@,
            auth: self.auth@,
        }
    }
}

/// Whether `url` names its protocol.
pub fn has_protocol(url: &str) -> (found: bool)
    ensures
        found == names_protocol(url@),
{
    // How much of `://` the characters just read make up.
    let mut matched: u8 = 0;
    for c in it: url.chars()
        invariant
            it.seq() == url@,
            matched <= 2,
            matched as int <= it.index(),
            matched >= 1 ==> url@[it.index() - matched] == ':',
            matched == 2 ==> url@[it.index() - 1] == '/',
            forall|i: int| scheme_mark_at(url@, i) ==> i + 3 > it.index(),
            forall|i: int| scheme_mark_at(url@, i) && i < it.index() ==> i == it.index() - matched,
    {
        if matched == 2 && c == '/' {
            assert(scheme_mark_at(url@, it.index() - 2));
            return true;
        }
        if matched == 1 && c == '/' {
            matched = 2;
        } else if c == ':' {
            matched = 1;
        } else {
            matched = 0;
        }
    }
    false
}

impl Client {
    /// A client for the database at `url` that authenticates with `token`.
    /// No transaction is open.
    pub fn new(inner: InnerClient, url: &str, token: &str) -> (client: Client)
        ensures
            client@ == ClientView::connecting(inner, url@, token@),
    {
        let mut url_for_queries = if has_protocol(url) {
            String::from_str(url)
        } else {
            String::from_str("https://").concat(url)
        };
        url_for_queries.append("v2/pipeline");
        let cookies = Registry::new();
        proof {
            assert(cookies@.map_values(|c: Cookie| c@) =~= Map::<u64, CookieView>::empty());
        }
        Client {
            inner,
            cookies,
            url_for_queries,
            auth: String::from_str("Bearer ").concat(token),
        }
    }

    /// A client for the database of a configuration. It cannot fail.
    pub fn from_config(inner: InnerClient, config: Config) -> (client: Result<Client, Error>)
        ensures
            client is Ok,
            client->Ok_0@ == ClientView::connecting(
                inner,
                url_text(config.url),
                token_text(config.auth_token.deep_view()),
            ),
    {
        let Config { url, auth_token } = config;
        let token = token_or_empty(auth_token);
        Ok(Client::new(inner, url_as_str(&url), token.as_str()))
    }

    /// A client made from the two settings of the environment: the URL of
    /// the database, which must be set, and the token, which may be missing.
    pub fn from_env(inner: InnerClient, url: Option<String>, token: Option<String>) -> (client:
        Result<Client, Error>)
        ensures
            match client {
                Ok(c) => url is Some && c@ == ClientView::connecting(
                    inner,
                    url->Some_0@,
                    token_text(token.deep_view()),
                ),
                Err(e) => url is None && e@ == ErrorView::misuse(
                    "LIBSQL_CLIENT_URL variable should point to your sqld database"@,
                ),
            },
    {
        let url = match url {
            Some(url) => url,
            None => {
                return Err(
                    Error::misuse("LIBSQL_CLIENT_URL variable should point to your sqld database"),
                );
            },
        };
        let token = token_or_empty(token);
        Ok(Client::new(inner, url.as_str(), token.as_str()))
    }

    /// Which backend sends the requests.
    pub fn inner(&self) -> (inner: InnerClient)
        ensures
            inner == self@.inner,
    {
        self.inner
    }

    /// The cookie that a call under `tx_id` goes out with.
    pub fn cookie_for(&self, tx_id: u64) -> (cookie: Cookie)
        ensures
            cookie@ == self@.cookie_in_use(tx_id),
    {
        if tx_id > 0 {
            match self.cookies.get(tx_id) {
                Some(cookie) => cookie.duplicate(),
                None => Cookie::fresh(),
            }
        } else {
            Cookie::fresh()
        }
    }

    /// The request that carries `requests` under `tx_id`.
    fn plan(&self, tx_id: u64, requests: Vec<StreamRequest>) -> (planned: Result<
        HttpRequest,
        Error,
    >)
        ensures
            result_view(planned) == self@.planned(tx_id, requests_content(requests@)),
    {
        let Cookie { baton, base_url } = self.cookie_for(tx_id);
        let url = match base_url {
            Some(url) => url,
            None => self.url_for_queries.clone(),
        };
        let encoded = encode_pipeline(baton, requests);
        HttpRequest::from_encoded(url, self.auth.clone(), encoded)
    }

    /// The request that executes `stmt` under `tx_id`; 0 stands for no
    /// transaction. It goes to where the server redirected the transaction
    /// to, with the continuation token of the transaction's last reply.
    pub fn execute_inner(&self, stmt: Statement, tx_id: u64) -> (planned: Result<
        HttpRequest,
        Error,
    >)
        ensures
            result_view(planned) == self@.planned_statement(tx_id, stmt@),
    {
        let mut requests = Vec::new();
        requests.push(request_execute(into_hrana(stmt)));
        proof {
            assert(requests_content(requests@) =~= seq![WireRequest::Execute(stmt@.wire())]);
        }
        self.plan(tx_id, requests)
    }

    /// The request that executes `stmt` outside any transaction. Nothing is
    /// kept of its reply: every such call stands alone.
    pub fn execute(&self, stmt: Statement) -> (planned: Result<HttpRequest, Error>)
        ensures
            result_view(planned) == self@.planned_statement(0, stmt@),
    {
        self.execute_inner(stmt, 0)
    }

    /// The request that executes `stmt` as the next statement of the
    /// transaction `tx_id`.
    pub fn execute_in_transaction(&self, tx_id: u64, stmt: Statement) -> (planned: Result<
        HttpRequest,
        Error,
    >)
        ensures
            result_view(planned) == self@.planned_statement(tx_id, stmt@),
    {
        self.execute_inner(stmt, tx_id)
    }

    /// Takes what came back for a statement sent under `tx_id`, the reply or
    /// the failure of the transport, and gives the statement's result.
    ///
    /// The token and the redirection of a reply take the place of the
    /// transaction's cookie, also where the reply is refused afterwards for
    /// its results. A reply without a token to a transaction is a connection
    /// failure and leaves the registry as it was, and so does a failure of
    /// the transport.
    pub fn finish_execute(&mut self, tx_id: u64, reply: Result<ServerMsg, Error>) -> (outcome:
        Result<ResultSet, Error>)
        ensures
            final(self)@ == old(self)@.after_reply(tx_id, result_view(reply)),
            result_view(outcome) == model::execute_outcome(tx_id, result_view(reply)),
    {
        let msg = match reply {
            Ok(msg) => msg,
            Err(failure) => {
                return Err(failure);
            },
        };
        let ghost seen = msg@;
        let ServerMsg { baton, base_url, mut results } = msg;
        if tx_id > 0 {
            match baton {
                Some(baton) => {
                    let cookie = Cookie { baton: Some(baton), base_url };
                    proof {
                        assert(self.cookies@.insert(tx_id, cookie).map_values(|c: Cookie| c@)
                            =~= self.cookies@.map_values(|c: Cookie| c@).insert(tx_id, cookie@));
                    }
                    self.cookies.store(tx_id, cookie);
                },
                None => {
                    return Err(
                        Error::connection_failed("Stream closed: server returned empty baton"),
                    );
                },
            }
        }
        if results.len() == 0 {
            return Err(Error::connection_failed("Unexpected empty response from server"));
        }
        if results.len() > 1 {
            return Err(Error::connection_failed("Unexpected multiple responses from server"));
        }
        assert(seen.results[0] == results@[0]@);
        match results.swap_remove(0) {
            StreamResult::Execute(rows) => Ok(ResultSet::from(rows)),
            StreamResult::Error(text) => Err(Error::ServerError(text)),
            _ => Err(Error::connection_failed("Unexpected response from server")),
        }
    }

    /// The request that executes `stmts` as one batch outside any
    /// transaction: one step for each statement, in the order given, and
    /// after the batch the step that closes the stream. It is one request,
    /// so one round trip, to the client's endpoint and without a token.
    pub fn raw_batch(&self, stmts: Vec<Statement>) -> (planned: Result<HttpRequest, Error>)
        ensures
            result_view(planned) == self@.planned(
                0,
                seq![WireRequest::Batch(batch_steps(stmts@)), WireRequest::Close],
            ),
    {
        let mut requests = Vec::new();
        requests.push(request_batch(into_batch(stmts)));
        requests.push(request_close());
        proof {
            assert(requests_content(requests@) =~= seq![
                WireRequest::Batch(batch_steps(stmts@)),
                WireRequest::Close,
            ]);
        }
        self.plan(0, requests)
    }

    /// Takes what came back for a batch, the reply or the failure of the
    /// transport, and gives the outcome of each statement, in the order of
    /// the statements. The reply holds the batch's result first and may
    /// hold, second, the acknowledgement of the close step.
    pub fn finish_batch(reply: Result<ServerMsg, Error>) -> (outcome: Result<BatchResult, Error>)
        ensures
            failure_view(outcome) == model::batch_outcome(result_view(reply)),
    {
        let msg = match reply {
            Ok(msg) => msg,
            Err(failure) => {
                return Err(failure);
            },
        };
        let ghost seen = msg@;
        let mut results = msg.results;
        if results.len() == 0 {
            return Err(Error::connection_failed("Unexpected empty response from server"));
        }
        if results.len() > 2 {
            return Err(Error::connection_failed("Unexpected multiple responses from server"));
        }
        assert(seen.results[0] == results@[0]@);
        match results.swap_remove(0) {
            StreamResult::Batch(outcomes) => Ok(outcomes),
            StreamResult::Error(text) => Err(Error::ServerError(text)),
            _ => Err(Error::connection_failed("Unexpected response from server")),
        }
    }

    /// The request that closes the session of `tx_id` on the server, with
    /// the transaction's latest cookie.
    pub fn close_stream_for(&self, tx_id: u64) -> (planned: Result<HttpRequest, Error>)
        ensures
            result_view(planned) == self@.planned(tx_id, seq![WireRequest::Close]),
    {
        let mut requests = Vec::new();
        requests.push(request_close());
        proof {
            assert(requests_content(requests@) =~= seq![WireRequest::Close]);
        }
        self.plan(tx_id, requests)
    }

    /// Drops the cookie of `tx_id`. Without a cookie nothing changes.
    pub fn forget(&mut self, tx_id: u64)
        ensures
            final(self)@ == old(self)@.forgetting(tx_id),
    {
        proof {
            assert(self.cookies@.remove(tx_id).map_values(|c: Cookie| c@) =~= self.cookies@.map_values(
                |c: Cookie| c@,
            ).remove(tx_id));
        }
        self.cookies.remove(tx_id);
    }

    /// Whether the transaction has a session.
    pub fn has_session(&self, tx_id: u64) -> (found: bool)
        ensures
            found == self@.cookies.contains_key(tx_id),
    {
        self.cookies.contains(tx_id)
    }

    /// The turn that releases the session of `tx_id`.
    fn close(&mut self, tx_id: u64, outcome: Result<(), Error>) -> (turn: (Ending, Action))
        ensures
            (Turn { client: final(self)@, ending: turn.0@, action: turn.1@ }) == old(
                self,
            )@.closing(tx_id, failure_view(outcome)),
    {
        match self.close_stream_for(tx_id) {
            Ok(request) => (Ending::Closing { tx_id, outcome }, Action::Send(request)),
            Err(_) => {
                self.forget(tx_id);
                (Ending::Done, Action::Return(outcome))
            },
        }
    }

    /// The first turn of a commit or rollback.
    fn end(&mut self, tx_id: u64, control: Control) -> (turn: (Ending, Action))
        ensures
            (Turn { client: final(self)@, ending: turn.0@, action: turn.1@ }) == old(
                self,
            )@.ending(tx_id, control),
    {
        if control == Control::Rollback && !self.has_session(tx_id) {
            return (Ending::Done, Action::Return(Ok(())));
        }
        match self.execute_inner(control.to_statement(), tx_id) {
            Ok(request) => (Ending::Control { tx_id }, Action::Send(request)),
            Err(failure) => self.close(tx_id, Err(failure)),
        }
    }

    /// Begins the commit of the transaction `tx_id`: the `COMMIT` statement
    /// goes out as any statement of the transaction. The caller sends what
    /// the action says and comes back with [`Client::resume`] until the
    /// action is to return.
    pub fn commit_transaction(&mut self, tx_id: u64) -> (turn: (Ending, Action))
        ensures
            (Turn { client: final(self)@, ending: turn.0@, action: turn.1@ }) == old(
                self,
            )@.ending(tx_id, Control::Commit),
    {
        self.end(tx_id, Control::Commit)
    }

    /// Begins the rollback of the transaction `tx_id`, as
    /// [`Client::commit_transaction`] does with `ROLLBACK`. Where the
    /// transaction has no session, nothing is sent, nothing changes, and the
    /// action is to return success.
    pub fn rollback_transaction(&mut self, tx_id: u64) -> (turn: (Ending, Action))
        ensures
            (Turn { client: final(self)@, ending: turn.0@, action: turn.1@ }) == old(
                self,
            )@.ending(tx_id, Control::Rollback),
    {
        self.end(tx_id, Control::Rollback)
    }

    /// Goes on with a commit or rollback once the transport has answered
    /// what the turn before had to send.
    ///
    /// After the control statement the session is closed on the server,
    /// whether the statement succeeded or not. After the close request,
    /// whatever came back for it, the cookie is dropped and the outcome of
    /// the control statement is returned.
    pub fn resume(&mut self, ending: Ending, reply: Result<ServerMsg, Error>) -> (turn: (
        Ending,
        Action,
    ))
        ensures
            (Turn { client: final(self)@, ending: turn.0@, action: turn.1@ }) == old(
                self,
            )@.resumed(ending@, result_view(reply)),
    {
        match ending {
            Ending::Control { tx_id } => {
                let outcome = match self.finish_execute(tx_id, reply) {
                    Ok(_) => Ok(()),
                    Err(failure) => Err(failure),
                };
                self.close(tx_id, outcome)
            },
            Ending::Closing { tx_id, outcome } => {
                self.forget(tx_id);
                (Ending::Done, Action::Return(outcome))
            },
            Ending::Done => (
                Ending::Done,
                Action::Return(Err(Error::misuse("No commit or rollback is under way"))),
            ),
        }
    }
}

} // verus!
