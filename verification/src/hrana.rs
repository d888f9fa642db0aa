//! The stream strategy: transactions over a persistent connection.
//!
//! A transaction is bound to one stream of the connection. The stream is
//! opened for the first statement of the transaction, serves every statement
//! after it, and is given up with the commit or rollback.

use crate::address::{
    connection_text, connection_url, pop_query_param, popped_value, url_as_str, url_query_pairs,
    url_text, url_without_param, MAX_URL_LEN,
};
use crate::config::{token_or_empty, token_text, Config};
use crate::error::{Error, ErrorView};
use crate::registry::Registry;
use crate::statement::{into_hrana, Control, Statement};
use crate::wire::stmt_content;
use hrana_client::proto::Stmt;
use url::Url;
use vstd::prelude::*;
use vstd::string::*;

verus! {

/// What a commit or rollback asks of the caller.
#[derive(Debug)]
pub enum Release<S> {
    /// Execute the statement on this stream, the transaction's own, and let
    /// go of the stream whatever the outcome is.
    OnStream(S, Stmt),
    /// The transaction has no stream: execute the statement on a new one.
    OnFreshStream(Stmt),
    /// There is nothing to do.
    Nothing,
}

/// A client as a mathematical value.
pub struct ClientView<S> {
    pub url: Seq<char>,
    pub token: Option<Seq<char>>,
    pub streams: Map<u64, S>,
}

impl<S> ClientView<S> {
    /// The client for the database at `url`, with no transaction open. An
    /// empty token stands for none.
    pub open spec fn connecting(url: Seq<char>, token: Seq<char>) -> ClientView<S> {
        ClientView {
            url,
            token: if token.len() == 0 {
                None
            } else {
                Some(token)
            },
            streams: Map::empty(),
        }
    }

    /// Whether a statement of the transaction needs a stream to be opened:
    /// whether the transaction has none.
    pub open spec fn opens(self, tx_id: u64) -> bool {
        !self.streams.contains_key(tx_id)
    }

    /// The stream on which a statement of the transaction is executed,
    /// where `opened` is the one that the transport opens if it is asked:
    /// the transaction's own, or else `opened`.
    pub open spec fn stream_in_use(self, tx_id: u64, opened: S) -> S {
        if self.streams.contains_key(tx_id) {
            self.streams[tx_id]
        } else {
            opened
        }
    }

    /// The client after a statement of the transaction: the stream that
    /// was opened for it is bound to the transaction.
    pub open spec fn after_statement(self, tx_id: u64, opened: S) -> ClientView<S> {
        ClientView { streams: Registry::published(self.streams, tx_id, opened), ..self }
    }

    /// The client after as many statements of the transaction as `opened`
    /// is long, one after the other, where the transport would open
    /// `opened[i]` for statement `i`.
    pub open spec fn after_statements(self, tx_id: u64, opened: Seq<S>) -> ClientView<S>
        decreases opened.len(),
    {
        if opened.len() == 0 {
            self
        } else {
            self.after_statements(tx_id, opened.drop_last()).after_statement(
                tx_id,
                opened.last(),
            )
        }
    }

    /// The client after the commit or rollback of the transaction.
    pub open spec fn released(self, tx_id: u64) -> ClientView<S> {
        ClientView { streams: self.streams.remove(tx_id), ..self }
    }

    /// Whether a transaction holds the stream.
    pub open spec fn holds(self, stream: S) -> bool {
        exists|tx_id: u64| #[trigger] self.streams.contains_key(tx_id) && self.streams[tx_id] == stream
    }

    /// Whether no two transactions hold the same stream.
    pub open spec fn shares_nothing(self) -> bool {
        forall|a: u64, b: u64|
            a != b && #[trigger] self.streams.contains_key(a) && #[trigger] self.streams.contains_key(b)
                ==> self.streams[a] != self.streams[b]
    }
}

/// The text of the error for a `libsql` URL that cannot be written as a
/// websocket URL.
pub open spec fn no_websocket_text() -> Seq<char> {
    "The libsql URL cannot be turned into a websocket URL"@
}

/// The text of the error for a URL that is too long to be taken apart.
pub open spec fn long_url_text() -> Seq<char> {
    "The URL is too long"@
}

/// A database client over a persistent connection, for streams of type `S`.
/// It neither connects nor sends: it keeps the stream of each transaction.
#[derive(Debug)]
pub struct Client<S> {
    url: String,
    token: Option<String>,
    streams_for_transactions: Registry<S>,
}

impl<S> View for Client<S> {
    type V = ClientView<S>;

    closed spec fn view(&self) -> ClientView<S> {
        ClientView {
            url: self.url@,
            token: self.token.deep_view(),
            streams: self.streams_for_transactions@,
        }
    }
}

impl<S> Client<S> {
    /// A client for the database at `url`. An empty token stands for none.
    /// No transaction is open.
    pub fn new(url: &str, token: &str) -> (client: Self)
        ensures
            client@ == ClientView::<S>::connecting(url@, token@),
    {
        let token = if token.is_empty() {
            None
        } else {
            Some(String::from_str(token))
        };
        Client { url: String::from_str(url), token, streams_for_transactions: Registry::new() }
    }

    /// A client for the database at a URL that may hold the token as its
    /// parameter `authToken`.
    ///
    /// The token is taken out of the URL, so that it is not written
    /// wherever the URL is. A `libsql` URL is connected to as a websocket
    /// URL; where it cannot be turned into one, it is refused as a misuse,
    /// and so is a URL of more than [`MAX_URL_LEN`] characters.
    pub fn from_url(url: Url) -> (client: Result<Self, Error>)
        ensures
            if url_text(url).len() > MAX_URL_LEN {
                client is Err && client->Err_0@ == ErrorView::misuse(long_url_text())
            } else {
                match connection_text(url_without_param(url, "authToken"@)) {
                    Some(text) => client is Ok && client->Ok_0@ == ClientView::<S>::connecting(
                        text,
                        token_text(popped_value(url_query_pairs(url), "authToken"@)),
                    ),
                    None => client is Err && client->Err_0@ == ErrorView::misuse(
                        no_websocket_text(),
                    ),
                }
            },
    {
        let mut url = url;
        if url_as_str(&url).unicode_len() > MAX_URL_LEN {
            return Err(Error::misuse("The URL is too long"));
        }
        let token = token_or_empty(pop_query_param(&mut url, "authToken"));
        match connection_url(&url) {
            Some(text) => Ok(Client::new(text.as_str(), token.as_str())),
            None => Err(Error::misuse("The libsql URL cannot be turned into a websocket URL")),
        }
    }

    /// A client for the database of a configuration.
    pub fn from_config(config: Config) -> (client: Self)
        ensures
            client@ == ClientView::<S>::connecting(
                url_text(config.url),
                token_text(config.auth_token.deep_view()),
            ),
    {
        let Config { url, auth_token } = config;
        let token = token_or_empty(auth_token);
        Client::new(url_as_str(&url), token.as_str())
    }

    /// The URL to connect to.
    pub fn url(&self) -> (url: &str)
        ensures
            url@ == self@.url,
    {
        self.url.as_str()
    }

    /// The token to authenticate with, if there is one.
    pub fn token(&self) -> (token: Option<&str>)
        ensures
            match token {
                Some(t) => self@.token == Some(t@),
                None => self@.token is None,
            },
    {
        match &self.token {
            Some(t) => Some(t.as_str()),
            None => None,
        }
    }

    /// The stream of the transaction, if it has one. Where it has none the
    /// caller opens one and hands it to [`Client::publish_stream`].
    pub fn stream_for_transaction(&self, tx_id: u64) -> (stream: Option<&S>)
        ensures
            match stream {
                Some(s) => self@.streams.contains_key(tx_id) && *s == self@.streams[tx_id],
                None => !self@.streams.contains_key(tx_id),
            },
    {
        self.streams_for_transactions.get(tx_id)
    }

    /// Says where the next statement of the transaction `tx_id` is
    /// executed, and gives the statement as it is sent: on the stream of
    /// the transaction, or, where it has none, on one that the caller opens
    /// and hands to [`Client::publish_stream`].
    pub fn execute_in_transaction(&self, tx_id: u64, stmt: Statement) -> (plan: (
        Option<&S>,
        Stmt,
    ))
        ensures
            stmt_content(plan.1) == stmt@.wire(),
            match plan.0 {
                Some(stream) => !self@.opens(tx_id) && *stream == self@.streams[tx_id],
                None => self@.opens(tx_id),
            },
    {
        (self.streams_for_transactions.get(tx_id), into_hrana(stmt))
    }

    /// Binds a newly opened stream to the transaction, unless it has got
    /// one since the caller looked: then that one stays and `stream` is
    /// dropped. Either way the transaction has a stream afterwards, the one
    /// to execute on. Returns whether `stream` was bound.
    pub fn publish_stream(&mut self, tx_id: u64, stream: S) -> (bound: bool)
        ensures
            bound == old(self)@.opens(tx_id),
            final(self)@ == old(self)@.after_statement(tx_id, stream),
            final(self)@.streams.contains_key(tx_id),
            final(self)@.streams[tx_id] == old(self)@.stream_in_use(tx_id, stream),
    {
        self.streams_for_transactions.publish(tx_id, stream)
    }

    /// Takes the stream of the transaction out of the registry. Without a
    /// stream nothing changes.
    pub fn drop_stream_for_transaction(&mut self, tx_id: u64) -> (stream: Option<S>)
        ensures
            final(self)@ == old(self)@.released(tx_id),
            stream == if old(self)@.streams.contains_key(tx_id) {
                Some(old(self)@.streams[tx_id])
            } else {
                None
            },
    {
        self.streams_for_transactions.remove(tx_id)
    }

    /// Ends the transaction: its stream leaves the registry at once, so
    /// that the id is free whatever becomes of the control statement, and is
    /// handed to the caller with the statement to execute on it.
    ///
    /// The rollback of a transaction without a stream is nothing to do. Its
    /// commit goes to a new stream.
    fn end(&mut self, tx_id: u64, control: Control) -> (release: Release<S>)
        ensures
            final(self)@ == old(self)@.released(tx_id),
            match release {
                Release::OnStream(stream, stmt) => {
                    &&& old(self)@.streams.contains_key(tx_id)
                    &&& stream == old(self)@.streams[tx_id]
                    &&& stmt_content(stmt) == control.statement().wire()
                },
                Release::OnFreshStream(stmt) => {
                    &&& !old(self)@.streams.contains_key(tx_id)
                    &&& control == Control::Commit
                    &&& stmt_content(stmt) == control.statement().wire()
                },
                Release::Nothing => {
                    &&& !old(self)@.streams.contains_key(tx_id)
                    &&& control == Control::Rollback
                },
            },
    {
        match self.streams_for_transactions.remove(tx_id) {
            Some(stream) => Release::OnStream(stream, into_hrana(control.to_statement())),
            None => match control {
                Control::Commit => Release::OnFreshStream(into_hrana(control.to_statement())),
                Control::Rollback => Release::Nothing,
            },
        }
    }

    /// Commits the transaction `tx_id`: its stream leaves the registry and
    /// is handed to the caller with the `COMMIT` statement.
    pub fn commit_transaction(&mut self, tx_id: u64) -> (release: Release<S>)
        ensures
            final(self)@ == old(self)@.released(tx_id),
            match release {
                Release::OnStream(stream, stmt) => {
                    &&& old(self)@.streams.contains_key(tx_id)
                    &&& stream == old(self)@.streams[tx_id]
                    &&& stmt_content(stmt) == Control::Commit.statement().wire()
                },
                Release::OnFreshStream(stmt) => {
                    &&& !old(self)@.streams.contains_key(tx_id)
                    &&& stmt_content(stmt) == Control::Commit.statement().wire()
                },
                Release::Nothing => false,
            },
    {
        self.end(tx_id, Control::Commit)
    }

    /// Rolls the transaction `tx_id` back: its stream leaves the registry
    /// and is handed to the caller with the `ROLLBACK` statement. Where the
    /// transaction has no stream, nothing is to be done.
    pub fn rollback_transaction(&mut self, tx_id: u64) -> (release: Release<S>)
        ensures
            final(self)@ == old(self)@.released(tx_id),
            match release {
                Release::OnStream(stream, stmt) => {
                    &&& old(self)@.streams.contains_key(tx_id)
                    &&& stream == old(self)@.streams[tx_id]
                    &&& stmt_content(stmt) == Control::Rollback.statement().wire()
                },
                Release::OnFreshStream(_) => false,
                Release::Nothing => !old(self)@.streams.contains_key(tx_id),
            },
    {
        self.end(tx_id, Control::Rollback)
    }
}

/// One stream serves a transaction: of the statements that follow each
/// other under an id without a stream, the first has a stream opened and
/// no other has, and each is executed on the stream that was opened for
/// the first, whatever the transport would have opened for it. On one
/// stream the statements arrive in the order in which they are executed.
pub proof fn lemma_one_stream_serves_a_transaction<S>(
    client: ClientView<S>,
    tx_id: u64,
    opened: Seq<S>,
    i: int,
)
    requires
        client.opens(tx_id),
        0 <= i < opened.len(),
    ensures
        client.after_statements(tx_id, opened.take(i)).opens(tx_id) == (i == 0),
        client.after_statements(tx_id, opened.take(i)).stream_in_use(tx_id, opened[i])
            == opened[0],
        client.after_statements(tx_id, opened.take(i + 1)).streams.contains_key(tx_id),
        client.after_statements(tx_id, opened.take(i + 1)).streams[tx_id] == opened[0],
    decreases i,
{
    assert(opened.take(i + 1).drop_last() =~= opened.take(i));
    assert(opened.take(i + 1).last() == opened[i]);
    if i > 0 {
        lemma_one_stream_serves_a_transaction(client, tx_id, opened, i - 1);
    } else {
        assert(opened.take(0).len() == 0);
    }
}

/// A transaction that was committed or rolled back has no stream, and its
/// id starts anew: the next statement under it has a stream opened, is
/// executed on that one, and binds it to the id. The transactions with
/// other ids keep their streams.
pub proof fn lemma_released_id_starts_anew<S>(client: ClientView<S>, tx_id: u64, next: S)
    ensures
        client.released(tx_id).opens(tx_id),
        client.released(tx_id).stream_in_use(tx_id, next) == next,
        client.released(tx_id).after_statement(tx_id, next).streams[tx_id] == next,
        forall|other: u64|
            other != tx_id ==> client.released(tx_id).streams.contains_key(other)
                == #[trigger] client.streams.contains_key(other) && client.released(
                tx_id,
            ).streams[other] == client.streams[other],
{
}

/// Transactions do not come to share a stream: where no two of them hold
/// the same one and the transport opens one that none of them holds, no two
/// hold the same one after a statement, and none do after a commit or
/// rollback.
pub proof fn lemma_streams_stay_apart<S>(client: ClientView<S>, tx_id: u64, opened: S)
    requires
        client.shares_nothing(),
        !client.holds(opened),
    ensures
        client.after_statement(tx_id, opened).shares_nothing(),
        client.released(tx_id).shares_nothing(),
{
    let after = client.after_statement(tx_id, opened);
    assert forall|a: u64, b: u64|
        a != b && #[trigger] after.streams.contains_key(a) && #[trigger] after.streams.contains_key(
            b,
        ) implies after.streams[a] != after.streams[b] by {
        if client.streams.contains_key(a) && client.streams.contains_key(b) {
        } else if client.streams.contains_key(a) {
            assert(after.streams[b] == opened);
        } else if client.streams.contains_key(b) {
            assert(after.streams[a] == opened);
        }
    }
}

/// Two transactions that begin with streams of their own each find their
/// own: the streams that the transport opened for their first statements
/// are the ones that serve them afterwards, and they differ as those did.
pub proof fn lemma_transactions_get_streams_of_their_own<S>(
    client: ClientView<S>,
    first: u64,
    second: u64,
    first_stream: S,
    second_stream: S,
)
    requires
        first != second,
        client.opens(first),
        client.opens(second),
        first_stream != second_stream,
    ensures
        ({
            let after = client.after_statement(first, first_stream).after_statement(
                second,
                second_stream,
            );
            &&& after.streams[first] == first_stream
            &&& after.streams[second] == second_stream
            &&& after.streams[first] != after.streams[second]
        }),
{
}

} // verus!
