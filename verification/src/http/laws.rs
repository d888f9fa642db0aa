//! What holds of the cookie strategy whatever the server and the transport
//! do, proved of the functions of [`crate::http::model`].

use crate::error::{ErrorKind, ErrorView};
use crate::http::model::{
    execute_outcome, lost_baton_text, without_value, ActionView, ClientView, CookieView, Exchange,
    ServerMsgView,
};
use crate::result_set::ResultSetView;
use crate::statement::Control;
use crate::wire::{pipeline_json, WireRequest};
use vstd::prelude::*;

verus! {

/// Statements leave in the order of submission, each in a request of its
/// own: the request for call `i` of a transaction is encoded from statement
/// `i` alone. It continues the session where the call before left it: it
/// carries the token of that call's reply and goes to the endpoint which
/// that reply named, or to the client's own.
pub proof fn lemma_statements_keep_their_order(
    client: ClientView,
    tx_id: u64,
    exchanges: Seq<Exchange>,
    i: int,
)
    requires
        tx_id > 0,
        0 <= i < exchanges.len(),
    ensures
        ({
            let before = client.after_exchanges(tx_id, exchanges.take(i));
            let body = pipeline_json(
                before.cookie_in_use(tx_id).baton,
                seq![WireRequest::Execute(exchanges[i].stmt.wire())],
            );
            match client.sent(tx_id, exchanges, i) {
                Ok(request) => body == Ok::<Seq<char>, Seq<char>>(request.body),
                Err(failure) => body == Err::<Seq<char>, Seq<char>>(failure.message),
            }
        }),
        i > 0 && exchanges[i - 1].reply is Ok && exchanges[i - 1].reply->Ok_0.baton is Some ==> {
            let msg = exchanges[i - 1].reply->Ok_0;
            let before = client.after_exchanges(tx_id, exchanges.take(i));
            &&& before.cookie_in_use(tx_id).baton == msg.baton
            &&& before.url_in_use(tx_id) == match msg.base_url {
                Some(url) => url,
                None => client.url_for_queries,
            }
        },
{
    let before = client.after_exchanges(tx_id, exchanges.take(i));
    lemma_exchanges_keep_the_endpoint(client, tx_id, exchanges.take(i));
    if i > 0 {
        assert(exchanges.take(i).drop_last() =~= exchanges.take(i - 1));
        assert(exchanges.take(i).last() == exchanges[i - 1]);
    }
}

/// The calls of a transaction change neither the client's endpoint nor its
/// authorization header, and no cookie but that of the transaction.
pub proof fn lemma_exchanges_keep_the_endpoint(
    client: ClientView,
    tx_id: u64,
    exchanges: Seq<Exchange>,
)
    ensures
        client.after_exchanges(tx_id, exchanges).url_for_queries == client.url_for_queries,
        client.after_exchanges(tx_id, exchanges).auth == client.auth,
        forall|other: u64|
            other != tx_id ==> client.after_exchanges(tx_id, exchanges).cookies.contains_key(other)
                == client.cookies.contains_key(other) && client.after_exchanges(
                tx_id,
                exchanges,
            ).cookie_in_use(other) == #[trigger] client.cookie_in_use(other),
    decreases exchanges.len(),
{
    if exchanges.len() > 0 {
        lemma_exchanges_keep_the_endpoint(client, tx_id, exchanges.drop_last());
    }
}

/// A commit or rollback always ends, after the two requests at most that it
/// sends, and when it ends the registry holds nothing for the transaction,
/// whatever came back for either request. What it returns is the outcome of
/// the control statement: the close request cannot change it.
pub proof fn lemma_ending_forgets_the_session(
    client: ClientView,
    tx_id: u64,
    control: Control,
    first: Result<ServerMsgView, ErrorView>,
    second: Result<ServerMsgView, ErrorView>,
)
    ensures
        ({
            let begun = client.ending(tx_id, control);
            let resumed = begun.client.resumed(begun.ending, first);
            let closed = resumed.client.resumed(resumed.ending, second);
            let last = if begun.action is Return {
                begun
            } else if resumed.action is Return {
                resumed
            } else {
                closed
            };
            &&& last.action is Return
            &&& last.ending is Done
            &&& !last.client.cookies.contains_key(tx_id)
            &&& begun.ending is Control ==> last.action == ActionView::Return(
                without_value(execute_outcome(tx_id, first)),
            )
            &&& forall|other: u64|
                other != tx_id ==> last.client.cookie_in_use(other) == #[trigger] client.cookie_in_use(
                    other,
                )
        }),
{
}

/// A transaction whose cookie was dropped starts anew: the next request
/// under its id is that of a client which never saw the id. It carries no
/// token and goes to the client's own endpoint.
pub proof fn lemma_reuse_starts_afresh(client: ClientView, tx_id: u64, requests: Seq<WireRequest>)
    ensures
        client.forgetting(tx_id).cookie_in_use(tx_id) == CookieView::fresh(),
        client.forgetting(tx_id).url_in_use(tx_id) == client.url_for_queries,
        client.forgetting(tx_id).planned(tx_id, requests) == (ClientView {
            cookies: Map::empty(),
            ..client
        }).planned(tx_id, requests),
{
}

/// A reply to a single statement that holds no result, or more than one, is
/// a connection failure: no result is picked from it.
pub proof fn lemma_one_result_is_required(tx_id: u64, msg: ServerMsgView)
    requires
        msg.results.len() != 1,
    ensures
        execute_outcome(tx_id, Ok(msg)) matches Err(failure) && failure.kind
            == ErrorKind::ConnectionFailed,
{
}

/// A transaction whose first reply holds no continuation token fails with a
/// connection failure and gets no entry in the registry.
pub proof fn lemma_first_reply_needs_a_token(client: ClientView, tx_id: u64, msg: ServerMsgView)
    requires
        tx_id > 0,
        !client.cookies.contains_key(tx_id),
        msg.baton is None,
    ensures
        execute_outcome(tx_id, Ok(msg)) == Err::<ResultSetView, ErrorView>(
            ErrorView::connection_failed(lost_baton_text()),
        ),
        !client.after_reply(tx_id, Ok(msg)).cookies.contains_key(tx_id),
        client.after_reply(tx_id, Ok(msg)) == client,
{
}

/// A statement that fails leaves the session of its transaction in the
/// registry: with the token of the reply where there is one, untouched
/// where the transport failed or the token is missing.
pub proof fn lemma_failure_keeps_the_session(
    client: ClientView,
    tx_id: u64,
    reply: Result<ServerMsgView, ErrorView>,
)
    requires
        client.cookies.contains_key(tx_id),
    ensures
        client.after_reply(tx_id, reply).cookies.contains_key(tx_id),
        reply is Err ==> client.after_reply(tx_id, reply) == client,
{
}

/// A call outside any transaction keeps nothing: whatever came back, the
/// client is as it was.
pub proof fn lemma_plain_calls_stand_alone(client: ClientView, reply: Result<ServerMsgView, ErrorView>)
    ensures
        client.after_reply(0, reply) == client,
        client.cookie_in_use(0) == CookieView::fresh(),
{
}

} // verus!
