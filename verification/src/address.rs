//! The address of a database: a URL, as the `url` crate parses and writes it.
//!
//! A `Url` is opaque here. What the `url` crate computes of one has a name,
//! and the functions of this module that call the crate say of their result
//! that it is the value so named. None of these statements is proved.

use url::{ParseError, Url};
use vstd::prelude::*;
use vstd::string::*;

verus! {

/// The longest URL, in characters, whose query this module writes anew.
///
/// The `url` crate holds a URL in at most `u32::MAX` bytes. A URL within
/// this limit, written anew with parameters of its own query, stays within
/// that: a character takes at most four bytes, and twelve once it is
/// encoded for a query, so the URL grows to eighteen times its characters
/// at most.
pub const MAX_URL_LEN: usize = 238_609_294;

/// `url::Url`: a parsed URL.
#[verifier::external_type_specification]
#[verifier::external_body]
pub struct ExUrl(Url);

/// `url::ParseError`: why a text is no URL.
#[verifier::external_type_specification]
#[verifier::external_body]
pub struct ExParseError(ParseError);

/// The serialization of a URL: what `Url::as_str` gives.
pub uninterp spec fn url_text(url: Url) -> Seq<char>;

/// The pairs of name and value in the query of a URL, decoded and in order:
/// what `Url::query_pairs` yields.
pub uninterp spec fn url_query_pairs(url: Url) -> Seq<(Seq<char>, Seq<char>)>;

/// The URL that `Url::query_pairs_mut` makes of `url` when the query is
/// cleared and then extended by `pairs`.
pub uninterp spec fn url_with_pairs(url: Url, pairs: Seq<(Seq<char>, Seq<char>)>) -> Url;

/// What `Url::parse` makes of a text: the URL, or `None` where it fails.
pub uninterp spec fn url_parsed(text: Seq<char>) -> Option<Url>;

/// Whether `scheme` is the scheme that the text of a URL begins with: what
/// stands before its first colon.
pub open spec fn is_scheme_of(scheme: Seq<char>, text: Seq<char>) -> bool {
    &&& scheme.len() < text.len()
    &&& text.take(scheme.len() as int) == scheme
    &&& text[scheme.len() as int] == ':'
    &&& !scheme.contains(':')
}

/// The characters of all names and values of the pairs together.
pub open spec fn pairs_chars(pairs: Seq<(Seq<char>, Seq<char>)>) -> nat
    decreases pairs.len(),
{
    if pairs.len() == 0 {
        0
    } else {
        pairs_chars(pairs.drop_last()) + pairs.last().0.len() + pairs.last().1.len()
    }
}

/// Pairs of texts as mathematical values.
pub open spec fn pairs_view(pairs: Seq<(String, String)>) -> Seq<(Seq<char>, Seq<char>)> {
    pairs.map_values(|p: (String, String)| (p.0@, p.1@))
}

/// `Url::as_str`.
#[verifier::external_body]
pub(crate) fn url_as_str(url: &Url) -> (text: &str)
    ensures
        text@ == url_text(*url),
{
    url.as_str()
}

/// `Url::scheme`: the part of the serialization before its first colon.
#[verifier::external_body]
pub(crate) fn url_scheme_of(url: &Url) -> (scheme: &str)
    ensures
        is_scheme_of(scheme@, url_text(*url)),
{
    url.scheme()
}

/// `Url::query_pairs`, its items collected as owned texts.
///
/// The pairs are cut out of the query and decoded, which adds no character:
/// there are no more pairs, and no more characters in them, than the URL
/// has characters.
#[verifier::external_body]
pub(crate) fn url_pairs(url: &Url) -> (pairs: Vec<(String, String)>)
    ensures
        pairs_view(pairs@) == url_query_pairs(*url),
        pairs@.len() <= url_text(*url).len(),
        pairs_chars(pairs_view(pairs@)) <= url_text(*url).len(),
{
    url.query_pairs().into_owned().collect()
}

/// `Url::query_pairs_mut`, then `clear` and `extend_pairs` on what it gives:
/// the query of the URL is written anew from `pairs`.
///
/// The `url` crate panics where the URL that it writes takes more than
/// `u32::MAX` bytes. The three limits keep it from that: the URL had at
/// most four bytes for each of its characters, and the new query takes at
/// most twelve bytes for each character of the pairs and two for each pair.
#[verifier::external_body]
pub(crate) fn url_set_pairs(url: &mut Url, pairs: &Vec<(String, String)>)
    requires
        url_text(*old(url)).len() <= MAX_URL_LEN,
        pairs@.len() <= MAX_URL_LEN,
        pairs_chars(pairs_view(pairs@)) <= MAX_URL_LEN,
    ensures
        *final(url) == url_with_pairs(*old(url), pairs_view(pairs@)),
{
    url.query_pairs_mut().clear().extend_pairs(pairs.iter());
}

/// `Url::parse`.
#[verifier::external_body]
pub(crate) fn url_parse(text: &str) -> (parsed: Result<Url, ParseError>)
    ensures
        url_parsed(text@) == match parsed {
            Ok(url) => Some(url),
            Err(_) => None::<Url>,
        },
{
    Url::parse(text)
}

/// Whether the pair at index `i` is the first one with this name.
pub open spec fn is_first_named(pairs: Seq<(Seq<char>, Seq<char>)>, name: Seq<char>, i: int) -> bool {
    &&& 0 <= i < pairs.len()
    &&& pairs[i].0 == name
    &&& forall|j: int| 0 <= j < i ==> (#[trigger] pairs[j]).0 != name
}

/// Whether a pair has this name.
pub open spec fn has_named(pairs: Seq<(Seq<char>, Seq<char>)>, name: Seq<char>) -> bool {
    exists|i: int| is_first_named(pairs, name, i)
}

/// The index of the first pair with this name, where there is one.
pub open spec fn first_named(pairs: Seq<(Seq<char>, Seq<char>)>, name: Seq<char>) -> int {
    choose|i: int| is_first_named(pairs, name, i)
}

/// The value of the first pair with this name.
pub open spec fn popped_value(pairs: Seq<(Seq<char>, Seq<char>)>, name: Seq<char>) -> Option<
    Seq<char>,
> {
    if has_named(pairs, name) {
        Some(pairs[first_named(pairs, name)].1)
    } else {
        None
    }
}

/// The pairs without the first one with this name, in their order.
pub open spec fn popped_rest(pairs: Seq<(Seq<char>, Seq<char>)>, name: Seq<char>) -> Seq<
    (Seq<char>, Seq<char>),
> {
    if has_named(pairs, name) {
        pairs.remove(first_named(pairs, name))
    } else {
        pairs
    }
}

/// The URL without the first parameter named `param` in its query.
pub open spec fn url_without_param(url: Url, param: Seq<char>) -> Url {
    url_with_pairs(url, popped_rest(url_query_pairs(url), param))
}

/// To take a pair out adds no character to the pairs.
pub proof fn lemma_removal_adds_no_characters(pairs: Seq<(Seq<char>, Seq<char>)>, i: int)
    requires
        0 <= i < pairs.len(),
    ensures
        pairs_chars(pairs.remove(i)) + pairs[i].0.len() + pairs[i].1.len() == pairs_chars(pairs),
    decreases pairs.len(),
{
    if i == pairs.len() - 1 {
        assert(pairs.remove(i) =~= pairs.drop_last());
    } else {
        lemma_removal_adds_no_characters(pairs.drop_last(), i);
        assert(pairs.remove(i).drop_last() =~= pairs.drop_last().remove(i));
        assert(pairs.remove(i).last() == pairs.last());
    }
}

/// Takes the first pair named `name` out of `pairs` and returns its value.
/// The other pairs keep their order.
pub fn take_first_named(pairs: &mut Vec<(String, String)>, name: &str) -> (value: Option<String>)
    ensures
        value.deep_view() == popped_value(pairs_view(old(pairs)@), name@),
        pairs_view(final(pairs)@) == popped_rest(pairs_view(old(pairs)@), name@),
        final(pairs)@.len() <= old(pairs)@.len(),
        pairs_chars(pairs_view(final(pairs)@)) <= pairs_chars(pairs_view(old(pairs)@)),
{
    let ghost all = pairs_view(pairs@);
    let wanted = String::from_str(name);
    let mut value: Option<String> = None;
    let mut i: usize = 0;
    while i < pairs.len()
        invariant_except_break
            i <= pairs.len(),
            pairs_view(pairs@) == all,
            value is None,
            forall|j: int| 0 <= j < i ==> (#[trigger] all[j]).0 != name@,
        invariant
            wanted@ == name@,
        ensures
            match value {
                Some(v) => is_first_named(all, name@, i as int) && v@ == all[i as int].1
                    && pairs_view(pairs@) == all.remove(i as int),
                None => !has_named(all, name@) && pairs_view(pairs@) == all,
            },
        decreases pairs.len() - i,
    {
        assert(all[i as int] == (pairs@[i as int].0@, pairs@[i as int].1@));
        if pairs[i].0 == wanted {
            let pair = pairs.remove(i);
            assert(pairs_view(pairs@) =~= all.remove(i as int));
            value = Some(pair.1);
            break;
        }
        i += 1;
    }
    proof {
        if value is Some {
            assert(has_named(all, name@));
            assert(is_first_named(all, name@, first_named(all, name@)));
            lemma_removal_adds_no_characters(all, i as int);
        }
    }
    value
}

/// Takes the first parameter named `param` out of the query of the URL and
/// returns its value. The query is written anew from the parameters that
/// stay, also where none was taken.
pub fn pop_query_param(url: &mut Url, param: &str) -> (value: Option<String>)
    requires
        url_text(*old(url)).len() <= MAX_URL_LEN,
    ensures
        value.deep_view() == popped_value(url_query_pairs(*old(url)), param@),
        *final(url) == url_without_param(*old(url), param@),
{
    let mut pairs = url_pairs(url);
    let value = take_first_named(&mut pairs, param);
    url_set_pairs(url, &pairs);
    value
}

/// The mark that a `libsql` URL begins with.
pub open spec fn libsql_mark() -> Seq<char> {
    "libsql://"@
}

/// A `libsql` URL with `wss` for its protocol, where the text begins with
/// the mark.
pub open spec fn websocket_text(text: Seq<char>) -> Option<Seq<char>> {
    if libsql_mark().is_prefix_of(text) {
        Some("wss://"@ + text.skip(libsql_mark().len() as int))
    } else {
        None
    }
}

/// Puts `wss` for the protocol of a `libsql` URL. Gives `None` for a text
/// that does not begin as such a URL does.
pub fn into_websocket(text: &str) -> (websocket: Option<String>)
    ensures
        websocket.deep_view() == websocket_text(text@),
{
    proof {
        reveal_strlit("libsql://");
    }
    let len = text.unicode_len();
    if len < 9 {
        return None;
    }
    let head = String::from_str(text.substring_char(0, 9));
    if head != String::from_str("libsql://") {
        assert(!libsql_mark().is_prefix_of(text@)) by {
            if libsql_mark().is_prefix_of(text@) {
                assert(text@.subrange(0, 9) =~= libsql_mark());
            }
        }
        return None;
    }
    assert(libsql_mark().is_prefix_of(text@)) by {
        assert(text@.subrange(0, 9) == libsql_mark());
        assert(forall|i: int| 0 <= i < 9 ==> text@[i] == text@.subrange(0, 9)[i]);
    }
    let rest = text.substring_char(9, len);
    assert(rest@ =~= text@.skip(9));
    Some(String::from_str("wss://").concat(rest))
}

/// A text has one scheme at most.
pub proof fn lemma_scheme_is_unique(first: Seq<char>, second: Seq<char>, text: Seq<char>)
    requires
        is_scheme_of(first, text),
        is_scheme_of(second, text),
    ensures
        first == second,
{
    if first.len() < second.len() {
        assert(second[first.len() as int] == text[first.len() as int]);
    } else if second.len() < first.len() {
        assert(first[second.len() as int] == text[second.len() as int]);
    } else {
        assert(first =~= second);
    }
}

/// The text to connect to for the database at `url`: the URL as it is
/// written, but that a `libsql` URL is parsed again with `wss` for its
/// protocol. `None` where that cannot be done.
pub open spec fn connection_text(url: Url) -> Option<Seq<char>> {
    if is_scheme_of("libsql"@, url_text(url)) {
        match websocket_text(url_text(url)) {
            Some(text) => match url_parsed(text) {
                Some(websocket) => Some(url_text(websocket)),
                None => None,
            },
            None => None,
        }
    } else {
        Some(url_text(url))
    }
}

/// The text to connect to for the database at `url`.
pub fn connection_url(url: &Url) -> (text: Option<String>)
    ensures
        text.deep_view() == connection_text(*url),
{
    let scheme = String::from_str(url_scheme_of(url));
    proof {
        if is_scheme_of("libsql"@, url_text(*url)) {
            lemma_scheme_is_unique(scheme@, "libsql"@, url_text(*url));
        }
    }
    if scheme == String::from_str("libsql") {
        match into_websocket(url_as_str(url)) {
            Some(text) => match url_parse(text.as_str()) {
                Ok(websocket) => Some(String::from_str(url_as_str(&websocket))),
                Err(_) => None,
            },
            None => None,
        }
    } else {
        Some(String::from_str(url_as_str(url)))
    }
}

} // verus!
