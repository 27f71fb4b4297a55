//! How an authorization outcome reaches the user agent: a redirect back to
//! the client carrying the result in the query, or, for an unregistered
//! redirect URI, a direct answer.

use vstd::prelude::*;
use vstd::string::*;
use crate::entity::opt_view;
use crate::error::{Error, ErrorKind, ErrorView, error_line, kind_wire};
use crate::response::{AuthorizationResponse, AuthorizationResponseView};

verus! {

/// The `application/x-www-form-urlencoded` form of a sequence of pairs.
pub uninterp spec fn form_urlencoded(pairs: Seq<(Seq<char>, Seq<char>)>) -> Seq<char>;

/// The views of a sequence of string pairs.
pub open spec fn pair_views(v: Seq<(String, String)>) -> Seq<(Seq<char>, Seq<char>)> {
    v.map_values(|p: (String, String)| (p.0@, p.1@))
}

/// Relies on `serde_urlencoded::to_string`: a sequence of string pairs is
/// written as `key=value` parts joined by `&`, each key and value encoded;
/// string keys and values never make it fail.
#[verifier::external_body]
fn encode_pairs(pairs: &Vec<(String, String)>) -> (r: Option<String>)
    ensures
        r is Some,
        r matches Some(s) ==> s@ == form_urlencoded(pair_views(pairs@)),
{
    serde_urlencoded::to_string(pairs).ok()
}

/// The pair `(key, value)` where a value is given.
pub open spec fn opt_pair(key: Seq<char>, v: Option<Seq<char>>) -> Seq<(Seq<char>, Seq<char>)> {
    match v {
        Some(x) => seq![(key, x)],
        None => seq![],
    }
}

/// The query that carries an issued code back to the client.
pub open spec fn success_pairs(sig: Seq<char>, state: Option<Seq<char>>) -> Seq<
    (Seq<char>, Seq<char>),
> {
    seq![("code"@, sig)] + opt_pair("state"@, state)
}

/// The query that carries an error back to the client.
pub open spec fn error_pairs(e: ErrorView, state: Option<Seq<char>>) -> Seq<
    (Seq<char>, Seq<char>),
> {
    seq![("error"@, kind_wire(e.kind)), ("error_description"@, e.description)] + opt_pair(
        "error_uri"@,
        e.uri,
    ) + opt_pair("state"@, state)
}

/// The pairs of the query for an outcome: the code and the response's
/// state, or the error and `state`.
pub open spec fn view_pairs(
    outcome: Result<AuthorizationResponseView, ErrorView>,
    state: Option<Seq<char>>,
) -> Seq<(Seq<char>, Seq<char>)> {
    match outcome {
        Ok(resp) => success_pairs(resp.code.signature, resp.state),
        Err(e) => error_pairs(e, state),
    }
}

/// The URL `uri` with its query replaced by `query`, serialized; `None`
/// where `uri` is not a valid absolute URL.
pub uninterp spec fn url_with_query(uri: Seq<char>, query: Seq<char>) -> Option<Seq<char>>;

/// Relies on `url::Url::parse`, `Url::set_query` and the URL's serialization
/// (`String::from`): parses `uri`, replaces its query (a fragment is kept
/// after it) and writes the URL back; `None` where `uri` does not parse.
#[verifier::external_body]
fn replace_query(uri: &str, query: &str) -> (r: Option<String>)
    ensures
        opt_view(r) == url_with_query(uri@, query@),
{
    let mut url = url::Url::parse(uri).ok()?;
    url.set_query(Some(query));
    Some(String::from(url))
}

/// The mathematical value of a [`Reply`].
pub enum ReplyView {
    Redirect(Seq<char>),
    Direct(Seq<char>),
}

/// The answer to the user agent.
#[derive(Debug)]
pub enum Reply {
    /// Send the user agent to this location.
    Redirect(String),
    /// Answer with this body; nothing is redirected.
    Direct(String),
}

impl View for Reply {
    type V = ReplyView;

    open spec fn view(&self) -> ReplyView {
        match self {
            Reply::Redirect(l) => ReplyView::Redirect(l@),
            Reply::Direct(b) => ReplyView::Direct(b@),
        }
    }
}

/// Errors found before the redirect URI was verified as registered for the
/// client: there is no safe place to redirect them to.
pub open spec fn answered_directly(k: ErrorKind) -> bool {
    k == ErrorKind::InvalidRedirectUri || k == ErrorKind::InvalidClient
}

/// The description given when a registered redirect URI is not a URL.
pub open spec fn bad_uri_description() -> Seq<char> {
    "redirect uri is not a valid URL"@
}

/// The answer for an outcome: a direct answer for an unknown client or an
/// unregistered redirect URI, else a redirect to `uri` with the outcome's pairs as its query; a
/// direct `invalid_redirect_uri` answer where `uri` is not a URL, as there
/// is nowhere to redirect to.
pub open spec fn reply_of(
    outcome: Result<AuthorizationResponseView, ErrorView>,
    uri: Seq<char>,
    state: Option<Seq<char>>,
) -> ReplyView {
    if outcome matches Err(e) && answered_directly(e.kind) {
        ReplyView::Direct(error_line(outcome->Err_0))
    } else {
        match url_with_query(uri, form_urlencoded(view_pairs(outcome, state))) {
            Some(loc) => ReplyView::Redirect(loc),
            None => ReplyView::Direct(
                error_line(
                    ErrorView {
                        kind: ErrorKind::InvalidRedirectUri,
                        description: bad_uri_description(),
                        uri: None,
                    },
                ),
            ),
        }
    }
}

/// The view of an outcome.
pub open spec fn outcome_view(outcome: Result<AuthorizationResponse, Error>) -> Result<
    AuthorizationResponseView,
    ErrorView,
> {
    match outcome {
        Ok(resp) => Ok(resp@),
        Err(e) => Err(e@),
    }
}

fn pair(key: &str, value: &String) -> (r: (String, String))
    ensures
        r.0@ == key@,
        r.1@ == value@,
{
    (key.to_owned(), value.clone())
}

fn push_opt(pairs: &mut Vec<(String, String)>, key: &str, value: &Option<String>)
    ensures
        pair_views(final(pairs)@) == pair_views(old(pairs)@) + opt_pair(key@, opt_view(*value)),
{
    let ghost before = pairs@;
    match value {
        Some(v) => {
            pairs.push(pair(key, v));
            assert(pair_views(pairs@) =~= pair_views(before) + opt_pair(key@, opt_view(*value)));
        },
        None => {
            assert(pair_views(pairs@) =~= pair_views(before) + opt_pair(key@, opt_view(*value)));
        },
    }
}

/// The query pairs for an outcome, in the order code or error first, state
/// last.
pub fn reply_pairs(outcome: &Result<AuthorizationResponse, Error>, state: &Option<String>) -> (r:
    Vec<(String, String)>)
    ensures
        pair_views(r@) == view_pairs(outcome_view(*outcome), opt_view(*state)),
{
    let mut pairs: Vec<(String, String)> = Vec::new();
    match outcome {
        Ok(resp) => {
            pairs.push(pair("code", resp.code().signature()));
            assert(pair_views(pairs@) =~= seq![("code"@, resp@.code.signature)]);
            push_opt(&mut pairs, "state", resp.state());
        },
        Err(e) => {
            let kind = String::from_str(e.kind().as_str());
            pairs.push(pair("error", &kind));
            pairs.push(pair("error_description", e.description()));
            assert(pair_views(pairs@) =~= seq![
                ("error"@, kind_wire(e@.kind)),
                ("error_description"@, e@.description),
            ]);
            push_opt(&mut pairs, "error_uri", &e.error_uri());
            push_opt(&mut pairs, "state", state);
        },
    }
    pairs
}

/// The answer for an authorization outcome: a direct answer for an unknown
/// client or an unregistered redirect URI, else a redirect to `redirect_uri` with the
/// outcome in the query.
pub fn authorization_reply(
    outcome: &Result<AuthorizationResponse, Error>,
    redirect_uri: &str,
    state: &Option<String>,
) -> (r: Reply)
    ensures
        r@ == reply_of(outcome_view(*outcome), redirect_uri@, opt_view(*state)),
{
    match outcome {
        Err(e) => {
            let kind = *e.kind();
            if kind == ErrorKind::InvalidRedirectUri || kind == ErrorKind::InvalidClient {
                return Reply::Direct(e.to_string());
            }
        },
        Ok(_) => {},
    }
    let pairs = reply_pairs(outcome, state);
    let query = match encode_pairs(&pairs) {
        Some(q) => q,
        None => String::new(),
    };
    match replace_query(redirect_uri, query.as_str()) {
        Some(loc) => Reply::Redirect(loc),
        None => {
            let e = Error::new(
                ErrorKind::InvalidRedirectUri,
                String::from_str("redirect uri is not a valid URL"),
            );
            Reply::Direct(e.to_string())
        },
    }
}

} // verus!
