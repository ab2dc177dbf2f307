//! Decision logic of the two HTTP handlers.
//!
//! The functions here are the computing halves of the service's request
//! handling: they validate the creation request, pair a fresh short id
//! with the destination, build the success and failure responses, and
//! turn the store's answer to a lookup into a redirect or a 404. The
//! HTTP transport and the store connection stay outside the library and
//! hand these functions plain values.

use vstd::prelude::*;
use vstd::string::StringExecFns;
use crate::id::generate_random_id;
use crate::id::valid_short_id;
use crate::store::StoreError;
use crate::store::store_get;
use crate::store::store_put;

verus! {

/// Rejection of a creation request whose body lacks the required
/// `destination_url` field. It is raised before any store interaction.
#[derive(Clone, Copy, Debug, PartialEq, Eq, Structural)]
pub struct RequestError;

/// The body of a creation request as the handler receives it: the
/// `destination_url` field may be missing, in which case the request is
/// rejected.
pub struct CreationRequest {
    pub destination_url: Option<String>,
}

/// The successful answer to a creation request: the fresh short id, the
/// full shortened URL under the configured host base, and the original
/// destination echoed back.
pub struct CreationResponse {
    pub short_id: String,
    pub full_url: String,
    pub destination_url: String,
}

/// A failure answer: the HTTP status to send and a plain-text message.
#[derive(Debug)]
pub struct ErrorResponse {
    pub status: u16,
    pub message: String,
}

/// The answer to a redirect request: a temporary redirect carrying the
/// stored destination as its Location, or a plain "not found".
pub enum RedirectOutcome {
    Temporary { location: String },
    NotFound,
}

impl RedirectOutcome {
    /// The HTTP status this outcome is sent with.
    pub open spec fn spec_status(&self) -> int {
        match self {
            RedirectOutcome::Temporary { .. } => 307,
            RedirectOutcome::NotFound => 404,
        }
    }

    /// The Location header this outcome carries, if any.
    pub open spec fn spec_location(&self) -> Option<Seq<char>> {
        match self {
            RedirectOutcome::Temporary { location } => Some(location@),
            RedirectOutcome::NotFound => None,
        }
    }

    /// The HTTP status this outcome is sent with.
    pub fn status(&self) -> (s: u16)
        ensures
            s as int == self.spec_status(),
    {
        match self {
            RedirectOutcome::Temporary { .. } => 307,
            RedirectOutcome::NotFound => 404,
        }
    }
}

/// The full shortened URL: the host base, a slash, the short id.
pub open spec fn full_url_of(host: Seq<char>, id: Seq<char>) -> Seq<char> {
    host + seq!['/'] + id
}

/// What a lookup answer amounts to at the handler boundary: only a value
/// that the store actually returned counts; "absent" and a connection
/// failure both count for nothing, since the handler collapses them into
/// the same not-found answer.
pub open spec fn lookup_view(lookup: Result<Option<String>, StoreError>) -> Option<Seq<char>> {
    match lookup {
        Ok(Some(url)) => Some(url@),
        Ok(None) => None,
        Err(_) => None,
    }
}

/// The status a redirect request draws from a lookup answer: 307 when a
/// destination was found, 404 otherwise.
pub open spec fn spec_redirect_status(found: Option<Seq<char>>) -> int {
    match found {
        Some(_) => 307,
        None => 404,
    }
}

/// Validates the shape of a creation request: the `destination_url`
/// field must be present. A request without it is rejected, and the
/// rejection happens before any store write could be attempted.
pub fn validate_request(req: CreationRequest) -> (r: Result<String, RequestError>)
    ensures
        r is Ok <==> req.destination_url is Some,
        req.destination_url matches Some(dest) ==> (r matches Ok(url) && url@ == dest@),
{
    match req.destination_url {
        Some(dest) => Ok(dest),
        None => Err(RequestError),
    }
}

/// Pairs a fresh short id with the destination it is to map to: the
/// entry that the creation handler asks the store to write. The id is
/// generated anew on every call, with no uniqueness check, so repeated
/// calls with the same destination make distinct entries.
pub fn prepare_entry(destination_url: String) -> (entry: (String, String))
    ensures
        valid_short_id(entry.0@),
        entry.1@ == destination_url@,
{
    let id = generate_random_id();
    (id, destination_url)
}

/// The creation handler's decision: reject a request whose body lacks
/// `destination_url` — before any store write — and otherwise hand back
/// the entry to write, its key a fresh well-formed short id and its
/// value the given destination.
pub fn handle_creation(req: CreationRequest) -> (r: Result<(String, String), RequestError>)
    ensures
        r is Ok <==> req.destination_url is Some,
        req.destination_url matches Some(dest) ==> (r matches Ok(entry)
            && valid_short_id(entry.0@) && entry.1@ == dest@),
{
    match validate_request(req) {
        Ok(dest) => Ok(prepare_entry(dest)),
        Err(e) => Err(e),
    }
}

/// Builds the full shortened URL for a short id under the host base:
/// `host`, one slash, the id.
pub fn make_full_url(host: &str, short_id: &str) -> (r: String)
    ensures
        r@ == full_url_of(host@, short_id@),
{
    let mut url = host.to_owned();
    url.append("/");
    url.append(short_id);
    proof {
        reveal_strlit("/");
        assert(("/")@ =~= seq!['/']);
        assert(url@ =~= full_url_of(host@, short_id@));
    }
    url
}

/// Translates the store's answer to the creation write into the HTTP
/// response: on a successful write, 200 with the short id, the full URL
/// under the host base, and the destination echoed back; on a store
/// failure, 500 with a generic message that leaks nothing of the cause.
pub fn add_entry_response(host: &str, written: Result<(String, String), StoreError>) -> (r:
    Result<CreationResponse, ErrorResponse>)
    ensures
        written matches Ok(entry) ==> (r matches Ok(resp) && resp.short_id@ == entry.0@
            && resp.full_url@ == full_url_of(host@, entry.0@)
            && resp.destination_url@ == entry.1@),
        written is Err ==> (r matches Err(e) && e.status == 500
            && e.message@ == "Failed to create shortened URL"@),
{
    match written {
        Ok((short_id, destination_url)) => {
            let full_url = make_full_url(host, short_id.as_str());
            Ok(CreationResponse { short_id, full_url, destination_url })
        },
        Err(_) => Err(
            ErrorResponse { status: 500, message: "Failed to create shortened URL".to_owned() },
        ),
    }
}

/// Resolves a raw lookup answer as the storage adapter does: a stored
/// value passes through, while an absent key becomes a `StoreError`,
/// matching the adapter that reports "key not found" through its error
/// channel. A connection failure stays an error.
pub fn resolve_lookup(raw: Result<Option<String>, StoreError>) -> (r: Result<String, StoreError>)
    ensures
        raw matches Ok(Some(url)) ==> (r matches Ok(u) && u@ == url@),
        raw matches Ok(None) ==> r is Err,
        raw is Err ==> r is Err,
{
    match raw {
        Ok(Some(url)) => Ok(url),
        Ok(None) => Err(StoreError),
        Err(e) => Err(e),
    }
}

/// The redirect handler's decision on a resolved lookup: a found
/// destination becomes a temporary redirect whose Location is that
/// destination, and any failure — key absent or store unreachable —
/// becomes the same 404 answer.
pub fn get_link_response(resolved: Result<String, StoreError>) -> (r: RedirectOutcome)
    ensures
        resolved matches Ok(url) ==> (r matches RedirectOutcome::Temporary { location }
            && location@ == url@),
        resolved is Err ==> r is NotFound,
{
    match resolved {
        Ok(url) => RedirectOutcome::Temporary { location: url },
        Err(_) => RedirectOutcome::NotFound,
    }
}

/// The whole redirect path from the store's raw answer to the HTTP
/// outcome: 307 with the stored destination as Location exactly when the
/// store returned a value, 404 otherwise.
pub fn handle_redirect(raw: Result<Option<String>, StoreError>) -> (r: RedirectOutcome)
    ensures
        r.spec_status() == spec_redirect_status(lookup_view(raw)),
        r.spec_location() == lookup_view(raw),
{
    let resolved = resolve_lookup(raw);
    get_link_response(resolved)
}

/// Law: after a link is created, a redirect request for its short id
/// finds the stored destination — whatever the store held before — and
/// is answered 307 with that destination as its Location.
pub proof fn lemma_redirect_after_creation(
    links: Map<Seq<char>, Seq<char>>,
    id: Seq<char>,
    dest: Seq<char>,
)
    ensures
        store_get(store_put(links, id, dest), id) == Some(dest),
        spec_redirect_status(store_get(store_put(links, id, dest), id)) == 307,
{
}

/// Law: a short id that was never created is absent from the store, so a
/// redirect request for it carries no Location and is answered 404.
pub proof fn lemma_redirect_never_created(links: Map<Seq<char>, Seq<char>>, id: Seq<char>)
    requires
        !links.dom().contains(id),
    ensures
        store_get(links, id) is None,
        spec_redirect_status(store_get(links, id)) == 404,
{
}

} // verus!
