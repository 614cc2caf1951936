use vstd::prelude::*;

use crate::benchmark::Result;
use crate::settings::{words_of, words_operation, words_url, Operation, Settings};
use reqwest::{Client, Error, RequestBuilder, Response};

verus! {

#[verifier::external_type_specification]
#[verifier::external_body]
pub struct ExClient(Client);

#[verifier::external_type_specification]
#[verifier::external_body]
pub struct ExRequestBuilder(RequestBuilder);

#[verifier::external_type_specification]
#[verifier::external_body]
pub struct ExResponse(Response);

#[verifier::external_type_specification]
#[verifier::external_body]
pub struct ExError(Error);

/// Progress of one client lane: its id, the requests it has issued, and the
/// requests it owes in all.
#[derive(Debug, Clone, Copy, PartialEq, Eq, Structural)]
pub struct Lane {
    pub id: usize,
    pub issued: usize,
    pub quota: usize,
}

/// The iteration ids a lane still runs, in order, when stepped until it stops.
pub open spec fn lane_iterations(l: Lane) -> Seq<usize>
    decreases l.quota - l.issued,
{
    if l.issued < l.quota {
        seq![l.issued].add(lane_iterations(Lane { issued: (l.issued + 1) as usize, ..l }))
    } else {
        Seq::empty()
    }
}

/// Requests the lanes still owe together.
pub open spec fn owed(lanes: Seq<Lane>) -> int
    decreases lanes.len(),
{
    if lanes.len() == 0 {
        0
    } else {
        owed(lanes.drop_last()) + if lanes.last().issued < lanes.last().quota {
            lanes.last().quota - lanes.last().issued
        } else {
            0int
        }
    }
}

/// Results the lanes produce together when each runs until it stops.
pub open spec fn produced(lanes: Seq<Lane>) -> int
    decreases lanes.len(),
{
    if lanes.len() == 0 {
        0
    } else {
        produced(lanes.drop_last()) + lane_iterations(lanes.last()).len()
    }
}

impl Lane {
    /// The next iteration to run, if the lane still owes a request; the lane
    /// then counts it as issued.
    pub fn next_iteration(&mut self) -> (r: Option<usize>)
        ensures
            final(self).id == old(self).id,
            final(self).quota == old(self).quota,
            old(self).issued < old(self).quota ==> r == Some(old(self).issued) && final(self).issued
                == old(self).issued + 1,
            old(self).issued >= old(self).quota ==> r is None && final(self).issued == old(
                self,
            ).issued,
    {
        if self.issued < self.quota {
            let i: usize = self.issued;
            self.issued = i + 1;
            Some(i)
        } else {
            None
        }
    }
}

/// A lane that is stepped until it stops yields each owed iteration once, in
/// order, from the next one to issue up to its quota.
pub proof fn lemma_lane_yields_owed(l: Lane)
    ensures
        lane_iterations(l).len() == (if l.issued < l.quota {
            l.quota - l.issued
        } else {
            0int
        }),
        forall|k: int| 0 <= k < lane_iterations(l).len() ==> #[trigger] lane_iterations(l)[k] == l.issued + k,
    decreases l.quota - l.issued,
{
    if l.issued < l.quota {
        let n = Lane { issued: (l.issued + 1) as usize, ..l };
        lemma_lane_yields_owed(n);
        assert forall|k: int| 0 <= k < lane_iterations(l).len() implies #[trigger] lane_iterations(l)[k] == l.issued + k by {
            if k > 0 {
                assert(lane_iterations(l)[k] == lane_iterations(n)[k - 1]);
            }
        }
    }
}

/// Lanes run to completion produce exactly the requests they owe, no more,
/// no fewer.
pub proof fn lemma_lanes_produce_owed(lanes: Seq<Lane>)
    ensures
        produced(lanes) == owed(lanes),
    decreases lanes.len(),
{
    if lanes.len() > 0 {
        lemma_lanes_produce_owed(lanes.drop_last());
        lemma_lane_yields_owed(lanes.last());
    }
}

/// Splitting `requests` over `clients` lanes drops the remainder: the lanes
/// owe `clients * (requests / clients)` requests, which is at most `requests`
/// and less than `clients` short of it.
pub proof fn lemma_remainder_dropped(clients: nat, requests: nat)
    requires
        clients > 0,
    ensures
        clients * (requests / clients) <= requests,
        requests < clients * (requests / clients) + clients,
{
    assert(requests == clients * (requests / clients) + requests % clients) by (nonlinear_arith)
        requires clients > 0;
}

impl Settings {
    /// One fresh lane per client, with ids `0..clients`, each owing
    /// `requests_by_client()` requests.
    pub fn lanes(&self) -> (r: Vec<Lane>)
        requires
            self.clients > 0,
        ensures
            r@.len() == self.clients,
            forall|i: int|
                0 <= i < r@.len() ==> #[trigger] r@[i] == (Lane {
                    id: i as usize,
                    issued: 0,
                    quota: self.requests / self.clients,
                }),
            owed(r@) == self.clients * (self.requests / self.clients),
            produced(r@) == self.clients * (self.requests / self.clients),
    {
        let quota: usize = self.requests_by_client();
        let mut lanes: Vec<Lane> = Vec::new();
        let mut i: usize = 0;
        while i < self.clients
            invariant
                i <= self.clients,
                quota == self.requests / self.clients,
                lanes@.len() == i,
                forall|j: int|
                    0 <= j < i ==> #[trigger] lanes@[j] == (Lane { id: j as usize, issued: 0, quota }),
                owed(lanes@) == i * quota,
            decreases self.clients - i,
        {
            let ghost before = lanes@;
            lanes.push(Lane { id: i, issued: 0, quota });
            proof {
                assert(lanes@.drop_last() =~= before);
                assert(i * quota + quota == (i + 1) * quota) by (nonlinear_arith);
            }
            i = i + 1;
        }
        proof {
            lemma_lanes_produce_owed(lanes@);
        }
        lanes
    }
}

/// Relies on `reqwest::Client::get`: starts a GET request to `url`.
#[verifier::external_body]
fn get_request(client: &Client, url: String) -> RequestBuilder {
    client.get(url)
}

/// Relies on `reqwest::Client::post`: starts a POST request to `url`.
#[verifier::external_body]
fn post_request(client: &Client, url: String) -> RequestBuilder {
    client.post(url)
}

/// Relies on `reqwest::Client::head`: starts a HEAD request to `url`.
#[verifier::external_body]
fn head_request(client: &Client, url: String) -> RequestBuilder {
    client.head(url)
}

/// Relies on `reqwest::Client::patch`: starts a PATCH request to `url`.
#[verifier::external_body]
fn patch_request(client: &Client, url: String) -> RequestBuilder {
    client.patch(url)
}

/// Relies on `reqwest::Client::put`: starts a PUT request to `url`.
#[verifier::external_body]
fn put_request(client: &Client, url: String) -> RequestBuilder {
    client.put(url)
}

/// Relies on `reqwest::Client::delete`: starts a DELETE request to `url`.
#[verifier::external_body]
fn delete_request(client: &Client, url: String) -> RequestBuilder {
    client.delete(url)
}

/// Relies on `reqwest::RequestBuilder::header`: adds one header to the request.
#[verifier::external_body]
fn with_header(builder: RequestBuilder, key: &str, value: &str) -> RequestBuilder {
    builder.header(key, value)
}

/// Relies on `reqwest::RequestBuilder::body`: sets the request body.
#[verifier::external_body]
fn with_body(builder: RequestBuilder, body: String) -> RequestBuilder {
    builder.body(body)
}

/// Relies on `reqwest::Response::status` and `http::StatusCode::as_u16`: the
/// response's status code, which `StatusCode` keeps within 100..=999.
#[verifier::external_body]
fn status_code(response: &Response) -> (s: u16)
    ensures
        100 <= s <= 999,
{
    response.status().as_u16()
}

/// What a request carries, as plain values: its method, its URL, the header
/// that is added to it, if any, and its body, if any.
#[derive(Debug, Clone)]
pub struct RequestParts {
    pub operation: Operation,
    pub url: String,
    pub header: Option<(String, String)>,
    pub body: Option<String>,
}

/// The header a configured body is sent with: `content-type: application/json`.
pub open spec fn json_header(h: (String, String)) -> bool {
    h.0@ == "content-type"@ && h.1@ == "application/json"@
}

/// What each request of a run carries: the method and URL the target names,
/// and, when a body is configured, that body verbatim with a JSON content
/// type; with no body configured, neither body nor header.
pub fn request_parts(settings: &Settings) -> (r: RequestParts)
    ensures
        r.operation == words_operation(words_of(settings.target@)),
        r.url@ == words_url(words_of(settings.target@)),
        r.body == settings.body,
        r.header is Some <==> settings.body is Some,
        r.header matches Some(h) ==> json_header(h),
{
    let header = match &settings.body {
        None => None,
        Some(_) => Some(("content-type".to_owned(), "application/json".to_owned())),
    };
    RequestParts {
        operation: settings.operation(),
        url: settings.target(),
        header,
        body: settings.body.clone(),
    }
}

/// Builds the request a lane issues with `client` from the parts that
/// `request_parts` gives for `settings`.
pub fn build_request(client: &Client, settings: &Settings) -> RequestBuilder {
    let parts = request_parts(settings);
    let url = parts.url;
    let builder = match parts.operation {
        Operation::Get => get_request(client, url),
        Operation::Post => post_request(client, url),
        Operation::Head => head_request(client, url),
        Operation::Patch => patch_request(client, url),
        Operation::Put => put_request(client, url),
        Operation::Delete => delete_request(client, url),
    };
    let builder = match parts.header {
        None => builder,
        Some((key, value)) => with_header(builder, key.as_str(), value.as_str()),
    };
    match parts.body {
        None => builder,
        Some(b) => with_body(builder, b),
    }
}

/// The record of one attempt that took `duration` milliseconds: the status
/// received when a response arrived, 0 when the transport failed.
pub fn classify(response: &std::result::Result<Response, Error>, duration: u64) -> (r: Result)
    ensures
        r.duration == duration,
        response is Err ==> r.status == 0,
        response is Ok ==> 100 <= r.status <= 999,
{
    match response {
        Ok(resp) => Result::from_outcome(Some(status_code(resp)), duration),
        Err(_) => Result::from_outcome(None, duration),
    }
}

} // verus!
