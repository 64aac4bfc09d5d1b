//! The client: what it sends, and what it makes of the reply.
//!
//! The client does not talk to the network itself. It hands the request to a
//! transport, which the caller supplies, and reads the transport's reply.

use vstd::prelude::*;
use crate::decode::{body_outcome, decode_body, lemma_body_never_fails_in_transport, outcome_view};
use crate::error::{FetchError, FetchFailure};
use crate::metric::CfStatusMetric;
use crate::query::{build_query, CfFetchOptions};
use crate::status::{is_success, is_success_code};

verus! {

/// One header of a request.
#[derive(Debug, PartialEq, Eq)]
pub struct Header {
    pub name: String,
    pub value: String,
}

/// A POST request: where it goes, its headers in order, and its body.
#[derive(Debug, PartialEq, Eq)]
pub struct PostRequest {
    pub url: String,
    pub headers: Vec<Header>,
    pub body: String,
}

/// A `PostRequest` as plain text.
pub struct RequestModel {
    pub url: Seq<char>,
    pub headers: Seq<(Seq<char>, Seq<char>)>,
    pub body: Seq<char>,
}

impl View for PostRequest {
    type V = RequestModel;

    open spec fn view(&self) -> RequestModel {
        RequestModel {
            url: self.url@,
            headers: Seq::new(
                self.headers@.len(),
                |i: int| (self.headers@[i].name@, self.headers@[i].value@),
            ),
            body: self.body@,
        }
    }
}

/// What came of sending a request.
#[derive(Debug, PartialEq, Eq)]
pub enum HttpReply {
    /// No answer: the name was not resolved, the connection or the TLS
    /// session failed, or time ran out. The text says which.
    Failed { reason: String },
    /// An answer, with its status code and its body.
    Answered { status: u16, body: Vec<u8> },
}

/// An `HttpReply` as plain values.
pub enum ReplyModel {
    Failed { reason: Seq<char> },
    Answered { status: u16, body: Seq<u8> },
}

impl View for HttpReply {
    type V = ReplyModel;

    open spec fn view(&self) -> ReplyModel {
        match self {
            HttpReply::Failed { reason } => ReplyModel::Failed { reason: reason@ },
            HttpReply::Answered { status, body } => ReplyModel::Answered {
                status: *status,
                body: body@,
            },
        }
    }
}

/// What a reply amounts to: a transport failure as it is; an answer outside
/// 200..=299 as that status, whatever its body holds; and any other answer
/// as what its body decodes to.
pub open spec fn reply_outcome(reply: ReplyModel) -> Result<Seq<CfStatusMetric>, FetchFailure> {
    match reply {
        ReplyModel::Failed { reason } => Err(FetchFailure::Transport(reason)),
        ReplyModel::Answered { status, body } => if is_success_code(status) {
            body_outcome(body)
        } else {
            Err(FetchFailure::HttpStatus(status))
        },
    }
}

/// Reads a reply: the failure it reports, or the metrics in its body.
///
/// The body is decoded only where the status is a success.
pub fn read_reply(reply: HttpReply) -> (outcome: Result<Vec<CfStatusMetric>, FetchError>)
    ensures
        outcome_view(outcome) == reply_outcome(reply@),
{
    match reply {
        HttpReply::Failed { reason } => Err(FetchError::Transport(reason)),
        HttpReply::Answered { status, body } => {
            if !is_success(status) {
                return Err(FetchError::HttpStatus(status));
            }
            decode_body(body.as_slice())
        },
    }
}

/// An answer with a status outside 200..=299 fails with that status, and
/// what its body holds plays no part in it.
pub proof fn lemma_failed_status_ignores_body(status: u16, body: Seq<u8>, other: Seq<u8>)
    requires
        !is_success_code(status),
    ensures
        reply_outcome(ReplyModel::Answered { status, body }) == Err::<
            Seq<CfStatusMetric>,
            FetchFailure,
        >(FetchFailure::HttpStatus(status)),
        reply_outcome(ReplyModel::Answered { status, body }) == reply_outcome(
            ReplyModel::Answered { status, body: other },
        ),
{
}

/// A reply amounts to a transport failure only where the transport
/// failed, and then it carries the transport's own account.
pub proof fn lemma_transport_failure_is_passed_on(reply: ReplyModel)
    ensures
        (reply_outcome(reply) is Err && reply_outcome(reply)->Err_0 is Transport) <==> reply
            is Failed,
        reply matches ReplyModel::Failed { reason } ==> reply_outcome(reply) == Err::<
            Seq<CfStatusMetric>,
            FetchFailure,
        >(FetchFailure::Transport(reason)),
{
    if let ReplyModel::Answered { status, body } = reply {
        lemma_body_never_fails_in_transport(body);
    }
}

/// The address of the analytics endpoint.
pub open spec fn endpoint() -> Seq<char> {
    "https://api.cloudflare.com/client/v4/graphql"@
}

/// The request that asks for `payload` in the name of `token`: a POST to the
/// endpoint that names the agent, declares the body to be JSON and carries
/// the token as a bearer credential.
pub open spec fn request_model(token: Seq<char>, payload: Seq<char>) -> RequestModel {
    RequestModel {
        url: endpoint(),
        headers: seq![
            ("User-Agent"@, "cf-stats-exporter/1.0"@),
            ("Content-Type"@, "application/json"@),
            ("Authorization"@, "Bearer "@ + token),
        ],
        body: payload,
    }
}

/// A client for the analytics endpoint, acting for the holder of one API
/// token.
pub struct CfClient {
    api_token: String,
}

impl CfClient {
    /// The token that this client presents.
    pub closed spec fn token(&self) -> Seq<char> {
        self.api_token@
    }

    /// A client that presents `api_token`.
    pub fn new(api_token: String) -> (client: CfClient)
        ensures
            client.token() == api_token@,
    {
        CfClient { api_token }
    }

    /// The request that fetches the metrics for `opts`.
    pub fn request(&self, opts: &CfFetchOptions) -> (request: PostRequest)
        ensures
            request@ == request_model(self.token(), opts.payload()),
    {
        let mut authorization = String::from_str("Bearer ");
        authorization.append(self.api_token.as_str());
        let mut headers: Vec<Header> = Vec::new();
        headers.push(
            Header {
                name: String::from_str("User-Agent"),
                value: String::from_str("cf-stats-exporter/1.0"),
            },
        );
        headers.push(
            Header {
                name: String::from_str("Content-Type"),
                value: String::from_str("application/json"),
            },
        );
        headers.push(Header { name: String::from_str("Authorization"), value: authorization });
        let request = PostRequest {
            url: String::from_str("https://api.cloudflare.com/client/v4/graphql"),
            headers,
            body: build_query(opts),
        };
        assert(request@.headers =~= request_model(self.token(), opts.payload()).headers);
        request
    }

    /// Fetches the metrics for `opts` through the transport `send`.
    ///
    /// The transport is handed the request of `opts`, once, and its reply is
    /// read: a transport failure, a status outside 200..=299 and a body that
    /// does not decode each end the call with their error, and nothing is
    /// tried again.
    pub fn fetch_metrics<F>(&self, opts: CfFetchOptions, send: F) -> (outcome: Result<
        Vec<CfStatusMetric>,
        FetchError,
    >) where F: FnOnce(PostRequest) -> HttpReply
        requires
            forall|request: PostRequest|
                request@ == request_model(self.token(), opts.payload()) ==> call_requires(
                    send,
                    (request,),
                ),
        ensures
            exists|request: PostRequest, reply: HttpReply|
                request@ == request_model(self.token(), opts.payload()) && #[trigger] call_ensures(
                    send,
                    (request,),
                    reply,
                ) && outcome_view(outcome) == reply_outcome(reply@),
    {
        let request = self.request(&opts);
        let reply = send(request);
        read_reply(reply)
    }
}

} // verus!
