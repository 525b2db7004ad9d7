//! Decisions of the serverless gateway front end: which path the routed request
//! gets, how a response body is carried back, and which requests are served.
use vstd::prelude::*;
use vstd::utf8::{decode_utf8, encode_utf8, valid_utf8};
use crate::codec::decode_text;
use crate::text::{same_text, strip_prefix_text};

verus! {

/// The part of the gateway's request context that routing reads.
#[derive(Debug, Clone, PartialEq, Eq)]
pub enum GatewayContext {
    /// An HTTP API (payload version 2) request, with its deployment stage if any.
    ApiGatewayV2 { stage: Option<String> },
    /// A REST API (payload version 1) request, with its deployment stage if any.
    ApiGatewayV1 { stage: Option<String> },
    /// Any other source, which has no stage.
    Other,
}

/// The deployment stage named in a request context; empty when there is none.
pub open spec fn spec_stage(ctx: GatewayContext) -> Seq<char> {
    match ctx {
        GatewayContext::ApiGatewayV2 { stage } => match stage {
            Some(s) => s@,
            None => Seq::empty(),
        },
        GatewayContext::ApiGatewayV1 { stage } => match stage {
            Some(s) => s@,
            None => Seq::empty(),
        },
        GatewayContext::Other => Seq::empty(),
    }
}

/// What a path begins with under `stage`: nothing when the stage is empty, else
/// `/` and the stage.
pub open spec fn stage_prefix(stage: Seq<char>) -> Seq<char> {
    if stage.len() == 0 {
        Seq::empty()
    } else {
        "/"@ + stage
    }
}

/// `path` with the stage prefix taken off the front when it is there.
pub open spec fn spec_strip_stage(path: Seq<char>, stage: Seq<char>) -> Seq<char> {
    if stage_prefix(stage).is_prefix_of(path) {
        path.skip(stage_prefix(stage).len() as int)
    } else {
        path
    }
}

/// The deployment stage named in a request context; empty when there is none.
pub fn stage_of(ctx: &GatewayContext) -> (res: String)
    ensures
        res@ == spec_stage(*ctx),
{
    match ctx {
        GatewayContext::ApiGatewayV2 { stage } | GatewayContext::ApiGatewayV1 { stage } => {
            match stage {
                Some(s) => s.clone(),
                None => String::new(),
            }
        },
        GatewayContext::Other => String::new(),
    }
}

/// The path that the router sees: the request path without the `/<stage>`
/// prefix that the gateway puts in front of it. Paths that do not begin with
/// the prefix, and all paths when the stage is empty, pass unchanged.
pub fn strip_stage(path: &str, stage: &str) -> (res: String)
    ensures
        res@ == spec_strip_stage(path@, stage@),
{
    let mut prefix = String::new();
    if stage.unicode_len() > 0 {
        prefix.append("/");
    }
    prefix.append(stage);
    assert(prefix@ =~= stage_prefix(stage@));
    match strip_prefix_text(path, prefix.as_str()) {
        Some(rest) => rest,
        None => path.to_owned(),
    }
}

/// The path under which a request from the gateway is routed.
pub fn routed_path(ctx: &GatewayContext, path: &str) -> (res: String)
    ensures
        res@ == spec_strip_stage(path@, spec_stage(*ctx)),
{
    let stage = stage_of(ctx);
    strip_stage(path, stage.as_str())
}

/// A response body as the gateway carries it.
#[derive(Debug, Clone, PartialEq, Eq)]
pub enum LambdaBody {
    Empty,
    Text(String),
    Binary(Vec<u8>),
}

/// `body` carries `bytes`: nothing for no bytes, the decoded text for valid
/// UTF-8, and the bytes themselves otherwise.
pub open spec fn is_body_of(body: LambdaBody, bytes: Seq<u8>) -> bool {
    if bytes.len() == 0 {
        body is Empty
    } else if valid_utf8(bytes) {
        body matches LambdaBody::Text(t) && t@ == decode_utf8(bytes)
    } else {
        body matches LambdaBody::Binary(b) && b@ == bytes
    }
}

/// The body that carries a response's bytes back through the gateway.
pub fn body_from_bytes(bytes: Vec<u8>) -> (res: LambdaBody)
    ensures
        is_body_of(res, bytes@),
{
    if bytes.len() == 0 {
        return LambdaBody::Empty;
    }
    match decode_text(bytes.as_slice()) {
        Some(text) => LambdaBody::Text(text),
        None => LambdaBody::Binary(bytes),
    }
}

/// A nonempty text answer reaches the client as the same text.
pub proof fn lemma_text_body_round_trip(text: Seq<char>, body: LambdaBody)
    requires
        text.len() > 0,
        is_body_of(body, encode_utf8(text)),
    ensures
        body matches LambdaBody::Text(t) && t@ == text,
{
    vstd::utf8::encode_utf8_valid_utf8(text);
    vstd::utf8::encode_utf8_decode_utf8(text);
    assert(encode_utf8(text).len() > 0) by {
        if encode_utf8(text).len() == 0 {
            assert(decode_utf8(encode_utf8(text)).len() == 0);
        }
    }
}

/// With an empty stage every path is routed as it came.
pub proof fn lemma_no_stage_keeps_path(path: Seq<char>)
    ensures
        spec_strip_stage(path, Seq::empty()) == path,
{
    assert(Seq::<char>::empty().is_prefix_of(path));
    assert(path.skip(0) =~= path);
}

/// A path that the gateway put under a nonempty stage is routed without it.
pub proof fn lemma_stage_removed(stage: Seq<char>, rest: Seq<char>)
    requires
        stage.len() > 0,
    ensures
        spec_strip_stage("/"@ + stage + rest, stage) == rest,
{
    let p = "/"@ + stage;
    assert(p.is_prefix_of(p + rest)) by {
        assert(p =~= (p + rest).subrange(0, p.len() as int));
    }
    assert((p + rest).skip(p.len() as int) =~= rest);
}

/// Under a nonempty stage, a path that does not begin with `/` and the stage is
/// routed as it came.
pub proof fn lemma_unstaged_path_kept(path: Seq<char>, stage: Seq<char>)
    requires
        stage.len() > 0,
        !("/"@ + stage).is_prefix_of(path),
    ensures
        spec_strip_stage(path, stage) == path,
{
}

/// Which handler serves a gateway request.
#[derive(Debug, Clone, Copy, PartialEq, Eq)]
pub enum LambdaRoute {
    /// `POST /menu`: the restaurant menu, as JSON.
    Menu,
    /// Everything else.
    NotFound,
}

/// Picks the handler for a request by its method and path.
pub fn lambda_route(method: &str, path: &str) -> (res: LambdaRoute)
    ensures
        res == (if method@ == "POST"@ && path@ == "/menu"@ {
            LambdaRoute::Menu
        } else {
            LambdaRoute::NotFound
        }),
{
    if same_text(method, "POST") && same_text(path, "/menu") {
        LambdaRoute::Menu
    } else {
        LambdaRoute::NotFound
    }
}

/// An HTTP response: status, content type if one is set, and text body.
#[derive(Debug, Clone, PartialEq, Eq)]
pub struct HttpReply {
    pub status: u16,
    pub content_type: Option<String>,
    pub body: String,
}

/// `200 OK` with a JSON body.
pub fn json_reply(body: String) -> (res: HttpReply)
    ensures
        res.status == 200,
        res.content_type matches Some(c) && c@ == "application/json"@,
        res.body == body,
{
    HttpReply { status: 200, content_type: Some("application/json".to_owned()), body }
}

/// `404` with the body `Not Found` and no content type.
pub fn not_found_reply() -> (res: HttpReply)
    ensures
        res.status == 404,
        res.content_type is None,
        res.body@ == "Not Found"@,
{
    HttpReply { status: 404, content_type: None, body: "Not Found".to_owned() }
}

/// `200 OK` with a plain-text body.
pub fn text_reply(body: String) -> (res: HttpReply)
    ensures
        res.status == 200,
        res.content_type matches Some(c) && c@ == "text/plain"@,
        res.body == body,
{
    HttpReply { status: 200, content_type: Some("text/plain".to_owned()), body }
}

/// Both kinds of gateway request name their stage the same way: the stage they
/// carry, or nothing; other sources have none. So a request of either kind for
/// `/<stage>` followed by `rest`, under a nonempty stage, is routed as `rest`.
pub proof fn lemma_stage_of_both_gateways(stage: String, rest: Seq<char>)
    ensures
        spec_stage(GatewayContext::ApiGatewayV1 { stage: Some(stage) }) == stage@,
        spec_stage(GatewayContext::ApiGatewayV2 { stage: Some(stage) }) == stage@,
        spec_stage(GatewayContext::ApiGatewayV1 { stage: None }).len() == 0,
        spec_stage(GatewayContext::ApiGatewayV2 { stage: None }).len() == 0,
        spec_stage(GatewayContext::Other).len() == 0,
        stage@.len() > 0 ==> spec_strip_stage(
            "/"@ + stage@ + rest,
            spec_stage(GatewayContext::ApiGatewayV1 { stage: Some(stage) }),
        ) == rest,
        stage@.len() > 0 ==> spec_strip_stage(
            "/"@ + stage@ + rest,
            spec_stage(GatewayContext::ApiGatewayV2 { stage: Some(stage) }),
        ) == rest,
{
    if stage@.len() > 0 {
        lemma_stage_removed(stage@, rest);
    }
}

} // verus!
