//! The routes of the application listener.

use vstd::prelude::*;
use vstd::string::*;
use crate::clock::current_timestamp;
use crate::handlers::{
    json_ok, private_answer, public_answer, root_answer, JsonBody, JsonBodyView, JsonResponse,
    RouteNotice, ServiceStatus, OK,
};

verus! {

/// The version the service reports of itself.
pub const VERSION: &'static str = "0.1.0";

/// A JSON answer with status 200 and the given body.
fn ok_json(body: JsonBody) -> (r: JsonResponse)
    ensures
        r@ == json_ok(body@),
{
    JsonResponse { status: OK, content_type: String::from_str("application/json"), body }
}

/// Reports that the service is up, with its name and version.
pub fn root() -> (r: JsonResponse)
    ensures
        r@ == root_answer(),
{
    ok_json(
        JsonBody::Status(
            ServiceStatus {
                status: String::from_str("ok"),
                service: String::from_str("simple-api-demo"),
                version: String::from_str(VERSION),
            },
        ),
    )
}

/// The answer of the public route, stamped with the given time.
pub fn public_route_at(timestamp: String) -> (r: JsonResponse)
    ensures
        r@ == public_answer(timestamp@),
{
    ok_json(
        JsonBody::Notice(
            RouteNotice {
                message: String::from_str("public route"),
                access: String::from_str("public"),
                timestamp,
                warning: None,
            },
        ),
    )
}

/// The answer of the private route, stamped with the given time. No
/// authentication is asked for: the warning in the body says so.
pub fn private_route_at(timestamp: String) -> (r: JsonResponse)
    ensures
        r@ == private_answer(timestamp@),
{
    ok_json(
        JsonBody::Notice(
            RouteNotice {
                message: String::from_str("private and protected route"),
                access: String::from_str("private"),
                timestamp,
                warning: Some(
                    String::from_str("This route should require authentication in production"),
                ),
            },
        ),
    )
}

/// The answer of the public route, stamped with the current time.
pub fn public_route() -> (r: JsonResponse)
    ensures
        r@.body matches JsonBodyView::Notice { timestamp, .. } && r@ == public_answer(timestamp),
{
    public_route_at(current_timestamp())
}

/// The answer of the private route, stamped with the current time.
pub fn private_route() -> (r: JsonResponse)
    ensures
        r@.body matches JsonBodyView::Notice { timestamp, .. } && r@ == private_answer(timestamp),
{
    private_route_at(current_timestamp())
}

} // verus!
