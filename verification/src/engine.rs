//! The container-engine HTTP API: request paths over the per-user socket,
//! and what each response status means.

use vstd::prelude::*;

use crate::error::{ApiError, ApiErrorView};

verus! {

/// The inspect endpoint of an image: `/images/{image}/json`.
pub open spec fn image_inspect_path_spec(image: Seq<char>) -> Seq<char> {
    "/images/"@ + image + "/json"@
}

pub fn image_inspect_path(image: &str) -> (r: String)
    ensures
        r@ == image_inspect_path_spec(image@),
{
    let mut r = String::from_str("/images/");
    r.append(image);
    r.append("/json");
    r
}

/// The delete endpoint of an image: `/images/{image}`.
pub open spec fn image_delete_path_spec(image: Seq<char>) -> Seq<char> {
    "/images/"@ + image
}

pub fn image_delete_path(image: &str) -> (r: String)
    ensures
        r@ == image_delete_path_spec(image@),
{
    let mut r = String::from_str("/images/");
    r.append(image);
    r
}

/// The delete endpoint of a network: `/networks/{network}`.
pub open spec fn network_delete_path_spec(network: Seq<char>) -> Seq<char> {
    "/networks/"@ + network
}

pub fn network_delete_path(network: &str) -> (r: String)
    ensures
        r@ == network_delete_path_spec(network@),
{
    let mut r = String::from_str("/networks/");
    r.append(network);
    r
}

/// What an image inspection's response means: a 200 hands its body on to be
/// parsed; any other status is an engine error carrying the body.
pub fn inspect_image_outcome(status: u16, body: String) -> (r: Result<String, ApiError>)
    ensures
        status == 200 ==> (r matches Ok(b) && b == body),
        status != 200 ==> (r matches Err(e) && e@ == ApiErrorView::EngineError(body@)),
{
    if status == 200 {
        Ok(body)
    } else {
        Err(ApiError::EngineError(body))
    }
}

/// Whether an image deletion's status counts as success: a 200 deleted the
/// image, and a 404 means it was already gone, which deletion also aims at.
pub open spec fn image_delete_ok(status: u16) -> bool {
    status == 200 || status == 404
}

/// What an image deletion's response means; on any other status the body is
/// handed back as an engine error.
pub fn delete_image_outcome(status: u16, body: String) -> (r: Result<(), ApiError>)
    ensures
        r is Ok <==> image_delete_ok(status),
        !image_delete_ok(status) ==> (r matches Err(e) && e@ == ApiErrorView::EngineError(body@)),
{
    if status == 200 || status == 404 {
        Ok(())
    } else {
        Err(ApiError::EngineError(body))
    }
}

/// Whether a network deletion's status counts as success: 204 or an
/// already-gone 404.
pub open spec fn network_delete_ok(status: u16) -> bool {
    status == 204 || status == 404
}

/// What a network deletion's response means.
pub fn delete_network_outcome(status: u16, body: String) -> (r: Result<(), ApiError>)
    ensures
        r is Ok <==> network_delete_ok(status),
        !network_delete_ok(status) ==> (r matches Err(e) && e@ == ApiErrorView::EngineError(
            body@,
        )),
{
    if status == 204 || status == 404 {
        Ok(())
    } else {
        Err(ApiError::EngineError(body))
    }
}

/// Deleting twice asks nothing new: once a deletion has succeeded the image
/// is gone, the engine then answers 404, and 404 still counts as success.
pub proof fn lemma_delete_image_idempotent()
    ensures
        image_delete_ok(404),
        image_delete_ok(200),
        network_delete_ok(404),
{
}

} // verus!
