//! The boundary token of a multipart request, taken from its content type.
use vstd::prelude::*;
use crate::error::UploadError;
use crate::protocol::{present, text_of};

verus! {

/// The value of the `boundary` parameter of the media type that the header
/// value `content_type` denotes; `None` where the value is no media type or
/// has no such parameter.
///
/// The grammar of media types is the `mime` crate's; this name stands for
/// what that crate reads out of the header.
pub uninterp spec fn boundary_param(content_type: Seq<char>) -> Option<Seq<char>>;

/// Reads the `boundary` parameter out of a content-type header value.
///
/// Trusted: the body parses the value with `mime::Mime::from_str` and looks
/// the parameter up with `mime::Mime::get_param`. The contract claims only
/// that the outcome depends on the header value alone, and calls it
/// [`boundary_param`]; a value that does not parse counts as having no
/// parameter.
#[verifier::external_body]
fn read_boundary_param(content_type: &str) -> (param: Option<String>)
    ensures
        text_of(param) == boundary_param(content_type@),
{
    match content_type.parse::<mime::Mime>() {
        Ok(media_type) => media_type.get_param("boundary").map(|v| v.to_string()),
        Err(_) => None,
    }
}

/// What a request with the boundary parameter `param` is decoded with: the
/// parameter itself, which must be there and must not be empty.
pub open spec fn required(param: Option<Seq<char>>) -> Result<Seq<char>, UploadError> {
    if present(param) {
        Ok(param->0)
    } else {
        Err(UploadError::MissingBoundary)
    }
}

/// The characters of a boundary token or the error in its place.
pub open spec fn token_of(r: Result<String, UploadError>) -> Result<Seq<char>, UploadError> {
    match r {
        Ok(token) => Ok(token@),
        Err(e) => Err(e),
    }
}

/// Checks that a boundary parameter is there and usable as a token.
pub fn require_boundary(param: Option<String>) -> (token: Result<String, UploadError>)
    ensures
        token_of(token) == required(text_of(param)),
{
    match param {
        Some(token) => if token.as_str().is_empty() {
            Err(UploadError::MissingBoundary)
        } else {
            Ok(token)
        },
        None => Err(UploadError::MissingBoundary),
    }
}

/// The boundary parameter of an optional content-type header value.
pub open spec fn header_boundary(content_type: Option<Seq<char>>) -> Option<Seq<char>> {
    match content_type {
        Some(value) => boundary_param(value),
        None => None,
    }
}

/// Extracts the boundary parameter from the content-type header of a
/// request, if the request has that header.
pub fn boundary_of(content_type: Option<&str>) -> (param: Option<String>)
    ensures
        text_of(param) == header_boundary(
            match content_type {
                Some(value) => Some(value@),
                None => None,
            },
        ),
{
    match content_type {
        Some(value) => read_boundary_param(value),
        None => None,
    }
}

/// The boundary token that a request with the given content-type header is
/// decoded with, or `MissingBoundary` where the header yields none.
pub fn boundary_token(content_type: &str) -> (token: Result<String, UploadError>)
    ensures
        token_of(token) == required(boundary_param(content_type@)),
{
    require_boundary(read_boundary_param(content_type))
}

} // verus!
