//! Items and order listings: how each answer of the store is reported.
//!
//! The documents themselves pass through untouched, so every function here
//! takes them as values of any type.

use vstd::prelude::*;
use vstd::string::StringExecFns;
use crate::api::{generate_error, is_error, ApiResponse, Status};

verus! {

/// The body of a request for one item.
#[derive(Debug, Clone)]
pub struct GetItemReq {
    pub id: String,
}

/// The body of a request to delete an item.
#[derive(Debug, Clone)]
pub struct DeleteItemReq {
    pub id: String,
}

/// What `urlencoding::decode` makes of a text: the text with its
/// percent-escapes resolved, or `None` where the resolved bytes are not UTF-8.
pub uninterp spec fn url_decoded(text: Seq<char>) -> Option<Seq<char>>;

/// Calls `urlencoding::decode`. Trusted: the result depends on the text alone.
#[verifier::external_body]
fn url_decode(text: &str) -> (decoded: Option<String>)
    ensures
        match decoded {
            Some(plain) => url_decoded(text@) == Some(plain@),
            None => url_decoded(text@) is None,
        },
{
    urlencoding::decode(text).ok().map(std::borrow::Cow::into_owned)
}

/// The failure whose message is `prefix` followed by `detail`.
fn detailed_error<T>(prefix: &str, detail: &str) -> (response: ApiResponse<T>)
    ensures
        is_error(response, prefix@ + detail@),
{
    let message: String = String::from_str(prefix).concat(detail);
    generate_error(message.as_str())
}

/// The failure whose message is `prefix`, then `detail`, then `suffix`.
fn framed_error<T>(prefix: &str, detail: &str, suffix: &str) -> (response: ApiResponse<T>)
    ensures
        is_error(response, prefix@ + detail@ + suffix@),
{
    let message: String = String::from_str(prefix).concat(detail).concat(suffix);
    generate_error(message.as_str())
}

/// What a search answers: the rows if there are any, not found if there are
/// none, and a server error with the store's own words if it failed.
pub open spec fn spec_some_rows<T>(
    answer: (Status, ApiResponse<Vec<T>>),
    found: Result<Vec<T>, String>,
    none: Seq<char>,
    failure: Seq<char>,
) -> bool {
    match found {
        Ok(rows) => if rows@.len() == 0 {
            answer.0 == Status::NotFound && is_error(answer.1, none)
        } else {
            answer.0 == Status::Success && answer.1 == ApiResponse::Success(rows)
        },
        Err(e) => answer.0 == Status::InternalServerError && is_error(answer.1, failure + e@),
    }
}

/// Reports a search that should find at least one row.
fn some_rows<T>(found: Result<Vec<T>, String>, none: &str, failure: &str) -> (answer: (
    Status,
    ApiResponse<Vec<T>>,
))
    ensures
        spec_some_rows(answer, found, none@, failure@),
{
    match found {
        Ok(rows) => {
            if rows.len() == 0 {
                (Status::NotFound, generate_error(none))
            } else {
                (Status::Success, ApiResponse::Success(rows))
            }
        },
        Err(e) => (Status::InternalServerError, detailed_error(failure, e.as_str())),
    }
}

/// The term to search by, or the refusal of a name that could not be decoded:
/// a malformed request.
pub fn term_or_refusal<T>(decoded: Option<String>) -> (step: Result<
    String,
    (Status, ApiResponse<Vec<T>>),
>)
    ensures
        match step {
            Ok(term) => decoded == Some(term),
            Err(answer) => decoded is None && answer.0 == Status::BadRequest && is_error(
                answer.1,
                "Item name is not valid UTF-8"@,
            ),
        },
{
    match decoded {
        Some(term) => Ok(term),
        None => Err((Status::BadRequest, generate_error("Item name is not valid UTF-8"))),
    }
}

/// The term to search items by: the name as it stands in the request path,
/// with its percent-escapes resolved. A name whose escapes do not spell UTF-8
/// is refused as a malformed request.
pub fn search_term<T>(name: &str) -> (step: Result<String, (Status, ApiResponse<Vec<T>>)>)
    ensures
        match step {
            Ok(term) => url_decoded(name@) == Some(term@),
            Err(answer) => url_decoded(name@) is None && answer.0 == Status::BadRequest
                && is_error(answer.1, "Item name is not valid UTF-8"@),
        },
{
    term_or_refusal(url_decode(name))
}

/// Reports the items whose name matches a search.
pub fn get_item<T>(found: Result<Vec<T>, String>) -> (answer: (Status, ApiResponse<Vec<T>>))
    ensures
        spec_some_rows(answer, found, "No Item Matches Provided Name"@, "Error getting item: "@),
{
    some_rows(found, "No Item Matches Provided Name", "Error getting item: ")
}

/// Reports the orders of one user.
pub fn get_orders<T>(found: Result<Vec<T>, String>) -> (answer: (Status, ApiResponse<Vec<T>>))
    ensures
        spec_some_rows(answer, found, "No orders found"@, "Error getting item: "@),
{
    some_rows(found, "No orders found", "Error getting item: ")
}

/// Reports all items. An empty list is a success like any other.
pub fn get_items<T>(found: Result<Vec<T>, String>) -> (answer: (Status, ApiResponse<Vec<T>>))
    ensures
        match found {
            Ok(rows) => answer.0 == Status::Success && answer.1 == ApiResponse::Success(rows),
            Err(e) => answer.0 == Status::InternalServerError && is_error(
                answer.1,
                "Error getting items: "@ + e@,
            ),
        },
{
    match found {
        Ok(rows) => (Status::Success, ApiResponse::Success(rows)),
        Err(e) => (Status::InternalServerError, detailed_error("Error getting items: ", e.as_str())),
    }
}

/// Reports the creation of the item called `name`. The store refuses a name
/// that is in use, so its refusal is the client's fault.
pub fn add_item<T>(name: &str, created: Result<Option<T>, String>) -> (answer: (
    Status,
    ApiResponse<T>,
))
    ensures
        match created {
            Ok(Some(item)) => answer.0 == Status::Success && answer.1 == ApiResponse::Success(item),
            Ok(None) => answer.0 == Status::InternalServerError && is_error(
                answer.1,
                "Error creating item"@,
            ),
            Err(_) => answer.0 == Status::BadRequest && is_error(
                answer.1,
                "Error creating item: Name "@ + name@ + " already used"@,
            ),
        },
{
    match created {
        Ok(Some(item)) => (Status::Success, ApiResponse::Success(item)),
        Ok(None) => (Status::InternalServerError, generate_error("Error creating item")),
        Err(_) => (
            Status::BadRequest,
            framed_error("Error creating item: Name ", name, " already used"),
        ),
    }
}

/// Reports the update of the item `id`. The store refuses an identifier that
/// it does not know, so its refusal means that the item was not found.
pub fn edit_item<T>(id: &str, updated: Result<Option<T>, String>) -> (answer: (
    Status,
    ApiResponse<T>,
))
    ensures
        match updated {
            Ok(Some(item)) => answer.0 == Status::Success && answer.1 == ApiResponse::Success(item),
            Ok(None) => answer.0 == Status::InternalServerError && is_error(
                answer.1,
                "Error updating item"@,
            ),
            Err(_) => answer.0 == Status::NotFound && is_error(
                answer.1,
                "Error updating item: id "@ + id@ + " not found"@,
            ),
        },
{
    match updated {
        Ok(Some(item)) => (Status::Success, ApiResponse::Success(item)),
        Ok(None) => (Status::InternalServerError, generate_error("Error updating item")),
        Err(_) => (Status::NotFound, framed_error("Error updating item: id ", id, " not found")),
    }
}

/// Reports the removal of an item: `removed` is what the store had under the
/// identifier, if it had anything.
pub fn delete_item<T>(removed: Result<Option<T>, String>) -> (answer: (Status, ApiResponse<T>))
    ensures
        match removed {
            Ok(Some(item)) => answer.0 == Status::Success && answer.1 == ApiResponse::Success(item),
            Ok(None) => answer.0 == Status::NotFound && is_error(
                answer.1,
                "Item to delete not found"@,
            ),
            Err(e) => answer.0 == Status::InternalServerError && is_error(
                answer.1,
                "Error deleting item: "@ + e@,
            ),
        },
{
    match removed {
        Ok(Some(item)) => (Status::Success, ApiResponse::Success(item)),
        Ok(None) => (Status::NotFound, generate_error("Item to delete not found")),
        Err(e) => (Status::InternalServerError, detailed_error("Error deleting item: ", e.as_str())),
    }
}

} // verus!
