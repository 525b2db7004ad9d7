//! The restaurant service behind the menu endpoint.
use vstd::prelude::*;
use crate::endpoints::ErrorReply;
use crate::text::{ends_with_whole, holds_whole_at};
use crate::transport::{InternalErrorResponse, MenuItem, MenuRequest, MenuResponse};

verus! {

/// The restaurant service.
#[derive(Debug)]
pub struct RestaurantServiceImp {}

impl Default for RestaurantServiceImp {
    fn default() -> (res: Self)
        ensures
            res == (RestaurantServiceImp {}),
    {
        RestaurantServiceImp {}
    }
}

impl RestaurantServiceImp {
    /// The menu: one pizza at 10.00.
    pub fn get_menu(&self, request: &MenuRequest) -> (res: MenuResponse)
        ensures
            res.items@.len() == 1,
            res.items@[0].name matches Some(n) && n@ == "Pizza"@,
            res.items@[0].price_cents == 1000,
    {
        let pizza = MenuItem { name: Some("Pizza".to_owned()), price_cents: 1000 };
        MenuResponse { items: vec![pizza] }
    }
}

/// The description of a gRPC status code, as `tonic::Code` displays it. Numbers
/// outside 0 to 16 stand for `Unknown`.
pub open spec fn grpc_code_description(code: i32) -> Seq<char> {
    if code == 0 {
        "The operation completed successfully"@
    } else if code == 1 {
        "The operation was cancelled"@
    } else if code == 3 {
        "Client specified an invalid argument"@
    } else if code == 4 {
        "Deadline expired before operation could complete"@
    } else if code == 5 {
        "Some requested entity was not found"@
    } else if code == 6 {
        "Some entity that we attempted to create already exists"@
    } else if code == 7 {
        "The caller does not have permission to execute the specified operation"@
    } else if code == 8 {
        "Some resource has been exhausted"@
    } else if code == 9 {
        "The system is not in a state required for the operation's execution"@
    } else if code == 10 {
        "The operation was aborted"@
    } else if code == 11 {
        "Operation was attempted past the valid range"@
    } else if code == 12 {
        "Operation is not implemented or not supported"@
    } else if code == 13 {
        "Internal error"@
    } else if code == 14 {
        "The service is currently unavailable"@
    } else if code == 15 {
        "Unrecoverable data loss or corruption"@
    } else if code == 16 {
        "The request does not have valid authentication credentials"@
    } else {
        "Unknown error"@
    }
}

/// `tonic::Code::from_i32(code).to_string()`: the description of the code, as
/// the table `grpc_code_description` gives it (unknown numbers count as
/// `Unknown`, code 2).
#[verifier::external_body]
fn code_description(code: i32) -> (res: String)
    ensures
        res@ == grpc_code_description(code),
{
    tonic::Code::from_i32(code).to_string()
}

/// The message of a refused menu request: `Error: <message>. Status code: <code>`.
pub open spec fn status_message(error_message: Seq<char>, code_text: Seq<char>) -> Seq<char> {
    "Error: "@ + error_message + ". Status code: "@ + code_text
}

/// The message holds the whole error message right after `Error: `, and ends
/// with the whole code description.
pub proof fn lemma_status_message_keeps_parts(error_message: Seq<char>, code_text: Seq<char>)
    ensures
        holds_whole_at(
            status_message(error_message, code_text),
            status_message(Seq::empty(), code_text),
            "Error: "@.len() as int,
            error_message,
        ),
        ends_with_whole(
            status_message(error_message, code_text),
            status_message(error_message, Seq::empty()),
            code_text,
        ),
{
    let m = status_message(error_message, code_text);
    let b1 = status_message(Seq::empty(), code_text);
    let k = "Error: "@.len() as int;
    assert(m =~= b1.take(k) + error_message + b1.skip(k));
    let b2 = status_message(error_message, Seq::empty());
    assert(m.take(b2.len() as int) =~= b2);
    assert(m.skip(b2.len() as int) =~= code_text);
}

/// The answer to a menu request that the service refused: `500` and
/// `Error: <error message>. Status code: <code description>`.
pub fn status_error_reply(error: &InternalErrorResponse, code_text: &str) -> (res: ErrorReply)
    ensures
        res.status == 500,
        res.message@ == status_message(error.error_message@, code_text@),
{
    let mut message = String::new();
    message.append("Error: ");
    message.append(error.error_message.as_str());
    message.append(". Status code: ");
    message.append(code_text);
    ErrorReply { status: 500, message }
}

/// The answer to a menu request that the service refused with status `code`.
pub fn menu_failure_reply(code: i32) -> (res: ErrorReply)
    ensures
        res.status == 500,
        res.message@ == status_message("oops"@, grpc_code_description(code)),
{
    let error = InternalErrorResponse { error_message: "oops".to_owned() };
    let text = code_description(code);
    let res = status_error_reply(&error, text.as_str());
    res
}

} // verus!
