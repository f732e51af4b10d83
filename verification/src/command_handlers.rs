//! The requests that the client's commands send, and what it reports of the
//! answers.
pub mod search_command_handler;

use vstd::prelude::*;
use crate::message::server_requests::{LoginRequest, ServerRequests};
use crate::message::server_responses::ServerResponses;

verus! {

/// The request that logs a user in.
pub fn login_request(username: String, password: String) -> (request: ServerRequests)
    ensures
        request matches ServerRequests::LoginRequest(login) && login.username@ == username@
            && login.password@ == password@,
{
    ServerRequests::LoginRequest(LoginRequest { username, password })
}

/// The message a login reports to the user: the server's message, whether or
/// not the server accepted the login.
pub fn login_message(response: ServerResponses) -> (message: String)
    ensures
        response matches ServerResponses::LoginResponse(login) && message@ == login.message@,
{
    match response {
        ServerResponses::LoginResponse(login_response) => login_response.message,
    }
}

} // verus!
