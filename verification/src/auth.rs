//! Who may call the agent.

use vstd::prelude::*;
use crate::outside::{ascii_text, header_text, visible_ascii};
use crate::state::{AppState, StateView};
use crate::text::{has_prefix, same_text, strip_prefix};

verus! {

/// The bytes of an optional header.
pub open spec fn bytes_of(bytes: Option<Vec<u8>>) -> Option<Seq<u8>> {
    match bytes {
        Some(b) => Some(b@),
        None => None,
    }
}

/// The bearer token that an `Authorization` header carries.
pub open spec fn bearer(header: Option<Seq<u8>>) -> Option<Seq<char>> {
    match header {
        Some(bytes) => if visible_ascii(bytes) && has_prefix(ascii_text(bytes), "Bearer "@) {
            Some(ascii_text(bytes).skip("Bearer "@.len() as int))
        } else {
            None
        },
        None => None,
    }
}

/// Whether the header carries the token of this agent or that of its mesh.
pub open spec fn authorized(state: StateView, header: Option<Seq<u8>>) -> bool {
    match bearer(header) {
        Some(token) => token == state.bearer_token || state.mesh_token == Some(token),
        None => false,
    }
}

/// Whether a request with the given `Authorization` header may go on.
pub fn check_auth(header: &Option<Vec<u8>>, state: &AppState) -> (r: bool)
    ensures
        r == authorized(state@, bytes_of(*header)),
{
    let text: String = match header {
        Some(bytes) => match header_text(bytes.as_slice()) {
            Some(text) => text,
            None => {
                return false;
            },
        },
        None => {
            return false;
        },
    };
    let token: &str = match strip_prefix(text.as_str(), "Bearer ") {
        Some(token) => token,
        None => {
            return false;
        },
    };
    if same_text(token, state.bearer_token.as_str()) {
        return true;
    }
    match &state.mesh_token {
        Some(mesh_token) => same_text(token, mesh_token.as_str()),
        None => false,
    }
}

/// A request passes only with a header of the form `Bearer <token>` and with one
/// of the two tokens; where the agent has no mesh token, only with its own.
pub proof fn law_only_known_tokens_pass(state: StateView, header: Option<Seq<u8>>)
    ensures
        authorized(state, header) ==> header is Some && visible_ascii(header->0) && (ascii_text(
            header->0,
        ) == "Bearer "@ + state.bearer_token || (state.mesh_token is Some && ascii_text(header->0)
            == "Bearer "@ + state.mesh_token->0)),
        header is None ==> !authorized(state, header),
{
    if authorized(state, header) {
        let text = ascii_text(header->0);
        let p = "Bearer "@;
        assert(text =~= p + text.skip(p.len() as int));
    }
}

/// Every header made of `Bearer` and one of the two tokens passes, where the
/// token can stand in a header.
pub proof fn law_known_tokens_pass(state: StateView, header: Seq<u8>, token: Seq<char>)
    requires
        token == state.bearer_token || state.mesh_token == Some(token),
        visible_ascii(header),
        ascii_text(header) == "Bearer "@ + token,
    ensures
        authorized(state, Some(header)),
{
    let p = "Bearer "@;
    assert((p + token).take(p.len() as int) =~= p);
    assert((p + token).skip(p.len() as int) =~= token);
}

} // verus!
