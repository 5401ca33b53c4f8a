//! What the request/response endpoints answer, given what the store said.

use vstd::prelude::*;
use vstd::string::*;
use crate::envelope::{ContractError, Message};
use crate::storage::Guest;
use crate::sync::{seal_matches, SyncResponse};

verus! {

/// HTTP status of an answer that was given.
pub const STATUS_OK: u16 = 200;

/// HTTP status of an answer that was refused for want of a valid credential.
pub const STATUS_UNAUTHORIZED: u16 = 401;

/// The answer to a credential check.
#[derive(Clone, Debug, PartialEq, Eq)]
pub struct AdminAuthReply {
    pub success: bool,
    pub shop_name: String,
    pub error: String,
}

/// The answer to a request for a shop's guests.
#[derive(Clone, Debug, PartialEq, Eq)]
pub struct GuestListReply {
    pub status: u16,
    pub success: bool,
    pub guests: Vec<Guest>,
    pub error: String,
}

/// Whether a credential check let the caller in.
pub open spec fn let_in(outcome: Result<Option<String>, ContractError>) -> bool {
    outcome matches Ok(Some(_))
}

/// The answer to a credential check: the shop's name when the credential
/// was right, `Invalid PIN` when it was wrong, and the store's own words
/// (`failure`) when the store could not be asked.
pub fn auth_reply(outcome: Result<Option<String>, ContractError>, failure: String) -> (r:
    AdminAuthReply)
    ensures
        match outcome {
            Ok(Some(name)) => r.success && r.shop_name == name && r.error@ == Seq::<char>::empty(),
            Ok(None) => !r.success && r.shop_name@ == Seq::<char>::empty() && r.error@
                == "Invalid PIN"@,
            Err(_) => !r.success && r.shop_name@ == Seq::<char>::empty() && r.error == failure,
        },
{
    match outcome {
        Ok(Some(name)) => AdminAuthReply { success: true, shop_name: name, error: String::new() },
        Ok(None) => AdminAuthReply {
            success: false,
            shop_name: String::new(),
            error: String::from_str("Invalid PIN"),
        },
        Err(_) => AdminAuthReply { success: false, shop_name: String::new(), error: failure },
    }
}

/// Whether a credential check let the caller in: the store answered, and
/// with a shop.
pub fn is_authorized(outcome: &Result<Option<String>, ContractError>) -> (ok: bool)
    ensures
        ok == let_in(*outcome),
{
    match outcome {
        Ok(Some(_)) => true,
        _ => false,
    }
}

/// The answer to a request for a shop's guests: refused without a valid
/// credential; otherwise the guests the store listed, or none when the store
/// could not be asked.
pub fn guest_list_reply(authorized: bool, listed: Result<Vec<Guest>, ContractError>) -> (r:
    GuestListReply)
    ensures
        !authorized ==> r.status == STATUS_UNAUTHORIZED && !r.success && r.guests@
            == Seq::<Guest>::empty() && r.error@ == "Unauthorized"@,
        authorized ==> r.status == STATUS_OK && r.success && r.error@ == Seq::<char>::empty(),
        authorized ==> match listed {
            Ok(guests) => r.guests == guests,
            Err(_) => r.guests@ == Seq::<Guest>::empty(),
        },
{
    if !authorized {
        return GuestListReply {
            status: STATUS_UNAUTHORIZED,
            success: false,
            guests: Vec::new(),
            error: String::from_str("Unauthorized"),
        };
    }
    let guests = match listed {
        Ok(guests) => guests,
        Err(_) => Vec::new(),
    };
    GuestListReply { status: STATUS_OK, success: true, guests, error: String::new() }
}

/// The history page to answer with: the envelopes the store gave, or none
/// when the store could not be asked; stamped, marked as the last page, and
/// sealed.
pub fn sync_reply(fetched: Result<Vec<Message>, ContractError>, now_us: u64) -> (page:
    SyncResponse)
    ensures
        match fetched {
            Ok(messages) => page.messages == messages,
            Err(_) => page.messages@ == Seq::<Message>::empty(),
        },
        page.server_timestamp_us == now_us,
        !page.has_more,
        seal_matches(page@),
{
    let messages = match fetched {
        Ok(messages) => messages,
        Err(_) => Vec::new(),
    };
    SyncResponse::sealed(messages, now_us, false)
}

} // verus!
