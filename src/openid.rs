use vstd::prelude::*;

verus! {

/// A token pair as the token endpoint issues it; lifetimes are in seconds
/// from issuance.
pub struct Token {
    pub access_token: String,
    pub expires_in: i64,
    pub refresh_expires_in: i64,
    pub refresh_token: String,
    pub token_type: String,
    pub id_token: String,
    pub not_before_policy: i64,
    pub session_state: String,
    pub scope: String,
}

} // verus!
