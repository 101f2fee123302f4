//! The NEAR host as this library meets it: the account identifier that listings carry,
//! and the identity of the party that signed the running call.
//!
//! Nothing in this file is proved. Each item states what the rest of the library takes
//! on trust about `near_sdk`.

use vstd::prelude::*;

verus! {

/// `near_sdk::AccountId`. The library never looks inside one: it stores the value a caller
/// gave and hands it back.
#[verifier::external_type_specification]
#[verifier::external_body]
pub struct ExAccountId(near_sdk::AccountId);

/// `<near_sdk::AccountId as Clone>::clone`. The type derives `Clone` over its boxed text,
/// so the copy is the identifier it was made from.
pub assume_specification[ <near_sdk::AccountId as Clone>::clone ](
    account: &near_sdk::AccountId,
) -> (copy: near_sdk::AccountId)
    ensures
        copy == *account,
;

/// `near_sdk::env::signer_account_id`, rendered as text. The host decides the value, so
/// nothing is claimed about it. The host refuses this call inside a view call and aborts
/// there; the library only asks for the signer from operations that change state.
#[verifier::external_body]
pub(crate) fn signer_account_id() -> (signer: String) {
    near_sdk::env::signer_account_id().to_string()
}

} // verus!
