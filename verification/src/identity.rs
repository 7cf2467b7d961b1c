//! The identity collaborator, at its interface boundary: numeric user id to
//! account, account to display name. Every call into the users crate goes
//! through the trusted wrappers here.
use vstd::prelude::*;

verus! {

#[verifier::external_type_specification]
#[verifier::external_body]
pub struct ExUser(users::User);

/// Relies on users::get_user_by_uid: looks the numeric user id up in the
/// system account database, `None` when no account matches. What comes back
/// depends on that database, so nothing is promised of the outcome.
#[verifier::external_body]
pub(crate) fn find_user(uid: u32) -> (r: Option<users::User>) {
    users::get_user_by_uid(uid)
}

/// Relies on users::User::name (with std's lossy decoding of the OS string)
/// for the account's display name.
#[verifier::external_body]
pub(crate) fn user_display_name(user: &users::User) -> (r: String) {
    user.name().to_string_lossy().into_owned()
}

} // verus!
