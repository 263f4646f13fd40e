use vstd::prelude::*;

use crate::models::data_store::UserStoreError;
use crate::models::email::{is_valid_email, Email};
use crate::models::password::{is_usable_hash, HashedPassword};
use crate::models::user::User;

verus! {

/// The column value that stores the account id `id`: the same 64 bits, read
/// as a signed number.
pub fn id_to_column(id: u64) -> (r: i64)
    ensures
        r == id as i64,
        r as u64 == id,
{
    let r = id as i64;
    assert(id as i64 as u64 == id) by (bit_vector);
    r
}

/// The account id that the column value `column` stores.
pub fn id_from_column(column: i64) -> (r: u64)
    ensures
        r == column as u64,
        r as i64 == column,
{
    let r = column as u64;
    assert(column as u64 as i64 == column) by (bit_vector);
    r
}

/// Builds an account from the columns of its row. A row whose address or
/// hash does not read back is reported as a failure of the store.
pub fn user_from_row(id: i64, email: String, password_hash: String, requires_2fa: bool) -> (r:
    Result<User, UserStoreError>)
    ensures
        match r {
            Ok(user) => {
                &&& is_valid_email(email@)
                &&& is_usable_hash(password_hash@)
                &&& user.id == id as u64
                &&& user.email@ == email@
                &&& user.password@ == password_hash@
                &&& user.requires_2_fa == requires_2fa
            },
            Err(e) => e == UserStoreError::UnexpectedError && !(is_valid_email(email@)
                && is_usable_hash(password_hash@)),
        },
{
    let email = match Email::new(email) {
        Ok(email) => email,
        Err(_) => { return Err(UserStoreError::UnexpectedError); },
    };
    let password = match HashedPassword::parse_password_hash(password_hash) {
        Ok(password) => password,
        Err(_) => { return Err(UserStoreError::UnexpectedError); },
    };
    Ok(User { id: id_from_column(id), email, password, requires_2_fa: requires_2fa })
}

} // verus!
