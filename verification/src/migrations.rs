//! The outcome of running the embedded migrations.

use crate::error::DbError;
use crate::error::Result;
use vstd::prelude::*;

verus! {

/// What running the pending migrations reports, given what the run gave with
/// a failure described by its message: a failure becomes
/// [`DbError::Migration`] holding that message.
pub fn migration_result(ran: std::result::Result<(), String>) -> (r: Result<()>)
    ensures
        ran matches Ok(_) ==> r == Ok::<(), DbError>(()),
        ran matches Err(message) ==> r == Err::<(), DbError>(DbError::Migration(message)),
{
    match ran {
        Ok(()) => Ok(()),
        Err(message) => Err(DbError::Migration(message)),
    }
}

} // verus!
