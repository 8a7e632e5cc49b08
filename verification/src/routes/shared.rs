//! What several handlers share: the answer to a count, to a write and to a
//! request to delete.

use crate::models::id::EntityId;
use crate::routes::guard::Denial;
use crate::routes::reply::{Reply, Status};
use crate::services::db::{by_id, Collection, Filter, Lookup, Selection, StoreFailure};
use vstd::prelude::*;

verus! {

/// What the store hands back for a record it wrote.
#[derive(Debug)]
pub struct Inserted {
    pub inserted_id: EntityId,
}

/// Answers how many records a collection holds, given the store's count.
pub fn counted(count: Result<u64, StoreFailure>) -> (reply: Reply<u64>)
    ensures
        match count {
            Ok(amount) => reply.carries(amount),
            Err(_) => reply.says(Status::InternalServerError, "Error counting records."@),
        },
{
    match count {
        Ok(amount) => Reply::json(amount),
        Err(_) => Reply::text(Status::InternalServerError, "Error counting records."),
    }
}

/// Decides on a request to delete a record of `collection`, given what
/// the check of the token came to and what the store found under the
/// identity: the record to delete, or the answer that refuses. A request
/// that may not pass is refused before anything else is looked at; an
/// identity that is none and a failing store are server errors; a record
/// that is not there is not found, in the words given.
pub fn delete_found<T, P>(
    pass: Result<P, Denial>,
    collection: Collection,
    id: &str,
    found: &Lookup<T>,
    missing: &str,
) -> (decided: Result<Selection, Reply<()>>)
    ensures
        match pass {
            Err(denial) => decided matches Err(reply) && reply.says(
                denial.status(),
                denial.words(),
            ),
            Ok(_) => match by_id(collection, id@) {
                None => decided matches Err(reply) && reply.says(
                    Status::InternalServerError,
                    "Error parsing ID."@,
                ),
                Some(selection) => match found {
                    Ok(Some(_)) => decided matches Ok(made) && made@ == selection,
                    Ok(None) => decided matches Err(reply) && reply.says(
                        Status::NotFound,
                        missing@,
                    ),
                    Err(failure) => decided matches Err(reply) && reply.says(
                        Status::InternalServerError,
                        failure.message@,
                    ),
                },
            },
        },
{
    match pass {
        Err(denial) => {
            return Err(denial.reply());
        },
        Ok(_) => {},
    }
    let selection = match EntityId::parse_str(id) {
        Some(id) => Selection { collection, filter: Filter::Id { id } },
        None => {
            return Err(Reply::text(Status::InternalServerError, "Error parsing ID."));
        },
    };
    match found {
        Ok(Some(_)) => Ok(selection),
        Ok(None) => Err(Reply::text(Status::NotFound, missing)),
        Err(failure) => Err(Reply::message(Status::InternalServerError, failure.message.clone())),
    }
}

/// Answers a request to delete once the store was asked to: the words of
/// success, or a server error in the words of failure.
pub fn deleted(outcome: &Result<(), StoreFailure>, done: &str, failed: &str) -> (reply: Reply<()>)
    ensures
        match outcome {
            Ok(_) => reply.says(Status::Success, done@),
            Err(_) => reply.says(Status::InternalServerError, failed@),
        },
{
    match outcome {
        Ok(_) => Reply::text(Status::Success, done),
        Err(_) => Reply::text(Status::InternalServerError, failed),
    }
}

} // verus!
