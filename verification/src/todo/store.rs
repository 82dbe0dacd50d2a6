//! Storing tasks: the insertion protocol with its one disambiguated retry.

use vstd::prelude::*;
use vstd::string::StringExecFns;
use crate::clock::{utc_stamp, utc_text};
use crate::error::{Error, StorageError};
use crate::text::{contains_text, occurs_in};
use crate::todo::task::{TodoTask, TodoTaskView};

verus! {

/// The calendar pattern of the discriminator: date, underscore, time of day.
pub const STAMP_PATTERN: &'static str = "%Y%m%d_%H%M%S";

/// What a store says when a key is taken.
pub const DUPLICATE_MARK: &'static str = "duplicate key error";

/// An id with a discriminator appended.
pub open spec fn discriminated_id(id: Seq<char>, stamp: Seq<char>) -> Seq<char> {
    id + "_"@ + stamp
}

/// A discriminated id is never the id it was made from.
pub proof fn lemma_discriminated_differs(id: Seq<char>, stamp: Seq<char>)
    ensures
        discriminated_id(id, stamp) != id,
{
    reveal_strlit("_");
    assert(discriminated_id(id, stamp).len() == id.len() + 1 + stamp.len());
}

/// The task under a discriminated id; everything else stays.
pub fn with_discriminator(task: TodoTask, stamp: &str) -> (r: TodoTask)
    ensures
        r@ == (TodoTaskView { id: discriminated_id(task@.id, stamp@), ..task@ }),
{
    let mut t = task;
    let id = t.id.clone().concat("_").concat(stamp);
    t.id = id;
    t
}

/// The task as it is stored on a second try: under its id with the time of
/// its creation appended. There is none where that time has no calendar
/// text.
pub open spec fn second_try(task: TodoTaskView) -> Option<TodoTaskView> {
    match utc_text(task.created_at as int, STAMP_PATTERN@) {
        Some(stamp) => Some(TodoTaskView { id: discriminated_id(task.id, stamp), ..task }),
        None => None,
    }
}

/// Gives the task the id for a second try.
pub fn disambiguated(task: TodoTask) -> (r: Option<TodoTask>)
    ensures
        r.deep_view() == second_try(task@),
{
    match utc_stamp(task.created_at, STAMP_PATTERN) {
        Some(stamp) => Some(with_discriminator(task, stamp.as_str())),
        None => None,
    }
}

/// Tells a taken key from other failures by what the store said.
pub fn classify_store_error(complaint: String) -> (r: StorageError)
    ensures
        occurs_in(DUPLICATE_MARK@, complaint@) ==> r == StorageError::DuplicateKey,
        !occurs_in(DUPLICATE_MARK@, complaint@) ==> r == StorageError::Other(complaint),
{
    if contains_text(complaint.as_str(), DUPLICATE_MARK) {
        StorageError::DuplicateKey
    } else {
        StorageError::Other(complaint)
    }
}

/// What is said when a task was stored.
pub open spec fn added_text(description: Seq<char>) -> Seq<char> {
    "Added new todo: "@ + description
}

/// What is said when a task was stored.
pub fn added_message(description: &str) -> (r: String)
    ensures
        r@ == added_text(description@),
{
    "Added new todo: ".to_owned().concat(description)
}

/// What to do after the first try to store a task.
#[derive(Debug, PartialEq)]
pub enum InsertStep {
    /// The task is stored; this is what to say.
    Stored(String),
    /// The key was taken: try once more, under the id given here.
    Retry(TodoTask),
    /// Give up with this error.
    Failed(Error),
}

/// What to do after the first try to store `task`, given the store's answer.
///
/// A stored task is reported. A taken key leads to exactly one more try,
/// under the discriminated id, or to `DuplicateKey` where no discriminator
/// can be had. Any other failure surfaces as it is.
pub fn after_first_insert(task: TodoTask, answer: Result<(), StorageError>) -> (r: InsertStep)
    ensures
        match answer {
            Ok(()) => r matches InsertStep::Stored(m) && m@ == added_text(task@.description),
            Err(StorageError::DuplicateKey) => match second_try(task@) {
                Some(t) => r matches InsertStep::Retry(again) && again@ == t,
                None => r matches InsertStep::Failed(Error::StorageError(StorageError::DuplicateKey)),
            },
            Err(StorageError::Other(what)) => r matches InsertStep::Failed(
                Error::StorageError(StorageError::Other(w)),
            ) && w@ == what@,
        },
{
    match answer {
        Ok(()) => InsertStep::Stored(added_message(task.description.as_str())),
        Err(StorageError::DuplicateKey) => match disambiguated(task) {
            Some(again) => InsertStep::Retry(again),
            None => InsertStep::Failed(Error::StorageError(StorageError::DuplicateKey)),
        },
        Err(StorageError::Other(what)) => InsertStep::Failed(
            Error::StorageError(StorageError::Other(what)),
        ),
    }
}

/// What comes of the second try, given the store's answer. A second failure
/// of any kind is final.
pub fn after_retry(description: &str, answer: Result<(), StorageError>) -> (r: Result<
    String,
    Error,
>)
    ensures
        match answer {
            Ok(()) => r matches Ok(m) && m@ == added_text(description@),
            Err(StorageError::DuplicateKey) => r matches Err(
                Error::StorageError(StorageError::DuplicateKey),
            ),
            Err(StorageError::Other(what)) => r matches Err(
                Error::StorageError(StorageError::Other(w)),
            ) && w@ == what@,
        },
{
    match answer {
        Ok(()) => Ok(added_message(description)),
        Err(e) => Err(Error::StorageError(e)),
    }
}

} // verus!
