//! The failures of the store, and the error that request handlers return.

use crate::text::{decimal, push_decimal};
use vstd::prelude::*;

verus! {

/// Why an operation of the store failed.
#[derive(Clone, Copy, Debug, PartialEq, Eq, Structural)]
pub enum StoreError {
    /// No item with this id is in the store.
    NotFound(usize),
    /// The counter has reached the largest id: no further item can be created.
    IdSpaceExhausted,
}

/// The status a response carries when a handler fails: a missing item is the
/// client's mistake, an exhausted id space is the server's.
pub open spec fn status_of(err: StoreError) -> u16 {
    match err {
        StoreError::NotFound(_) => 404,
        StoreError::IdSpaceExhausted => 500,
    }
}

/// The message that describes a failure.
pub open spec fn message_of(err: StoreError) -> Seq<char> {
    match err {
        StoreError::NotFound(id) => "todo "@ + decimal(id as nat) + " not found"@,
        StoreError::IdSpaceExhausted => "todo id space exhausted"@,
    }
}

/// The error of a request handler: the store's failure, ready to be turned
/// into a response.
#[derive(Clone, Copy, Debug, PartialEq, Eq, Structural)]
pub struct MyError {
    pub err: StoreError,
}

impl MyError {
    /// The message shown for this error.
    pub fn message(&self) -> (text: String)
        ensures
            text@ == message_of(self.err),
    {
        let mut text = String::new();
        match self.err {
            StoreError::NotFound(id) => {
                text.append("todo ");
                push_decimal(&mut text, id);
                text.append(" not found");
                assert(text@ =~= message_of(self.err));
            },
            StoreError::IdSpaceExhausted => {
                text.append("todo id space exhausted");
                assert(text@ =~= message_of(self.err));
            },
        }
        text
    }

    /// The HTTP status of the response for this error.
    pub fn status_code(&self) -> (code: u16)
        ensures
            code == status_of(self.err),
    {
        match self.err {
            StoreError::NotFound(_) => 404,
            StoreError::IdSpaceExhausted => 500,
        }
    }
}

impl From<StoreError> for MyError {
    fn from(err: StoreError) -> (e: MyError) {
        MyError { err }
    }
}

impl vstd::std_specs::convert::FromSpecImpl<StoreError> for MyError {
    open spec fn obeys_from_spec() -> bool {
        true
    }

    open spec fn from_spec(err: StoreError) -> MyError {
        MyError { err }
    }
}

} // verus!
