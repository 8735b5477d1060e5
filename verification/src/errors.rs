use vstd::prelude::*;

verus! {

/// What the library keeps of a failure reported by the database layer:
/// whether the database found no row to act on, and the failure's text.
#[derive(Debug, Clone, PartialEq, Eq)]
pub struct DatabaseError {
    pub not_found: bool,
    pub message: String,
}

/// The errors of the service.
#[derive(Debug, Clone, PartialEq, Eq)]
pub enum MyError {
    NotFound,
    Unprocessable,
    DbError(DatabaseError),
}

/// The HTTP answer that an error is turned into: a status code and a body.
#[derive(Debug, Clone, PartialEq, Eq)]
pub struct ErrorResponse {
    pub status: u16,
    pub body: String,
}

pub const STATUS_NOT_FOUND: u16 = 404;
pub const STATUS_UNPROCESSABLE: u16 = 422;
pub const STATUS_INTERNAL_ERROR: u16 = 500;

impl MyError {
    /// The status code that answers this error: a missing client is 404, a
    /// refused request is 422 (also when the database found no row to update),
    /// and any other database failure is 500.
    pub open spec fn status_of(self) -> u16 {
        match self {
            MyError::NotFound => STATUS_NOT_FOUND,
            MyError::Unprocessable => STATUS_UNPROCESSABLE,
            MyError::DbError(e) => if e.not_found {
                STATUS_UNPROCESSABLE
            } else {
                STATUS_INTERNAL_ERROR
            },
        }
    }

    /// The body of the answer: the failure's text for a database failure
    /// answered with 500, nothing otherwise.
    pub open spec fn body_of(self) -> Seq<char> {
        match self {
            MyError::DbError(e) => if e.not_found {
                Seq::empty()
            } else {
                e.message@
            },
            _ => Seq::empty(),
        }
    }

    pub fn error_response(&self) -> (r: ErrorResponse)
        ensures
            r.status == self.status_of(),
            r.body@ == self.body_of(),
    {
        match self {
            MyError::NotFound => ErrorResponse { status: STATUS_NOT_FOUND, body: String::new() },
            MyError::Unprocessable => ErrorResponse {
                status: STATUS_UNPROCESSABLE,
                body: String::new(),
            },
            MyError::DbError(e) => {
                if e.not_found {
                    ErrorResponse { status: STATUS_UNPROCESSABLE, body: String::new() }
                } else {
                    ErrorResponse { status: STATUS_INTERNAL_ERROR, body: e.message.clone() }
                }
            },
        }
    }
}

/// How each error is answered: a missing client with 404 and no body, a
/// refused request with 422 and no body, the database finding no row to
/// update with 422 and no body, and any other database failure with 500 and
/// the failure's text as the body.
pub proof fn lemma_error_answers(d: DatabaseError)
    ensures
        MyError::NotFound.status_of() == 404,
        MyError::NotFound.body_of().len() == 0,
        MyError::Unprocessable.status_of() == 422,
        MyError::Unprocessable.body_of().len() == 0,
        d.not_found ==> MyError::DbError(d).status_of() == 422 && MyError::DbError(d).body_of().len()
            == 0,
        !d.not_found ==> MyError::DbError(d).status_of() == 500 && MyError::DbError(d).body_of()
            == d.message@,
{
}

} // verus!
