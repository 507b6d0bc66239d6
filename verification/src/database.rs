//! What the relational layer decides once the database has answered: whether
//! a statement changed as many rows as it should, and which error stands for
//! a failure.

use vstd::prelude::*;
use crate::text::{decimal_string, decimal_text, push_text};

verus! {

/// What the logic reads of an error that the database driver reported.
pub struct SqlxFault {
    /// The query was to return a row and returned none.
    pub row_not_found: bool,
    /// The driver's description of the error.
    pub message: String,
}

/// The errors of the relational layer.
#[derive(Debug)]
pub enum DBError {
    /// An error of the database driver, with its description.
    SQLXError(String),
    /// A statement changed `actual` rows where `expected` were to change.
    UnexpectedRowsAffected { expected: u64, actual: u64 },
    /// A query returned no row.
    NoResult,
}

/// Whether two errors are of the same kind and, where they count rows, count
/// the same; the description of a driver error is not compared.
pub open spec fn same_error(left: DBError, right: DBError) -> bool {
    match (left, right) {
        (
            DBError::UnexpectedRowsAffected { expected: l_expected, actual: l_actual },
            DBError::UnexpectedRowsAffected { expected: r_expected, actual: r_actual },
        ) => l_expected == r_expected && l_actual == r_actual,
        (DBError::SQLXError(_), DBError::SQLXError(_)) => true,
        (DBError::NoResult, DBError::NoResult) => true,
        _ => false,
    }
}

impl PartialEq for DBError {
    fn eq(&self, other: &Self) -> (equal: bool) {
        match (self, other) {
            (
                DBError::UnexpectedRowsAffected { expected: l_expected, actual: l_actual },
                DBError::UnexpectedRowsAffected { expected: r_expected, actual: r_actual },
            ) => *l_expected == *r_expected && *l_actual == *r_actual,
            (DBError::SQLXError(_), DBError::SQLXError(_)) => true,
            (DBError::NoResult, DBError::NoResult) => true,
            _ => false,
        }
    }
}

impl vstd::std_specs::cmp::PartialEqSpecImpl for DBError {
    open spec fn obeys_eq_spec() -> bool {
        true
    }

    open spec fn eq_spec(&self, other: &Self) -> bool {
        same_error(*self, *other)
    }
}

/// The text of an error that counts rows.
pub open spec fn rows_message(expected: u64, actual: u64) -> Seq<char> {
    "Expected '"@ + decimal_text(expected as nat) + "' rows to change, saw '"@ + decimal_text(
        actual as nat,
    ) + "'"@
}

impl DBError {
    /// The error that a fault of the driver stands for: no result where the
    /// fault says that no row was found, else a driver error with the
    /// fault's description.
    pub fn from(err: SqlxFault) -> (error: DBError)
        ensures
            err.row_not_found ==> error == DBError::NoResult,
            !err.row_not_found ==> error == DBError::SQLXError(err.message),
    {
        if err.row_not_found {
            DBError::NoResult
        } else {
            DBError::SQLXError(err.message)
        }
    }

    /// The text of the error: the driver's description, the two row counts,
    /// or that a query brought nothing.
    pub open spec fn message_text(self) -> Seq<char> {
        match self {
            DBError::SQLXError(message) => message@,
            DBError::UnexpectedRowsAffected { expected, actual } => rows_message(expected, actual),
            DBError::NoResult => "A query resulted in no rows being returned"@,
        }
    }

    /// Writes the error as text.
    pub fn to_string(&self) -> (text: String)
        ensures
            text@ == self.message_text(),
    {
        match self {
            DBError::SQLXError(message) => message.clone(),
            DBError::UnexpectedRowsAffected { expected, actual } => {
                let mut text = "Expected '".to_owned();
                push_text(&mut text, decimal_string(*expected).as_str());
                push_text(&mut text, "' rows to change, saw '");
                push_text(&mut text, decimal_string(*actual).as_str());
                push_text(&mut text, "'");
                text
            },
            DBError::NoResult => "A query resulted in no rows being returned".to_owned(),
        }
    }
}

/// Holds the number of rows that a statement changed against the number it
/// was to change.
pub fn expected_rows_affected(rows_affected: u64, expected_rows: u64) -> (result: Result<
    (),
    DBError,
>)
    ensures
        rows_affected == expected_rows ==> result is Ok,
        rows_affected != expected_rows ==> result == Err::<(), DBError>(
            DBError::UnexpectedRowsAffected { expected: expected_rows, actual: rows_affected },
        ),
{
    if rows_affected == expected_rows {
        Ok(())
    } else {
        Err(DBError::UnexpectedRowsAffected { expected: expected_rows, actual: rows_affected })
    }
}

} // verus!
