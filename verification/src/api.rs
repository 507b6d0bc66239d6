//! The rules of the request layer: which requests are refused before
//! anything is done, and how a failure of the relational layer or of the
//! token service is answered.

use vstd::prelude::*;
use crate::auth::TokenError;
use crate::database::DBError;
use crate::text::{parse_u64, u64_literal};

verus! {

/// The posts that a listing returns at most.
pub const MAX_POSTS: u64 = 64;

/// The status of an answer that refuses a request.
#[derive(Clone, Copy, Debug, PartialEq, Eq, Structural)]
pub enum Status {
    BadRequest,
    Unauthorized,
    InternalServerError,
    AlreadyReported,
}

/// An answer that refuses a request: its status and, where one is given,
/// the reason.
#[derive(Clone, Copy, Debug)]
pub struct Refusal {
    pub status: Status,
    pub reason: Option<&'static str>,
}

/// A [`Refusal`] as plain values.
pub struct RefusalView {
    pub status: Status,
    pub reason: Option<Seq<char>>,
}

impl View for Refusal {
    type V = RefusalView;

    open spec fn view(&self) -> RefusalView {
        RefusalView {
            status: self.status,
            reason: match self.reason {
                Some(text) => Some(text@),
                None => None,
            },
        }
    }
}

/// The refusal as a bad request for the given reason.
pub open spec fn bad_request(reason: Seq<char>) -> RefusalView {
    RefusalView { status: Status::BadRequest, reason: Some(reason) }
}

/// The refusal with a status and no reason.
pub open spec fn plain(status: Status) -> RefusalView {
    RefusalView { status, reason: None }
}

/// What a check or a parse found, as plain values.
pub open spec fn outcome<T>(result: Result<T, Refusal>) -> Result<T, RefusalView> {
    match result {
        Ok(value) => Ok(value),
        Err(refusal) => Err(refusal@),
    }
}

fn refuse<T>(reason: &'static str) -> (result: Result<T, Refusal>)
    ensures
        outcome(result) == Err::<T, RefusalView>(bad_request(reason@)),
{
    Err(Refusal { status: Status::BadRequest, reason: Some(reason) })
}

/// The two texts of a request that must not be empty, and the refusals for
/// the first and for the second being empty.
pub open spec fn both_given(
    first: Seq<char>,
    second: Seq<char>,
    no_first: Seq<char>,
    no_second: Seq<char>,
) -> Result<(), RefusalView> {
    if first.len() == 0 {
        Err(bad_request(no_first))
    } else if second.len() == 0 {
        Err(bad_request(no_second))
    } else {
        Ok(())
    }
}

/// A registration needs a user name and a password.
pub fn check_new_account(username: &str, password: &str) -> (result: Result<(), Refusal>)
    ensures
        outcome(result) == both_given(
            username@,
            password@,
            "The provided username was empty"@,
            "The provided password hash was empty"@,
        ),
{
    if username.is_empty() {
        return refuse("The provided username was empty");
    }
    if password.is_empty() {
        return refuse("The provided password hash was empty");
    }
    Ok(())
}

/// A login needs a user name and a password.
pub fn check_login(username: &str, password: &str) -> (result: Result<(), Refusal>)
    ensures
        outcome(result) == both_given(
            username@,
            password@,
            "The provided username was empty"@,
            "The provided password was empty"@,
        ),
{
    if username.is_empty() {
        return refuse("The provided username was empty");
    }
    if password.is_empty() {
        return refuse("The provided password was empty");
    }
    Ok(())
}

/// A post needs a title and a body.
pub fn check_new_post(title: &str, body: &str) -> (result: Result<(), Refusal>)
    ensures
        outcome(result) == both_given(
            title@,
            body@,
            "Post has no title"@,
            "Post has no body/content"@,
        ),
{
    if title.is_empty() {
        return refuse("Post has no title");
    }
    if body.is_empty() {
        return refuse("Post has no body/content");
    }
    Ok(())
}

/// A comment needs a body.
pub fn check_new_comment(body: &str) -> (result: Result<(), Refusal>)
    ensures
        outcome(result) == if body@.len() == 0 {
            Err::<(), RefusalView>(bad_request("Comment without body"@))
        } else {
            Ok::<(), RefusalView>(())
        },
{
    if body.is_empty() {
        return refuse("Comment without body");
    }
    Ok(())
}

/// A change of password needs the old and the new password, and the two
/// must differ.
pub fn check_password_change(old_password: &str, new_password: &str) -> (result: Result<
    (),
    Refusal,
>)
    ensures
        outcome(result) == if old_password@.len() == 0 || new_password@.len() == 0 {
            Err::<(), RefusalView>(bad_request("One or both passwords are empty"@))
        } else if new_password@ == old_password@ {
            Err::<(), RefusalView>(bad_request("Old and new are identical"@))
        } else {
            Ok::<(), RefusalView>(())
        },
{
    if old_password.is_empty() || new_password.is_empty() {
        return refuse("One or both passwords are empty");
    }
    if new_password.to_owned() == old_password.to_owned() {
        return refuse("Old and new are identical");
    }
    Ok(())
}

/// A vote needs an account and a target, neither of them zero.
pub fn check_vote(account_id: u64, target_id: u64) -> (result: Result<(), Refusal>)
    ensures
        outcome(result) == if account_id == 0 || target_id == 0 {
            Err::<(), RefusalView>(plain(Status::BadRequest))
        } else {
            Ok::<(), RefusalView>(())
        },
{
    if account_id == 0 || target_id == 0 {
        return Err(Refusal { status: Status::BadRequest, reason: None });
    }
    Ok(())
}

/// What an id in a request's path identifies.
#[derive(Clone, Copy, Debug, PartialEq, Eq, Structural)]
pub enum Id {
    Post,
    Comment,
    User,
}

/// The reason given where an id does not read as a number.
pub open spec fn format_reason(kind: Id) -> Seq<char> {
    match kind {
        Id::Post => "Invalid post_id format"@,
        Id::Comment => "Invalid comment_id format"@,
        Id::User => "Invalid user_id format"@,
    }
}

/// Reads an id from a request's path: an unsigned 64-bit literal.
pub fn parse_id(path: &str, kind: Id) -> (id: Result<u64, Refusal>)
    ensures
        outcome(id) == match u64_literal(path@) {
            Some(number) => Ok::<u64, RefusalView>(number),
            None => Err::<u64, RefusalView>(bad_request(format_reason(kind))),
        },
{
    match parse_u64(path) {
        Some(number) => Ok(number),
        None => match kind {
            Id::Post => refuse("Invalid post_id format"),
            Id::Comment => refuse("Invalid comment_id format"),
            Id::User => refuse("Invalid user_id format"),
        },
    }
}

/// What the request layer asked of the relational layer when it failed.
#[derive(Clone, Copy, Debug, PartialEq, Eq, Structural)]
pub enum Step {
    CreateAccount,
    FindAccountForLogin,
    FindAccountForPasswordChange,
    UpdatePassword,
    ReadPosts,
    CreatePost,
    ReadPost,
    UpdatePost,
    DeletePost,
    ReadComments,
    CreateComment,
    UpdateComment,
    DeleteComment,
    Vote,
}

/// Whether an error says that a statement that was to change one row
/// changed none.
pub open spec fn changed_nothing(err: DBError) -> bool {
    err == (DBError::UnexpectedRowsAffected { expected: 1, actual: 0 })
}

/// How a failure of the relational layer is answered. A query without
/// result means an unknown user name or post; a statement that changed no
/// row means a name that is taken, or an id or data that fit nothing, or a
/// vote already cast; everything else is an internal error.
pub open spec fn failure_answer(err: DBError, step: Step) -> RefusalView {
    if err is NoResult {
        match step {
            Step::FindAccountForLogin => bad_request("Username doesn't exist"@),
            Step::FindAccountForPasswordChange => bad_request("Username does not exist"@),
            Step::ReadPost => bad_request("Invalid post_id"@),
            _ => plain(Status::InternalServerError),
        }
    } else if changed_nothing(err) {
        match step {
            Step::CreateAccount => bad_request("Username is taken"@),
            Step::UpdatePassword => plain(Status::BadRequest),
            Step::UpdatePost | Step::DeletePost => bad_request("Invalid post_id"@),
            Step::CreateComment => bad_request("Comment data was invalid"@),
            Step::UpdateComment | Step::DeleteComment => bad_request("Invalid comment_id"@),
            Step::Vote => plain(Status::AlreadyReported),
            _ => plain(Status::InternalServerError),
        }
    } else {
        plain(Status::InternalServerError)
    }
}

/// Answers a failure of the relational layer.
pub fn answer_failure(err: &DBError, step: Step) -> (refusal: Refusal)
    ensures
        refusal@ == failure_answer(*err, step),
{
    let internal = Refusal { status: Status::InternalServerError, reason: None };
    let reason: Option<&'static str> = match err {
        DBError::NoResult => match step {
            Step::FindAccountForLogin => Some("Username doesn't exist"),
            Step::FindAccountForPasswordChange => Some("Username does not exist"),
            Step::ReadPost => Some("Invalid post_id"),
            _ => return internal,
        },
        DBError::UnexpectedRowsAffected { expected, actual } => {
            if *expected != 1 || *actual != 0 {
                return internal;
            }
            match step {
                Step::CreateAccount => Some("Username is taken"),
                Step::UpdatePassword => None,
                Step::UpdatePost | Step::DeletePost => Some("Invalid post_id"),
                Step::CreateComment => Some("Comment data was invalid"),
                Step::UpdateComment | Step::DeleteComment => Some("Invalid comment_id"),
                Step::Vote => return Refusal { status: Status::AlreadyReported, reason: None },
                _ => return internal,
            }
        },
        DBError::SQLXError(_) => return internal,
    };
    Refusal { status: Status::BadRequest, reason }
}

/// What can go wrong with a password.
#[derive(Clone, Copy, Debug, PartialEq, Eq, Structural)]
pub enum PasswordFailure {
    /// A new password could not be hashed.
    Hashing,
    /// The hash stored for the account could not be read.
    StoredHash,
    /// The password given at login is not the account's.
    WrongAtLogin,
    /// The old password given for a change is not the account's.
    WrongOld,
}

/// How a failure with a password is answered: a wrong password is a bad
/// request, anything else an internal error.
pub open spec fn password_answer(failure: PasswordFailure) -> RefusalView {
    match failure {
        PasswordFailure::Hashing | PasswordFailure::StoredHash => plain(
            Status::InternalServerError,
        ),
        PasswordFailure::WrongAtLogin => plain(Status::BadRequest),
        PasswordFailure::WrongOld => bad_request("Invalid old password"@),
    }
}

/// Answers a failure with a password.
pub fn answer_password_failure(failure: PasswordFailure) -> (refusal: Refusal)
    ensures
        refusal@ == password_answer(failure),
{
    match failure {
        PasswordFailure::Hashing | PasswordFailure::StoredHash => Refusal {
            status: Status::InternalServerError,
            reason: None,
        },
        PasswordFailure::WrongAtLogin => Refusal { status: Status::BadRequest, reason: None },
        PasswordFailure::WrongOld => Refusal {
            status: Status::BadRequest,
            reason: Some("Invalid old password"),
        },
    }
}

/// How the verdict of the token service is answered: a valid token lets the
/// request pass, an invalid one is unauthorized, and so is a validation
/// that failed, with a reason.
pub open spec fn verdict_answer(verdict: Result<bool, TokenError>) -> Result<(), RefusalView> {
    match verdict {
        Ok(true) => Ok(()),
        Ok(false) => Err(plain(Status::Unauthorized)),
        Err(_) => Err(RefusalView { status: Status::Unauthorized, reason: Some("Invalid token"@) }),
    }
}

/// Answers the verdict of the token service on a request's token.
pub fn answer_verdict(verdict: Result<bool, TokenError>) -> (result: Result<(), Refusal>)
    ensures
        outcome(result) == verdict_answer(verdict),
{
    match verdict {
        Ok(true) => Ok(()),
        Ok(false) => Err(Refusal { status: Status::Unauthorized, reason: None }),
        Err(_) => Err(Refusal { status: Status::Unauthorized, reason: Some("Invalid token") }),
    }
}

} // verus!
