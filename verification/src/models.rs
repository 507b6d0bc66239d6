//! The plain records that the request layer and the relational layer pass
//! around.

use vstd::prelude::*;

verus! {

/// A truth value as the database stores it.
#[derive(Debug, PartialEq)]
pub struct MySqlBool(pub bool);

/// The credentials of an account, as a request carries them.
#[derive(Debug)]
pub struct Account {
    pub username: String,
    pub password: String,
}

/// A request to change an account's password.
#[derive(Debug)]
pub struct AccountPasswordUpdate {
    pub username: String,
    pub old_password: String,
    pub new_password: String,
}

/// A post to be created.
#[derive(Debug)]
pub struct NewPost {
    pub poster_id: u64,
    pub title: String,
    pub body: String,
}

/// A comment to be created, on a post or in reply to another comment.
#[derive(Debug)]
pub struct NewComment {
    pub post_id: u64,
    pub commenter_id: u64,
    pub comment_reply_id: Option<u64>,
    pub body: String,
}

/// A new body for a post or a comment, sent by the account that owns it.
#[derive(Debug)]
pub struct PostCommentUpdate {
    pub account_id: u64,
    pub new_body: String,
}

/// An account as the database holds it.
#[derive(Debug)]
pub struct AccountFromDB {
    pub id: u64,
    pub username: Option<String>,
    pub password_hash: String,
}

/// The vote of an account on a post.
#[derive(Debug)]
pub struct PostLike {
    pub post_id: u64,
    pub account_id: u64,
    pub liked: bool,
}

/// The vote of an account on a comment.
#[derive(Debug)]
pub struct CommentLike {
    pub comment_id: u64,
    pub account_id: u64,
    pub liked: bool,
}

/// The id of an account.
#[derive(Debug)]
pub struct AccountID {
    pub account_id: u64,
}

} // verus!
