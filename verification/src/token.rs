//! The session token: a 128-bit random identifier, written as 32 hexadecimal
//! digits in five groups.

use vstd::prelude::*;

verus! {

/// A session credential bound to a user id. Two tokens are equal when their
/// 128 bits are.
#[derive(Clone, Copy, Debug, PartialEq, Eq, Structural, Hash)]
pub struct Token {
    pub bits: u128,
}

/// Whether `bits` carry the marks of a random (version 4) identifier of the
/// RFC variant: the version nibble is 4 and the two variant bits are `10`.
pub open spec fn is_random_v4(bits: u128) -> bool {
    (bits >> 76u128) & 0xf == 4 && (bits >> 62u128) & 0x3 == 2
}

/// The character that writes the hexadecimal digit `d` in lower case.
pub open spec fn hex_char(d: nat) -> char
    recommends
        d < 16,
{
    if d < 10 {
        (48 + d) as u8 as char
    } else {
        (87 + d) as u8 as char
    }
}

/// The hexadecimal digit of `bits` at place `k`, counted from the most
/// significant digit, which is place 0.
pub open spec fn hex_digit(bits: u128, k: int) -> nat
    recommends
        0 <= k < 32,
{
    ((bits >> ((4 * (31 - k)) as u128)) & 0xf) as nat
}

/// Whether place `i` of a token's text holds a hyphen.
pub open spec fn is_hyphen_place(i: int) -> bool {
    i == 8 || i == 13 || i == 18 || i == 23
}

/// How many hyphens stand before place `i` of a token's text.
pub open spec fn hyphens_before(i: int) -> int {
    if i < 8 {
        0
    } else if i < 13 {
        1
    } else if i < 18 {
        2
    } else if i < 23 {
        3
    } else {
        4
    }
}

/// The canonical text of a token: its 32 hexadecimal digits in lower case,
/// most significant first, in groups of 8, 4, 4, 4 and 12 digits with a
/// hyphen between two groups.
pub open spec fn token_text(bits: u128) -> Seq<char> {
    Seq::new(
        36,
        |i: int|
            if is_hyphen_place(i) {
                '-'
            } else {
                hex_char(hex_digit(bits, i - hyphens_before(i)))
            },
    )
}

/// What `uuid::Uuid::parse_str` reads from a text: the 128 bits of the
/// identifier, or nothing where the text is in none of the forms it accepts.
pub uninterp spec fn parsed_token(text: Seq<char>) -> Option<u128>;

/// Draws a fresh identifier. Trusted: `uuid::Uuid::new_v4` returns random
/// bits in which the version and variant are set as for a version 4
/// identifier; and of it, as of every identifier, `uuid::Uuid::parse_str`
/// reads the hyphenated lower-case text back to the same bits.
#[verifier::external_body]
fn uuid_new_v4() -> (bits: u128)
    ensures
        is_random_v4(bits),
        parsed_token(token_text(bits)) == Some(bits),
{
    uuid::Uuid::new_v4().as_u128()
}

/// Reads an identifier from a text. Trusted: the result is what
/// `uuid::Uuid::parse_str` reads, and that function accepts only texts of
/// 32, 36, 38 or 45 characters.
#[verifier::external_body]
fn uuid_parse_str(text: &str) -> (bits: Option<u128>)
    ensures
        bits == parsed_token(text@),
        bits is Some ==> text@.len() == 32 || text@.len() == 36 || text@.len() == 38
            || text@.len() == 45,
{
    match uuid::Uuid::parse_str(text) {
        Ok(id) => Some(id.as_u128()),
        Err(_) => None,
    }
}

/// Writes an identifier as text. Trusted: `uuid::Uuid`'s `to_string` gives
/// the hyphenated lower-case form, and `uuid::Uuid::parse_str` reads that
/// form back to the same identifier.
#[verifier::external_body]
fn uuid_to_string(bits: u128) -> (text: String)
    ensures
        text@ == token_text(bits),
        parsed_token(text@) == Some(bits),
{
    uuid::Uuid::from_u128(bits).to_string()
}

impl Token {
    /// A fresh random token.
    pub fn generate() -> (token: Token)
        ensures
            is_random_v4(token.bits),
            reads_back(token),
    {
        Token { bits: uuid_new_v4() }
    }

    /// Reads a token from a text, in any of the forms that
    /// [`parsed_token`] accepts.
    pub fn parse_str(text: &str) -> (token: Option<Token>)
        ensures
            token == Token::parsed(text@),
            token is Some ==> text@.len() >= 32,
    {
        match uuid_parse_str(text) {
            Some(bits) => Some(Token { bits }),
            None => None,
        }
    }

    /// The token that a text reads as, if it reads as one.
    pub open spec fn parsed(text: Seq<char>) -> Option<Token> {
        match parsed_token(text) {
            Some(bits) => Some(Token { bits }),
            None => None,
        }
    }

    /// The canonical text of this token.
    pub open spec fn text(self) -> Seq<char> {
        token_text(self.bits)
    }

    /// Writes the token in its canonical form, which reads back as the same
    /// token.
    pub fn to_string(&self) -> (text: String)
        ensures
            text@ == self.text(),
            reads_back(*self),
    {
        uuid_to_string(self.bits)
    }
}

/// Whether the text of `token` reads back as `token`, as it does for every
/// token that [`Token::generate`] or [`Token::to_string`] has handed out.
pub open spec fn reads_back(token: Token) -> bool {
    Token::parsed(token.text()) == Some(token)
}

/// A token's text is never a decimal numeral: it holds a hyphen.
pub proof fn lemma_token_text_not_decimal(token: Token, n: nat)
    ensures
        token.text() != crate::text::decimal_text(n),
{
    crate::text::lemma_decimal_text_digits(n);
    let numeral = crate::text::decimal_text(n);
    if token.text() == numeral {
        assert(token.text().len() == 36);
        assert(token.text()[8] == '-');
        assert(crate::text::is_digit(numeral[8]));
    }
}

} // verus!
