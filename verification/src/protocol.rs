//! Protocol error codes the server answers refused requests with, and the
//! textual form of the 128-bit ids it hands out.

use vstd::prelude::*;
use vstd::arithmetic::power2::pow2;

verus! {

/// Error codes of protocol error responses.
#[derive(Debug, Clone, Copy, PartialEq, Eq, Structural)]
pub enum ProtocolErrorCode {
    NotInitialized,
    InvalidParams,
    InternalError,
    SessionNotFound,
    EmptyInput,
    InvalidContentParts,
    InvalidMentions,
    TurnAlreadyRunning,
    ActiveTurnNotSteerable,
    ActiveTurnEditRejected,
    ExpectedTurnMismatch,
    ExpectedTargetMessageMismatch,
    OlderMessageRequiresFork,
    QueueItemNotFound,
    GoalNotFound,
    PolicyDenied,
    WorkspaceVersionConflict,
    WorkspaceRestoreFailedToStart,
}

/// A refused request: the code and the message sent back.
#[derive(Debug)]
pub struct ProtocolError {
    pub code: ProtocolErrorCode,
    pub message: String,
}

/// The lowercase hexadecimal digit of `v` (0 to 15).
pub open spec fn hex_digit(v: int) -> char {
    if v < 10 {
        (48 + v) as char
    } else {
        (87 + v) as char
    }
}

/// The `k`-th hexadecimal digit of `id`, most significant first (`k` from 0
/// to 31).
pub open spec fn nibble(id: u128, k: int) -> int {
    (id as int / pow2((4 * (31 - k)) as nat) as int) % 16
}

/// The hyphenated lowercase text of a 128-bit id: 32 hexadecimal digits,
/// most significant first, grouped 8-4-4-4-12.
pub open spec fn uuid_hyphenated(id: u128) -> Seq<char> {
    let digits = Seq::new(32, |k: int| hex_digit(nibble(id, k)));
    digits.subrange(0, 8) + seq!['-'] + digits.subrange(8, 12) + seq!['-'] + digits.subrange(12, 16)
        + seq!['-'] + digits.subrange(16, 20) + seq!['-'] + digits.subrange(20, 32)
}

/// What `uuid::Uuid::parse_str` makes of a text: the id it denotes, or
/// `None` when the text is no UUID in any of the accepted spellings.
pub uninterp spec fn uuid_parse(text: Seq<char>) -> Option<u128>;

/// The hyphenated lowercase text of `id`.
///
/// Calls `uuid::Uuid::from_u128(id).to_string()`; the crate's `Display`
/// writes the hyphenated form in lowercase, which is what the contract
/// claims.
#[verifier::external_body]
pub(crate) fn uuid_text(id: u128) -> (text: String)
    ensures
        text@ == uuid_hyphenated(id),
{
    uuid::Uuid::from_u128(id).to_string()
}

/// Parses a UUID in any spelling `uuid::Uuid::parse_str` accepts.
///
/// Calls `uuid::Uuid::parse_str(text)` and reads the result as a 128-bit
/// integer (`as_u128`); the contract only names the outcome.
#[verifier::external_body]
pub(crate) fn parse_uuid(text: &str) -> (id: Option<u128>)
    ensures
        id == uuid_parse(text@),
{
    match uuid::Uuid::parse_str(text) {
        Ok(uuid) => Some(uuid.as_u128()),
        Err(_) => None,
    }
}

} // verus!
