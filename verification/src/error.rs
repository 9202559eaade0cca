//! The reasons for which a request is rejected.

use vstd::prelude::*;

verus! {

/// Why a request was rejected. A rejected request changes nothing.
#[derive(Clone, Copy, Debug, PartialEq, Eq, Structural)]
pub enum ErrorCode {
    /// The title takes more than `MAX_TITLE_LEN` bytes.
    TitleTooLong,
    /// The content takes more than `MAX_CONTENT_LEN` bytes.
    ContentTooLong,
    /// No live note is stored at the address.
    NotFound,
    /// A live note is already stored at the address.
    AddressOccupied,
    /// The signer does not own the address.
    Unauthorized,
}

impl ErrorCode {
    /// The text of `message`.
    pub open spec fn message_text(self) -> Seq<char> {
        match self {
            ErrorCode::TitleTooLong => "The provided title is too long."@,
            ErrorCode::ContentTooLong => "The provided content is too long."@,
            ErrorCode::NotFound => "No note is stored at this address."@,
            ErrorCode::AddressOccupied => "A note is already stored at this address."@,
            ErrorCode::Unauthorized => "The signer does not own this address."@,
        }
    }

    /// A sentence for the person whose request was rejected.
    pub fn message(&self) -> (text: &'static str)
        ensures
            text@ == self.message_text(),
    {
        match self {
            ErrorCode::TitleTooLong => "The provided title is too long.",
            ErrorCode::ContentTooLong => "The provided content is too long.",
            ErrorCode::NotFound => "No note is stored at this address.",
            ErrorCode::AddressOccupied => "A note is already stored at this address.",
            ErrorCode::Unauthorized => "The signer does not own this address.",
        }
    }
}

} // verus!
