//! The note record: its fields, its limits, and the space it is stored in.

use crate::address::Address;
use crate::error::ErrorCode;
use vstd::prelude::*;
use vstd::string::StringSliceAdditionalSpecFns;
use vstd::utf8::{encode_utf8, is_ascii_chars, is_ascii_chars_encode_utf8};

verus! {

/// The most bytes a title may take.
pub const MAX_TITLE_LEN: usize = 50;

/// The most bytes a content may take.
pub const MAX_CONTENT_LEN: usize = 200;

/// Bytes that the host reserves in front of every record.
pub const HEADER_LEN: usize = 8;

/// Bytes of the length that is stored in front of each text.
pub const LENGTH_PREFIX_LEN: usize = 4;

/// Bytes of an author's key.
pub const KEY_LEN: usize = 32;

/// Bytes of an identifier or of a timestamp.
pub const WORD_LEN: usize = 8;

/// The space allocated to every note: the header, the author's key, the
/// identifier, both texts at their longest behind their length prefixes, and
/// the two timestamps.
pub const NOTE_SPACE: usize = HEADER_LEN + KEY_LEN + WORD_LEN + (LENGTH_PREFIX_LEN + MAX_TITLE_LEN)
    + (LENGTH_PREFIX_LEN + MAX_CONTENT_LEN) + WORD_LEN + WORD_LEN;

/// The number of bytes that a text takes when stored.
pub open spec fn byte_len(text: Seq<char>) -> nat {
    encode_utf8(text).len()
}

/// A text of ASCII characters takes one byte for each of them.
pub proof fn lemma_ascii_byte_len(text: Seq<char>)
    requires
        is_ascii_chars(text),
    ensures
        byte_len(text) == text.len(),
{
    is_ascii_chars_encode_utf8(text);
}

/// The verdict on a title and a content: the title is judged first.
pub open spec fn lengths_verdict(title: Seq<char>, content: Seq<char>) -> Result<(), ErrorCode> {
    if byte_len(title) > MAX_TITLE_LEN {
        Err(ErrorCode::TitleTooLong)
    } else if byte_len(content) > MAX_CONTENT_LEN {
        Err(ErrorCode::ContentTooLong)
    } else {
        Ok(())
    }
}

/// Judges a title and a content against their limits, the title first.
pub fn check_lengths(title: &str, content: &str) -> (verdict: Result<(), ErrorCode>)
    ensures
        verdict == lengths_verdict(title@, content@),
{
    if title.as_bytes().len() > MAX_TITLE_LEN {
        return Err(ErrorCode::TitleTooLong);
    }
    if content.as_bytes().len() > MAX_CONTENT_LEN {
        return Err(ErrorCode::ContentTooLong);
    }
    Ok(())
}

/// A note as stored.
#[derive(Debug)]
pub struct Note {
    /// The signer who created the note. Never changes.
    pub author: Address,
    /// The identifier the author chose. Never changes.
    pub id: u64,
    pub title: String,
    pub content: String,
    /// The ledger's time when the note was created.
    pub created_at: i64,
    /// The ledger's time when the note was created or last updated.
    pub updated_at: i64,
}

/// A note as a mathematical value.
pub struct NoteView {
    pub author: Seq<u8>,
    pub id: u64,
    pub title: Seq<char>,
    pub content: Seq<char>,
    pub created_at: i64,
    pub updated_at: i64,
}

impl NoteView {
    /// Both texts are within their limits, and the note was not updated
    /// before it was created.
    pub open spec fn valid(self) -> bool {
        &&& self.author.len() == KEY_LEN
        &&& byte_len(self.title) <= MAX_TITLE_LEN
        &&& byte_len(self.content) <= MAX_CONTENT_LEN
        &&& self.created_at <= self.updated_at
    }

    /// The note that `author` writes under `id` at the time `now`.
    pub open spec fn written(author: Seq<u8>, id: u64, title: Seq<char>, content: Seq<char>, now: i64) -> NoteView {
        NoteView { author, id, title, content, created_at: now, updated_at: now }
    }

    /// This note with a new title and content, given at the time `now`. The
    /// author, the identifier and the time of creation stay.
    pub open spec fn revised(self, title: Seq<char>, content: Seq<char>, now: i64) -> NoteView {
        NoteView { title, content, updated_at: now, ..self }
    }

    /// The bytes that the note fills of its space.
    pub open spec fn stored_len(self) -> nat {
        HEADER_LEN as nat + self.author.len() + WORD_LEN as nat + LENGTH_PREFIX_LEN as nat + byte_len(self.title)
            + LENGTH_PREFIX_LEN as nat + byte_len(self.content) + WORD_LEN as nat + WORD_LEN as nat
    }
}

impl View for Note {
    type V = NoteView;

    open spec fn view(&self) -> NoteView {
        NoteView {
            author: self.author@,
            id: self.id,
            title: self.title@,
            content: self.content@,
            created_at: self.created_at,
            updated_at: self.updated_at,
        }
    }
}

impl Note {
    /// Writes the note that `author` keeps under `id`, at the time `now`. A
    /// title that is too long is refused, then a content that is too long.
    pub fn write(author: Address, id: u64, title: String, content: String, now: i64) -> (written: Result<
        Note,
        ErrorCode,
    >)
        ensures
            written is Ok <==> lengths_verdict(title@, content@) is Ok,
            written matches Ok(note) ==> note@ == NoteView::written(author@, id, title@, content@, now),
            written matches Err(refusal) ==> lengths_verdict(title@, content@) == Err::<(), ErrorCode>(refusal),
    {
        match check_lengths(title.as_str(), content.as_str()) {
            Err(refusal) => Err(refusal),
            Ok(()) => Ok(Note { author, id, title, content, created_at: now, updated_at: now }),
        }
    }

    /// This note with a new title and content, given at the time `now`. A
    /// title that is too long is refused, then a content that is too long.
    pub fn revise(&self, title: String, content: String, now: i64) -> (revised: Result<Note, ErrorCode>)
        ensures
            revised is Ok <==> lengths_verdict(title@, content@) is Ok,
            revised matches Ok(note) ==> note@ == self@.revised(title@, content@, now),
            revised matches Err(refusal) ==> lengths_verdict(title@, content@) == Err::<(), ErrorCode>(refusal),
    {
        match check_lengths(title.as_str(), content.as_str()) {
            Err(refusal) => Err(refusal),
            Ok(()) => Ok(
                Note {
                    author: self.author,
                    id: self.id,
                    title,
                    content,
                    created_at: self.created_at,
                    updated_at: now,
                },
            ),
        }
    }

    /// The bytes that the note fills of its space, or `None` where it would
    /// not fit into `NOTE_SPACE`.
    pub fn stored_len(&self) -> (len: Option<usize>)
        ensures
            len is Some <==> self@.stored_len() <= NOTE_SPACE,
            len matches Some(n) ==> n == self@.stored_len(),
            self@.valid() ==> len is Some,
    {
        let title_len = self.title.as_str().as_bytes().len();
        let content_len = self.content.as_str().as_bytes().len();
        let fixed: usize = HEADER_LEN + KEY_LEN + WORD_LEN + LENGTH_PREFIX_LEN + LENGTH_PREFIX_LEN + WORD_LEN
            + WORD_LEN;
        if title_len > NOTE_SPACE - fixed || content_len > NOTE_SPACE - fixed - title_len {
            None
        } else {
            Some(fixed + title_len + content_len)
        }
    }
}

} // verus!
