//! What holds of the transitions, whatever the ledger and the request.

use crate::address::note_address_of;
use crate::error::ErrorCode;
use crate::handlers::{authorization, create_note_verdict, delete_note_verdict, update_note_verdict};
use crate::ledger::LedgerView;
use crate::note::{byte_len, lengths_verdict, NoteView, KEY_LEN, MAX_CONTENT_LEN, MAX_TITLE_LEN, NOTE_SPACE};
use vstd::prelude::*;

verus! {

/// A valid note fits into the space that is allocated to every note.
pub proof fn lemma_valid_note_fits(note: NoteView)
    requires
        note.valid(),
    ensures
        note.stored_len() <= NOTE_SPACE,
{
}

/// A title and a content within their limits are created exactly where the
/// address is free, and the new note then reads back as it was written: the
/// signer as author, the identifier, both texts, and the current time as the
/// time of creation and of the last update.
pub proof fn lemma_create_reads_back(
    ledger: LedgerView,
    address: Seq<u8>,
    signer: Seq<u8>,
    id: u64,
    title: Seq<char>,
    content: Seq<char>,
)
    requires
        byte_len(title) <= MAX_TITLE_LEN,
        byte_len(content) <= MAX_CONTENT_LEN,
    ensures
        ledger.create_verdict(address, title, content) is Ok <==> !ledger.notes.contains_key(address),
        ledger.create_verdict(address, title, content) is Ok ==> {
            let after = ledger.create(address, signer, id, title, content);
            &&& after.notes.contains_key(address)
            &&& after.notes[address].author == signer
            &&& after.notes[address].id == id
            &&& after.notes[address].title == title
            &&& after.notes[address].content == content
            &&& after.notes[address].created_at == ledger.now
            &&& after.notes[address].updated_at == ledger.now
        },
{
}

/// A title or a content beyond its limit is refused at a free address with
/// the error of the text that is too long, the title's where both are. The
/// address stays free: a request with texts within their limits is then
/// served there.
pub proof fn lemma_refused_create_leaves_address_free(
    ledger: LedgerView,
    address: Seq<u8>,
    signer: Seq<u8>,
    id: u64,
    title: Seq<char>,
    content: Seq<char>,
    next_title: Seq<char>,
    next_content: Seq<char>,
)
    requires
        !ledger.notes.contains_key(address),
        byte_len(title) > MAX_TITLE_LEN || byte_len(content) > MAX_CONTENT_LEN,
        byte_len(next_title) <= MAX_TITLE_LEN,
        byte_len(next_content) <= MAX_CONTENT_LEN,
    ensures
        byte_len(title) > MAX_TITLE_LEN ==> ledger.create_verdict(address, title, content) == Err::<(), ErrorCode>(
            ErrorCode::TitleTooLong,
        ),
        byte_len(title) <= MAX_TITLE_LEN ==> ledger.create_verdict(address, title, content) == Err::<
            (),
            ErrorCode,
        >(ErrorCode::ContentTooLong),
        ledger.create(address, signer, id, title, content) == ledger,
        !ledger.create(address, signer, id, title, content).notes.contains_key(address),
        ledger.create(address, signer, id, title, content).create_verdict(address, next_title, next_content) is Ok,
{
}

/// Once a note has been created at an address, every further request to
/// create one there is refused as `AddressOccupied`, whatever it holds, and
/// changes nothing: the first note stays as it is.
pub proof fn lemma_create_twice_is_refused(
    ledger: LedgerView,
    address: Seq<u8>,
    signer: Seq<u8>,
    id: u64,
    title: Seq<char>,
    content: Seq<char>,
    next_signer: Seq<u8>,
    next_id: u64,
    next_title: Seq<char>,
    next_content: Seq<char>,
)
    requires
        ledger.create_verdict(address, title, content) is Ok,
    ensures
        ({
            let first = ledger.create(address, signer, id, title, content);
            &&& first.create_verdict(address, next_title, next_content) == Err::<(), ErrorCode>(
                ErrorCode::AddressOccupied,
            )
            &&& first.create(address, next_signer, next_id, next_title, next_content) == first
        }),
{
}

/// A request to update at a free address is refused as `NotFound`, and no
/// note comes into being.
pub proof fn lemma_update_of_nothing_is_refused(
    ledger: LedgerView,
    address: Seq<u8>,
    signer: Seq<u8>,
    title: Seq<char>,
    content: Seq<char>,
)
    requires
        !ledger.notes.contains_key(address),
    ensures
        ledger.update_verdict(address, signer, title, content) == Err::<(), ErrorCode>(ErrorCode::NotFound),
        ledger.update(address, signer, title, content) == ledger,
        !ledger.update(address, signer, title, content).notes.contains_key(address),
{
}

/// A request to update or to delete a note by a signer who is not its
/// author is refused as `Unauthorized`, whatever address the signer's key
/// derives, and the note stays as it is.
pub proof fn lemma_stranger_is_refused(
    ledger: LedgerView,
    address: Seq<u8>,
    signer: Seq<u8>,
    derived: Option<Seq<u8>>,
    title: Seq<char>,
    content: Seq<char>,
)
    requires
        ledger.notes.contains_key(address),
        ledger.notes[address].author != signer,
    ensures
        ledger.update_verdict(address, signer, title, content) == Err::<(), ErrorCode>(ErrorCode::Unauthorized),
        ledger.update(address, signer, title, content) == ledger,
        ledger.delete_verdict(address, signer) == Err::<(), ErrorCode>(ErrorCode::Unauthorized),
        ledger.delete(address, signer) == ledger,
        update_note_verdict(ledger, address, signer, derived, title, content) == Err::<(), ErrorCode>(
            ErrorCode::Unauthorized,
        ),
        delete_note_verdict(ledger, address, signer, derived) == Err::<(), ErrorCode>(ErrorCode::Unauthorized),
{
}

/// An update that is served replaces both texts and sets the time of the
/// last update to the current time, which is not before the time of
/// creation. The author, the identifier and the time of creation stay.
pub proof fn lemma_update_keeps_creation(
    ledger: LedgerView,
    address: Seq<u8>,
    signer: Seq<u8>,
    title: Seq<char>,
    content: Seq<char>,
)
    requires
        ledger.valid(),
        ledger.update_verdict(address, signer, title, content) is Ok,
    ensures
        ({
            let before = ledger.notes[address];
            let after = ledger.update(address, signer, title, content).notes[address];
            &&& ledger.update(address, signer, title, content).notes.contains_key(address)
            &&& after.author == before.author
            &&& after.id == before.id
            &&& after.created_at == before.created_at
            &&& after.title == title
            &&& after.content == content
            &&& after.updated_at == ledger.now
            &&& after.updated_at >= after.created_at
            &&& after.updated_at >= before.updated_at
        }),
{
}

/// A delete that is served frees the address. Whatever the time is
/// afterwards, a request to update or to delete there is refused as
/// `NotFound`, and a request to create there with texts within their limits
/// is served: the new note belongs to its own signer and bears the time of
/// its own creation.
pub proof fn lemma_delete_frees_address(
    ledger: LedgerView,
    address: Seq<u8>,
    signer: Seq<u8>,
    later: i64,
    next_signer: Seq<u8>,
    next_id: u64,
    next_title: Seq<char>,
    next_content: Seq<char>,
)
    requires
        ledger.delete_verdict(address, signer) is Ok,
    ensures
        ({
            let freed = ledger.delete(address, signer).advance(later);
            &&& !freed.notes.contains_key(address)
            &&& freed.update_verdict(address, next_signer, next_title, next_content) == Err::<(), ErrorCode>(
                ErrorCode::NotFound,
            )
            &&& freed.delete_verdict(address, next_signer) == Err::<(), ErrorCode>(ErrorCode::NotFound)
            &&& freed.create_verdict(address, next_title, next_content) == lengths_verdict(next_title, next_content)
            &&& lengths_verdict(next_title, next_content) is Ok ==> freed.create(
                address,
                next_signer,
                next_id,
                next_title,
                next_content,
            ).notes[address] == NoteView::written(next_signer, next_id, next_title, next_content, freed.now)
        }),
{
}

/// The ledger stays valid: whatever is requested, every live note keeps its
/// texts within their limits and is never updated before it was created nor
/// after the current time.
pub proof fn lemma_validity_is_kept(
    ledger: LedgerView,
    address: Seq<u8>,
    signer: Seq<u8>,
    id: u64,
    title: Seq<char>,
    content: Seq<char>,
    now: i64,
)
    requires
        ledger.valid(),
        address.len() == KEY_LEN,
        signer.len() == KEY_LEN,
    ensures
        ledger.advance(now).valid(),
        ledger.create(address, signer, id, title, content).valid(),
        ledger.update(address, signer, title, content).valid(),
        ledger.delete(address, signer).valid(),
{
    let created = ledger.create(address, signer, id, title, content);
    assert forall|a: Seq<u8>| #[trigger] created.notes.contains_key(a) implies {
        &&& a.len() == KEY_LEN
        &&& created.notes[a].valid()
        &&& created.notes[a].updated_at <= created.now
    } by {
        if a != address {
            assert(ledger.notes.contains_key(a));
        }
    }
    let updated = ledger.update(address, signer, title, content);
    assert forall|a: Seq<u8>| #[trigger] updated.notes.contains_key(a) implies {
        &&& a.len() == KEY_LEN
        &&& updated.notes[a].valid()
        &&& updated.notes[a].updated_at <= updated.now
    } by {
        assert(ledger.notes.contains_key(a));
    }
    let deleted = ledger.delete(address, signer);
    assert forall|a: Seq<u8>| #[trigger] deleted.notes.contains_key(a) implies {
        &&& a.len() == KEY_LEN
        &&& deleted.notes[a].valid()
        &&& deleted.notes[a].updated_at <= deleted.now
    } by {
        assert(ledger.notes.contains_key(a));
    }
    let advanced = ledger.advance(now);
    assert forall|a: Seq<u8>| #[trigger] advanced.notes.contains_key(a) implies {
        &&& a.len() == KEY_LEN
        &&& advanced.notes[a].valid()
        &&& advanced.notes[a].updated_at <= advanced.now
    } by {
        assert(ledger.notes.contains_key(a));
    }
}

/// Requests at one address leave every other address as it is: whether it
/// holds a note, and which.
pub proof fn lemma_other_addresses_are_untouched(
    ledger: LedgerView,
    address: Seq<u8>,
    signer: Seq<u8>,
    id: u64,
    title: Seq<char>,
    content: Seq<char>,
    other: Seq<u8>,
)
    requires
        other != address,
    ensures
        ledger.create(address, signer, id, title, content).notes.contains_key(other) == ledger.notes.contains_key(
            other,
        ),
        ledger.create(address, signer, id, title, content).notes[other] == ledger.notes[other],
        ledger.update(address, signer, title, content).notes.contains_key(other) == ledger.notes.contains_key(other),
        ledger.update(address, signer, title, content).notes[other] == ledger.notes[other],
        ledger.delete(address, signer).notes.contains_key(other) == ledger.notes.contains_key(other),
        ledger.delete(address, signer).notes[other] == ledger.notes[other],
{
}

/// No request moves the clock, and telling the time touches no note.
pub proof fn lemma_clock_and_notes_are_apart(
    ledger: LedgerView,
    address: Seq<u8>,
    signer: Seq<u8>,
    id: u64,
    title: Seq<char>,
    content: Seq<char>,
    now: i64,
)
    ensures
        ledger.create(address, signer, id, title, content).now == ledger.now,
        ledger.update(address, signer, title, content).now == ledger.now,
        ledger.delete(address, signer).now == ledger.now,
        ledger.advance(now).notes == ledger.notes,
        ledger.advance(now).now >= ledger.now,
        ledger.advance(now).now >= now,
{
}

/// Where every live note sits at the address that its author and identifier
/// derive, it does so after any request whose slot is the signer's own
/// derived address.
pub proof fn lemma_keying_is_kept(
    ledger: LedgerView,
    note: Seq<u8>,
    user: Seq<u8>,
    id: u64,
    title: Seq<char>,
    content: Seq<char>,
)
    ensures
        ledger.keyed() && authorization(note, note_address_of(user, id)) is Ok ==> {
            &&& ledger.create(note, user, id, title, content).keyed()
            &&& ledger.update(note, user, title, content).keyed()
            &&& ledger.delete(note, user).keyed()
        },
{
    if ledger.keyed() && authorization(note, note_address_of(user, id)) is Ok {
        let created = ledger.create(note, user, id, title, content);
        assert forall|a: Seq<u8>| #[trigger] created.notes.contains_key(a) implies note_address_of(
            created.notes[a].author,
            created.notes[a].id,
        ) == Some(a) by {
            if a != note {
                assert(ledger.notes.contains_key(a));
            }
        }
        let updated = ledger.update(note, user, title, content);
        assert forall|a: Seq<u8>| #[trigger] updated.notes.contains_key(a) implies note_address_of(
            updated.notes[a].author,
            updated.notes[a].id,
        ) == Some(a) by {
            assert(ledger.notes.contains_key(a));
        }
        let deleted = ledger.delete(note, user);
        assert forall|a: Seq<u8>| #[trigger] deleted.notes.contains_key(a) implies note_address_of(
            deleted.notes[a].author,
            deleted.notes[a].id,
        ) == Some(a) by {
            assert(ledger.notes.contains_key(a));
        }
    }
}

/// A request for the slot that is the signer's own derived address gets the
/// verdict of the ledger on that address.
pub proof fn lemma_owner_is_served(
    ledger: LedgerView,
    note: Seq<u8>,
    user: Seq<u8>,
    derived: Option<Seq<u8>>,
    title: Seq<char>,
    content: Seq<char>,
)
    requires
        derived == Some(note),
    ensures
        create_note_verdict(ledger, note, derived, title, content) == ledger.create_verdict(note, title, content),
        update_note_verdict(ledger, note, user, derived, title, content) == ledger.update_verdict(
            note,
            user,
            title,
            content,
        ),
        delete_note_verdict(ledger, note, user, derived) == ledger.delete_verdict(note, user),
{
}

/// A request for a slot that is not the signer's own derived address is
/// refused as `Unauthorized` whatever the ledger holds: the answer tells
/// nothing of the notes of others.
pub proof fn lemma_refusal_tells_nothing(
    ledger: LedgerView,
    other: LedgerView,
    note: Seq<u8>,
    user: Seq<u8>,
    derived: Option<Seq<u8>>,
    title: Seq<char>,
    content: Seq<char>,
)
    requires
        derived != Some(note),
    ensures
        create_note_verdict(ledger, note, derived, title, content) == Err::<(), ErrorCode>(ErrorCode::Unauthorized),
        update_note_verdict(ledger, note, user, derived, title, content) == Err::<(), ErrorCode>(
            ErrorCode::Unauthorized,
        ),
        delete_note_verdict(ledger, note, user, derived) == Err::<(), ErrorCode>(ErrorCode::Unauthorized),
        create_note_verdict(ledger, note, derived, title, content) == create_note_verdict(
            other,
            note,
            derived,
            title,
            content,
        ),
        update_note_verdict(ledger, note, user, derived, title, content) == update_note_verdict(
            other,
            note,
            user,
            derived,
            title,
            content,
        ),
        delete_note_verdict(ledger, note, user, derived) == delete_note_verdict(other, note, user, derived),
{
}

} // verus!
