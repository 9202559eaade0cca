//! The three requests that the service answers. Each names the slot it is
//! about and the signer who sent it; the service derives the signer's own
//! address for the identifier and serves the request only where the two agree.

use crate::address::{address_view, note_address, note_address_of, Address};
use crate::error::ErrorCode;
use crate::laws::lemma_keying_is_kept;
use crate::ledger::{Ledger, LedgerView};
use vstd::prelude::*;

verus! {

/// The accounts of a request to create a note.
#[derive(Clone, Copy, Debug)]
pub struct CreateNote {
    /// The slot in which the note is to be stored.
    pub note: Address,
    /// The verified signer, who becomes the note's author.
    pub user: Address,
}

/// The accounts of a request to update a note.
#[derive(Clone, Copy, Debug)]
pub struct UpdateNote {
    /// The slot of the note.
    pub note: Address,
    /// The verified signer.
    pub user: Address,
}

/// The accounts of a request to delete a note.
#[derive(Clone, Copy, Debug)]
pub struct DeleteNote {
    /// The slot of the note.
    pub note: Address,
    /// The verified signer.
    pub user: Address,
}

/// Whether a signer may use the slot `note`, where `derived` is the address
/// that the signer's key and the identifier derive: only where that address
/// is `note`.
pub open spec fn authorization(note: Seq<u8>, derived: Option<Seq<u8>>) -> Result<(), ErrorCode> {
    if derived == Some(note) {
        Ok(())
    } else {
        Err(ErrorCode::Unauthorized)
    }
}

/// Decides whether a signer may use the slot `note`, given the address that
/// the signer's key and the identifier derive.
pub fn authorize(note: &Address, derived: &Option<Address>) -> (verdict: Result<(), ErrorCode>)
    ensures
        verdict == authorization(note@, address_view(*derived)),
{
    match derived {
        Some(address) => {
            if *address == *note {
                Ok(())
            } else {
                Err(ErrorCode::Unauthorized)
            }
        },
        None => Err(ErrorCode::Unauthorized),
    }
}

/// The verdict on a request to create a note in `note`, where `derived` is
/// the signer's address for the identifier.
pub open spec fn create_note_verdict(
    ledger: LedgerView,
    note: Seq<u8>,
    derived: Option<Seq<u8>>,
    title: Seq<char>,
    content: Seq<char>,
) -> Result<(), ErrorCode> {
    if authorization(note, derived) is Ok {
        ledger.create_verdict(note, title, content)
    } else {
        Err(ErrorCode::Unauthorized)
    }
}

/// The verdict on a request to update the note in `note`, where `derived`
/// is the signer's address for the identifier.
pub open spec fn update_note_verdict(
    ledger: LedgerView,
    note: Seq<u8>,
    user: Seq<u8>,
    derived: Option<Seq<u8>>,
    title: Seq<char>,
    content: Seq<char>,
) -> Result<(), ErrorCode> {
    if authorization(note, derived) is Ok {
        ledger.update_verdict(note, user, title, content)
    } else {
        Err(ErrorCode::Unauthorized)
    }
}

/// The verdict on a request to delete the note in `note`, where `derived`
/// is the signer's address for the identifier.
pub open spec fn delete_note_verdict(ledger: LedgerView, note: Seq<u8>, user: Seq<u8>, derived: Option<Seq<u8>>) -> Result<
    (),
    ErrorCode,
> {
    if authorization(note, derived) is Ok {
        ledger.delete_verdict(note, user)
    } else {
        Err(ErrorCode::Unauthorized)
    }
}

/// Creates the note that `ctx.user` keeps under `id`, in the slot
/// `ctx.note`, stamped with the ledger's time.
///
/// Refused, in this order: a slot that is not the signer's address for
/// `id`, or any slot where the signer has no such address (`Unauthorized`),
/// an occupied slot (`AddressOccupied`), a title of more
/// than `MAX_TITLE_LEN` bytes (`TitleTooLong`), a content of more than
/// `MAX_CONTENT_LEN` bytes (`ContentTooLong`). A refusal changes nothing.
pub fn create_note(ledger: &mut Ledger, ctx: CreateNote, id: u64, title: String, content: String) -> (verdict:
    Result<(), ErrorCode>)
    requires
        old(ledger).wf(),
    ensures
        final(ledger).wf(),
        verdict == create_note_verdict(
            old(ledger)@,
            ctx.note@,
            note_address_of(ctx.user@, id),
            title@,
            content@,
        ),
        final(ledger)@ == if verdict is Ok {
            old(ledger)@.create(ctx.note@, ctx.user@, id, title@, content@)
        } else {
            old(ledger)@
        },
        old(ledger)@.keyed() ==> final(ledger)@.keyed(),
{
    proof {
        lemma_keying_is_kept(ledger@, ctx.note@, ctx.user@, id, title@, content@);
    }
    let derived = note_address(&ctx.user, id);
    match authorize(&ctx.note, &derived) {
        Err(refusal) => Err(refusal),
        Ok(()) => ledger.create(ctx.note, ctx.user, id, title, content),
    }
}

/// Gives the note that `ctx.user` keeps under `id`, in the slot `ctx.note`,
/// a new title and content, stamped with the ledger's time. The author, the
/// identifier and the time of creation stay.
///
/// Refused, in this order: a slot that is not the signer's address for
/// `id`, or any slot where the signer has no such address (`Unauthorized`),
/// a free slot (`NotFound`), a note of another author (`Unauthorized`), a
/// title of more than `MAX_TITLE_LEN` bytes
/// (`TitleTooLong`), a content of more than `MAX_CONTENT_LEN` bytes
/// (`ContentTooLong`). A refusal changes nothing.
pub fn update_note(ledger: &mut Ledger, ctx: UpdateNote, id: u64, title: String, content: String) -> (verdict:
    Result<(), ErrorCode>)
    requires
        old(ledger).wf(),
    ensures
        final(ledger).wf(),
        verdict == update_note_verdict(
            old(ledger)@,
            ctx.note@,
            ctx.user@,
            note_address_of(ctx.user@, id),
            title@,
            content@,
        ),
        final(ledger)@ == if verdict is Ok {
            old(ledger)@.update(ctx.note@, ctx.user@, title@, content@)
        } else {
            old(ledger)@
        },
        old(ledger)@.keyed() ==> final(ledger)@.keyed(),
{
    proof {
        lemma_keying_is_kept(ledger@, ctx.note@, ctx.user@, id, title@, content@);
    }
    let derived = note_address(&ctx.user, id);
    match authorize(&ctx.note, &derived) {
        Err(refusal) => Err(refusal),
        Ok(()) => ledger.update(&ctx.note, &ctx.user, title, content),
    }
}

/// Deletes the note that `ctx.user` keeps under `id`, in the slot
/// `ctx.note`. The slot is free again afterwards.
///
/// Refused, in this order: a slot that is not the signer's address for
/// `id`, or any slot where the signer has no such address (`Unauthorized`),
/// a free slot (`NotFound`), a note of another author (`Unauthorized`). A
/// refusal changes nothing.
pub fn delete_note(ledger: &mut Ledger, ctx: DeleteNote, id: u64) -> (verdict: Result<(), ErrorCode>)
    requires
        old(ledger).wf(),
    ensures
        final(ledger).wf(),
        verdict == delete_note_verdict(old(ledger)@, ctx.note@, ctx.user@, note_address_of(ctx.user@, id)),
        final(ledger)@ == if verdict is Ok {
            old(ledger)@.delete(ctx.note@, ctx.user@)
        } else {
            old(ledger)@
        },
        old(ledger)@.keyed() ==> final(ledger)@.keyed(),
{
    proof {
        lemma_keying_is_kept(ledger@, ctx.note@, ctx.user@, id, Seq::empty(), Seq::empty());
    }
    let derived = note_address(&ctx.user, id);
    match authorize(&ctx.note, &derived) {
        Err(refusal) => Err(refusal),
        Ok(()) => ledger.delete(&ctx.note, &ctx.user),
    }
}

} // verus!
