//! The ledger: a clock and the live notes, each in the slot at its address.
//!
//! `LedgerView` is the ledger as a mathematical value, with the three
//! transitions as functions on it. `Ledger` is the executable store, whose
//! operations compute exactly those transitions.

use crate::address::{note_address_of, Address};
use crate::error::ErrorCode;
use crate::note::{lengths_verdict, Note, NoteView, KEY_LEN};
use vstd::prelude::*;

verus! {

/// The ledger as a mathematical value.
pub struct LedgerView {
    /// The current time. It never runs backwards.
    pub now: i64,
    /// The live notes by address. An address holds a note from the moment
    /// it is created until it is deleted.
    pub notes: Map<Seq<u8>, NoteView>,
}

impl LedgerView {
    /// Every live note is valid, sits at an address of full length, and was
    /// not written after the current time.
    pub open spec fn valid(self) -> bool {
        forall|address: Seq<u8>| #[trigger]
            self.notes.contains_key(address) ==> {
                &&& address.len() == KEY_LEN
                &&& self.notes[address].valid()
                &&& self.notes[address].updated_at <= self.now
            }
    }

    /// Every live note sits at the address that its author and its
    /// identifier derive.
    pub open spec fn keyed(self) -> bool {
        forall|address: Seq<u8>| #[trigger]
            self.notes.contains_key(address) ==> note_address_of(
                self.notes[address].author,
                self.notes[address].id,
            ) == Some(address)
    }

    /// The ledger once the clock has been told that it is `now`.
    pub open spec fn advance(self, now: i64) -> LedgerView {
        LedgerView { now: if now > self.now { now } else { self.now }, ..self }
    }

    /// The verdict on a request to create a note at `address`. An occupied
    /// address is refused before the texts are judged.
    pub open spec fn create_verdict(self, address: Seq<u8>, title: Seq<char>, content: Seq<char>) -> Result<
        (),
        ErrorCode,
    > {
        if self.notes.contains_key(address) {
            Err(ErrorCode::AddressOccupied)
        } else {
            lengths_verdict(title, content)
        }
    }

    /// The ledger after a request to create a note at `address` for
    /// `signer`: with the new note where the verdict is `Ok`, unchanged
    /// where it is not.
    pub open spec fn create(
        self,
        address: Seq<u8>,
        signer: Seq<u8>,
        id: u64,
        title: Seq<char>,
        content: Seq<char>,
    ) -> LedgerView {
        if self.create_verdict(address, title, content) is Ok {
            let note = NoteView::written(signer, id, title, content, self.now);
            LedgerView { notes: self.notes.insert(address, note), ..self }
        } else {
            self
        }
    }

    /// The verdict on a request by `signer` to update the note at
    /// `address`. The note must be there, then the signer must be its
    /// author, then the texts are judged.
    pub open spec fn update_verdict(
        self,
        address: Seq<u8>,
        signer: Seq<u8>,
        title: Seq<char>,
        content: Seq<char>,
    ) -> Result<(), ErrorCode> {
        if !self.notes.contains_key(address) {
            Err(ErrorCode::NotFound)
        } else if self.notes[address].author != signer {
            Err(ErrorCode::Unauthorized)
        } else {
            lengths_verdict(title, content)
        }
    }

    /// The ledger after a request by `signer` to update the note at
    /// `address`: with the new texts and the time of the update where the
    /// verdict is `Ok`, unchanged where it is not.
    pub open spec fn update(self, address: Seq<u8>, signer: Seq<u8>, title: Seq<char>, content: Seq<char>) -> LedgerView {
        if self.update_verdict(address, signer, title, content) is Ok {
            let note = self.notes[address].revised(title, content, self.now);
            LedgerView { notes: self.notes.insert(address, note), ..self }
        } else {
            self
        }
    }

    /// The verdict on a request by `signer` to delete the note at
    /// `address`. The note must be there, and the signer must be its author.
    pub open spec fn delete_verdict(self, address: Seq<u8>, signer: Seq<u8>) -> Result<(), ErrorCode> {
        if !self.notes.contains_key(address) {
            Err(ErrorCode::NotFound)
        } else if self.notes[address].author != signer {
            Err(ErrorCode::Unauthorized)
        } else {
            Ok(())
        }
    }

    /// The ledger after a request by `signer` to delete the note at
    /// `address`: without the note where the verdict is `Ok`, unchanged
    /// where it is not.
    pub open spec fn delete(self, address: Seq<u8>, signer: Seq<u8>) -> LedgerView {
        if self.delete_verdict(address, signer) is Ok {
            LedgerView { notes: self.notes.remove(address), ..self }
        } else {
            self
        }
    }
}

/// One occupied slot.
struct Slot {
    address: Address,
    note: Note,
}

/// Some slot of `slots` is at `address`.
spec fn occupied(slots: Seq<Slot>, address: Seq<u8>) -> bool {
    exists|i: int| 0 <= i < slots.len() && #[trigger] slots[i].address@ == address
}

/// The position in `slots` of a slot at `address`.
spec fn position(slots: Seq<Slot>, address: Seq<u8>) -> int {
    choose|i: int| 0 <= i < slots.len() && #[trigger] slots[i].address@ == address
}

/// No two slots share an address.
spec fn distinct(slots: Seq<Slot>) -> bool {
    forall|i: int, j: int|
        0 <= i < j < slots.len() ==> #[trigger] slots[i].address@ != #[trigger] slots[j].address@
}

/// The notes of `slots` by address.
spec fn notes_of(slots: Seq<Slot>) -> Map<Seq<u8>, NoteView> {
    Map::new(|address: Seq<u8>| occupied(slots, address), |address: Seq<u8>| slots[position(slots, address)].note@)
}

/// In slots of distinct addresses, the slot at position `i` is the one that
/// its address leads to.
proof fn lemma_position(slots: Seq<Slot>, i: int)
    requires
        distinct(slots),
        0 <= i < slots.len(),
    ensures
        occupied(slots, slots[i].address@),
        position(slots, slots[i].address@) == i,
        notes_of(slots)[slots[i].address@] == slots[i].note@,
{
    let address = slots[i].address@;
    assert(slots[i].address@ == address);
    let p = position(slots, address);
    assert(0 <= p < slots.len() && slots[p].address@ == address);
    if p < i {
        assert(slots[p].address@ != slots[i].address@);
    } else if i < p {
        assert(slots[i].address@ != slots[p].address@);
    }
}

/// A slot added at a free address adds its note, and nothing else changes.
proof fn lemma_occupy(slots: Seq<Slot>, slot: Slot)
    requires
        distinct(slots),
        !occupied(slots, slot.address@),
    ensures
        distinct(slots.push(slot)),
        notes_of(slots.push(slot)) == notes_of(slots).insert(slot.address@, slot.note@),
{
    let after = slots.push(slot);
    assert(distinct(after)) by {
        assert forall|i: int, j: int| 0 <= i < j < after.len() implies #[trigger] after[i].address@
            != #[trigger] after[j].address@ by {
            if j == slots.len() {
                assert(slots[i].address@ != slot.address@);
            } else {
                assert(slots[i].address@ != slots[j].address@);
            }
        }
    }
    assert forall|address: Seq<u8>| #[trigger]
        notes_of(after).contains_key(address) == notes_of(slots).insert(slot.address@, slot.note@).contains_key(
            address,
        ) by {
        if occupied(after, address) {
            let p = position(after, address);
            if p < slots.len() {
                assert(slots[p].address@ == address);
            }
        }
        if occupied(slots, address) {
            let p = position(slots, address);
            assert(after[p].address@ == address);
        }
        if address == slot.address@ {
            assert(after[slots.len() as int].address@ == address);
        }
    }
    assert forall|address: Seq<u8>| #[trigger] notes_of(after).contains_key(address) implies notes_of(
        after,
    )[address] == notes_of(slots).insert(slot.address@, slot.note@)[address] by {
        let p = position(after, address);
        lemma_position(after, p);
        if p < slots.len() {
            lemma_position(slots, p);
        }
    }
    assert(notes_of(after) =~= notes_of(slots).insert(slot.address@, slot.note@));
}

/// A slot that takes the place of another at the same address replaces its
/// note, and nothing else changes.
proof fn lemma_rewrite(slots: Seq<Slot>, i: int, slot: Slot)
    requires
        distinct(slots),
        0 <= i < slots.len(),
        slots[i].address@ == slot.address@,
    ensures
        distinct(slots.update(i, slot)),
        notes_of(slots.update(i, slot)) == notes_of(slots).insert(slot.address@, slot.note@),
{
    let after = slots.update(i, slot);
    assert(distinct(after)) by {
        assert forall|j: int, k: int| 0 <= j < k < after.len() implies #[trigger] after[j].address@
            != #[trigger] after[k].address@ by {
            assert(slots[j].address@ != slots[k].address@);
        }
    }
    assert forall|address: Seq<u8>| #[trigger]
        notes_of(after).contains_key(address) == notes_of(slots).insert(slot.address@, slot.note@).contains_key(
            address,
        ) by {
        if occupied(after, address) {
            let p = position(after, address);
            assert(slots[p].address@ == address);
        }
        if occupied(slots, address) {
            let p = position(slots, address);
            assert(after[p].address@ == address);
        }
        if address == slot.address@ {
            assert(after[i].address@ == address);
        }
    }
    assert forall|address: Seq<u8>| #[trigger] notes_of(after).contains_key(address) implies notes_of(
        after,
    )[address] == notes_of(slots).insert(slot.address@, slot.note@)[address] by {
        let p = position(after, address);
        lemma_position(after, p);
        lemma_position(slots, p);
    }
    assert(notes_of(after) =~= notes_of(slots).insert(slot.address@, slot.note@));
}

/// A slot that is taken out takes its note with it, and nothing else changes.
proof fn lemma_vacate(slots: Seq<Slot>, i: int)
    requires
        distinct(slots),
        0 <= i < slots.len(),
    ensures
        distinct(slots.remove(i)),
        notes_of(slots.remove(i)) == notes_of(slots).remove(slots[i].address@),
{
    let after = slots.remove(i);
    let gone = slots[i].address@;
    assert forall|k: int| 0 <= k < after.len() implies #[trigger] after[k] == slots[if k < i {
        k
    } else {
        k + 1
    }] by {}
    assert(distinct(after)) by {
        assert forall|j: int, k: int| 0 <= j < k < after.len() implies #[trigger] after[j].address@
            != #[trigger] after[k].address@ by {
            let j0 = if j < i { j } else { j + 1 };
            let k0 = if k < i { k } else { k + 1 };
            assert(slots[j0].address@ != slots[k0].address@);
        }
    }
    assert forall|address: Seq<u8>| #[trigger]
        notes_of(after).contains_key(address) == notes_of(slots).remove(gone).contains_key(address) by {
        if occupied(after, address) {
            let p = position(after, address);
            let p0 = if p < i { p } else { p + 1 };
            assert(slots[p0].address@ == address);
            if p0 < i {
                assert(slots[p0].address@ != slots[i].address@);
            } else {
                assert(slots[i].address@ != slots[p0].address@);
            }
        }
        if occupied(slots, address) && address != gone {
            let p = position(slots, address);
            let q = if p < i { p } else { p - 1 };
            assert(after[q].address@ == address);
        }
    }
    assert forall|address: Seq<u8>| #[trigger] notes_of(after).contains_key(address) implies notes_of(
        after,
    )[address] == notes_of(slots).remove(gone)[address] by {
        let p = position(after, address);
        let p0 = if p < i { p } else { p + 1 };
        lemma_position(after, p);
        lemma_position(slots, p0);
    }
    assert(notes_of(after) =~= notes_of(slots).remove(gone));
}

/// The store of notes: a clock and the occupied slots.
pub struct Ledger {
    now: i64,
    slots: Vec<Slot>,
}

impl View for Ledger {
    type V = LedgerView;

    closed spec fn view(&self) -> LedgerView {
        LedgerView { now: self.now, notes: notes_of(self.slots@) }
    }
}

impl Ledger {
    /// The slots are sound: no address occurs twice, every note is valid,
    /// and none was written after the current time.
    pub closed spec fn wf(&self) -> bool {
        &&& distinct(self.slots@)
        &&& forall|i: int|
            0 <= i < self.slots@.len() ==> {
                &&& (#[trigger] self.slots@[i]).note@.valid()
                &&& self.slots@[i].note.updated_at <= self.now
            }
    }

    /// An empty ledger whose clock shows `now`.
    pub fn new(now: i64) -> (ledger: Ledger)
        ensures
            ledger@.now == now,
            ledger@.notes == Map::<Seq<u8>, NoteView>::empty(),
            ledger@.keyed(),
            ledger.wf(),
    {
        let ledger = Ledger { now, slots: Vec::new() };
        assert(ledger@.notes =~= Map::<Seq<u8>, NoteView>::empty());
        ledger
    }

    /// The current time.
    pub fn now(&self) -> (now: i64)
        ensures
            now == self@.now,
    {
        self.now
    }

    /// Tells the clock that it is `now`. A time before the current one is
    /// ignored: the clock never runs backwards.
    pub fn advance(&mut self, now: i64)
        requires
            old(self).wf(),
        ensures
            final(self).wf(),
            final(self)@ == old(self)@.advance(now),
    {
        if now > self.now {
            self.now = now;
        }
    }

    /// A sound ledger shows a valid view.
    pub proof fn lemma_valid(&self)
        requires
            self.wf(),
        ensures
            self@.valid(),
    {
        assert forall|address: Seq<u8>| #[trigger] self@.notes.contains_key(address) implies {
            &&& address.len() == KEY_LEN
            &&& self@.notes[address].valid()
            &&& self@.notes[address].updated_at <= self@.now
        } by {
            let p = position(self.slots@, address);
            assert(0 <= p < self.slots@.len() && self.slots@[p].address@ == address);
            assert(self.slots@[p].note@.valid());
        }
    }

    /// The position of the slot at `address`, if it is occupied.
    fn find(&self, address: &Address) -> (found: Option<usize>)
        ensures
            found matches Some(i) ==> i < self.slots@.len() && self.slots@[i as int].address@ == address@,
            found is None ==> !occupied(self.slots@, address@),
    {
        let mut i: usize = 0;
        while i < self.slots.len()
            invariant
                i <= self.slots@.len(),
                forall|k: int| 0 <= k < i ==> (#[trigger] self.slots@[k]).address@ != address@,
            decreases self.slots@.len() - i,
        {
            if self.slots[i].address == *address {
                return Some(i);
            }
            i += 1;
        }
        None
    }

    /// Creates the note of `signer` under `id` at `address`, stamped with
    /// the current time. An occupied address is refused, then a title that
    /// is too long, then a content that is too long; a refusal changes
    /// nothing.
    pub fn create(&mut self, address: Address, signer: Address, id: u64, title: String, content: String) -> (verdict:
        Result<(), ErrorCode>)
        requires
            old(self).wf(),
        ensures
            final(self).wf(),
            verdict == old(self)@.create_verdict(address@, title@, content@),
            final(self)@ == old(self)@.create(address@, signer@, id, title@, content@),
    {
        if self.find(&address).is_some() {
            return Err(ErrorCode::AddressOccupied);
        }
        match Note::write(signer, id, title, content, self.now) {
            Err(refusal) => Err(refusal),
            Ok(note) => {
                let slot = Slot { address, note };
                proof {
                    lemma_occupy(self.slots@, slot);
                }
                self.slots.push(slot);
                Ok(())
            },
        }
    }

    /// Gives the note at `address` a new title and content, stamped with
    /// the current time. A free address is refused, then a signer who is not
    /// the note's author, then a title that is too long, then a content that
    /// is too long; a refusal changes nothing.
    pub fn update(&mut self, address: &Address, signer: &Address, title: String, content: String) -> (verdict:
        Result<(), ErrorCode>)
        requires
            old(self).wf(),
        ensures
            final(self).wf(),
            verdict == old(self)@.update_verdict(address@, signer@, title@, content@),
            final(self)@ == old(self)@.update(address@, signer@, title@, content@),
    {
        let i = match self.find(address) {
            Some(i) => i,
            None => {
                return Err(ErrorCode::NotFound);
            },
        };
        proof {
            lemma_position(self.slots@, i as int);
        }
        if self.slots[i].note.author != *signer {
            return Err(ErrorCode::Unauthorized);
        }
        match self.slots[i].note.revise(title, content, self.now) {
            Err(refusal) => Err(refusal),
            Ok(note) => {
                let slot = Slot { address: *address, note };
                proof {
                    lemma_rewrite(self.slots@, i as int, slot);
                }
                self.slots[i] = slot;
                Ok(())
            },
        }
    }

    /// Deletes the note at `address`. A free address is refused, then a
    /// signer who is not the note's author; a refusal changes nothing.
    pub fn delete(&mut self, address: &Address, signer: &Address) -> (verdict: Result<(), ErrorCode>)
        requires
            old(self).wf(),
        ensures
            final(self).wf(),
            verdict == old(self)@.delete_verdict(address@, signer@),
            final(self)@ == old(self)@.delete(address@, signer@),
    {
        let i = match self.find(address) {
            Some(i) => i,
            None => {
                return Err(ErrorCode::NotFound);
            },
        };
        proof {
            lemma_position(self.slots@, i as int);
            lemma_vacate(self.slots@, i as int);
        }
        if self.slots[i].note.author != *signer {
            return Err(ErrorCode::Unauthorized);
        }
        let _ = self.slots.remove(i);
        Ok(())
    }

    /// Reads the note at `address`, if the address holds one.
    pub fn get(&self, address: &Address) -> (note: Option<&Note>)
        requires
            self.wf(),
        ensures
            note is Some <==> self@.notes.contains_key(address@),
            note matches Some(n) ==> n@ == self@.notes[address@],
    {
        match self.find(address) {
            Some(i) => {
                proof {
                    lemma_position(self.slots@, i as int);
                }
                Some(&self.slots[i].note)
            },
            None => None,
        }
    }
}

} // verus!
