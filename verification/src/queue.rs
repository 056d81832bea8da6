//! The per-planet pending-move queue: a bounded admission buffer for moves
//! awaiting their confirmation callback, and a landing-slot-sorted
//! collection of confirmed in-flight moves.
//!
//! The sort order is the whole point: flushing may only ever take the front
//! (earliest-landing) entry, so combat is resolved strictly in landing
//! order, and a source planet may not launch a new move while a landed move
//! of its own is still unflushed.

use vstd::prelude::*;

use crate::game::ErrorCode;

verus! {

/// Most moves that may await their confirmation callback at once.
pub const MAX_QUEUED_CALLBACKS: usize = 8;

/// One confirmed in-flight move: when it lands and which move account holds
/// its payload.
#[derive(Clone, Copy, PartialEq, Eq, Structural, Debug)]
pub struct PendingMoveEntry {
    pub landing_slot: u64,
    pub move_id: u64,
}

/// Entries sorted by ascending landing slot.
pub open spec fn sorted_by_landing(s: Seq<PendingMoveEntry>) -> bool {
    forall|i: int, j: int|
        0 <= i <= j < s.len() ==> #[trigger] s[i].landing_slot <= #[trigger] s[j].landing_slot
}

/// Pending-move bookkeeping for one planet: the admission buffer of landing
/// slots awaiting confirmation, and the sorted collection of confirmed
/// moves.
#[derive(Clone, PartialEq, Eq, Debug)]
pub struct PendingMovesMetadata {
    pub game_id: u64,
    pub planet_hash: [u8; 32],
    /// Identifier the next confirmed move will take.
    pub next_move_id: u64,
    /// Mirror of `moves.len()`, kept for the persisted layout.
    pub move_count: u16,
    /// Admission buffer: filled at request time, drained in order by the
    /// confirmation callback.
    pub queued_landing_slots: Vec<u64>,
    /// Confirmed in-flight moves, sorted by ascending landing slot.
    pub moves: Vec<PendingMoveEntry>,
}

impl PendingMovesMetadata {
    /// Structural invariant: the confirmed moves are sorted, the admission
    /// buffer respects its bound, and the persisted count mirrors the
    /// collection.
    pub open spec fn wf(self) -> bool {
        &&& sorted_by_landing(self.moves@)
        &&& self.queued_landing_slots@.len() <= MAX_QUEUED_CALLBACKS
        &&& self.move_count == self.moves@.len()
    }

    /// Fresh, empty bookkeeping for one planet.
    pub fn new(game_id: u64, planet_hash: [u8; 32]) -> (r: Self)
        ensures
            r.wf(),
            r.game_id == game_id,
            r.planet_hash == planet_hash,
            r.next_move_id == 0,
            r.queued_landing_slots@.len() == 0,
            r.moves@.len() == 0,
    {
        PendingMovesMetadata {
            game_id,
            planet_hash,
            next_move_id: 0,
            move_count: 0,
            queued_landing_slots: Vec::new(),
            moves: Vec::new(),
        }
    }

    /// The source-side launch gate: a planet may originate a new move only
    /// while none of its own pending moves has landed unflushed.
    pub open spec fn spec_may_launch(self, now: u64) -> bool {
        self.moves@.len() == 0 || self.moves@[0].landing_slot > now
    }

    /// Check the launch gate.
    pub fn may_launch(&self, now: u64) -> (r: bool)
        ensures
            r == self.spec_may_launch(now),
    {
        self.moves.len() == 0 || self.moves[0].landing_slot > now
    }

    /// The flush gate: there is a front entry and it has landed.
    pub open spec fn spec_can_flush(self, now: u64) -> bool {
        self.moves@.len() > 0 && self.moves@[0].landing_slot <= now
    }

    /// Check the flush gate.
    pub fn can_flush(&self, now: u64) -> (r: bool)
        ensures
            r == self.spec_can_flush(now),
    {
        self.moves.len() > 0 && self.moves[0].landing_slot <= now
    }

    /// Admit a move request into the buffer.  Succeeds exactly when the
    /// landing slot lies in the future and the buffer has room, and then
    /// returns the identifier the move will take once confirmed.
    pub fn admit_move(&mut self, now: u64, landing_slot: u64) -> (r: Result<u64, ErrorCode>)
        requires
            old(self).wf(),
            old(self).next_move_id + old(self).queued_landing_slots@.len() <= u64::MAX,
        ensures
            final(self).wf(),
            landing_slot <= now ==> r == Err::<u64, ErrorCode>(ErrorCode::InvalidMoveInput)
                && *final(self) == *old(self),
            landing_slot > now && old(self).queued_landing_slots@.len() >= MAX_QUEUED_CALLBACKS
                ==> r == Err::<u64, ErrorCode>(ErrorCode::TooManyPendingMoves) && *final(self)
                == *old(self),
            landing_slot > now && old(self).queued_landing_slots@.len() < MAX_QUEUED_CALLBACKS
                ==> {
                &&& r == Ok::<u64, ErrorCode>(
                    (old(self).next_move_id + old(self).queued_landing_slots@.len()) as u64,
                )
                &&& final(self).queued_landing_slots@ == old(self).queued_landing_slots@.push(
                    landing_slot,
                )
                &&& final(self).moves@ == old(self).moves@
                &&& final(self).next_move_id == old(self).next_move_id
                &&& final(self).move_count == old(self).move_count
                &&& final(self).game_id == old(self).game_id
                &&& final(self).planet_hash == old(self).planet_hash
            },
    {
        if landing_slot <= now {
            Err(ErrorCode::InvalidMoveInput)
        } else if self.queued_landing_slots.len() >= MAX_QUEUED_CALLBACKS {
            Err(ErrorCode::TooManyPendingMoves)
        } else {
            let qc = self.queued_landing_slots.len();
            let predicted = self.next_move_id + qc as u64;
            self.queued_landing_slots.push(landing_slot);
            Ok(predicted)
        }
    }

    /// The position a landing slot takes in the sorted collection: before
    /// every entry landing strictly later, after every entry landing no
    /// later.
    fn insert_position(&self, landing_slot: u64) -> (pos: usize)
        requires
            sorted_by_landing(self.moves@),
        ensures
            pos <= self.moves@.len(),
            forall|i: int| 0 <= i < pos ==> #[trigger] self.moves@[i].landing_slot <= landing_slot,
            forall|i: int|
                pos <= i < self.moves@.len() ==> landing_slot <= #[trigger] self.moves@[
                    i
                ].landing_slot,
    {
        let mut lo: usize = 0;
        let mut hi: usize = self.moves.len();
        while lo < hi
            invariant
                lo <= hi <= self.moves@.len(),
                sorted_by_landing(self.moves@),
                forall|i: int| 0 <= i < lo ==> #[trigger] self.moves@[i].landing_slot <= landing_slot,
                forall|i: int|
                    hi <= i < self.moves@.len() ==> landing_slot <= #[trigger] self.moves@[
                        i
                    ].landing_slot,
            decreases hi - lo,
        {
            let mid = lo + (hi - lo) / 2;
            if self.moves[mid].landing_slot <= landing_slot {
                lo = mid + 1;
            } else {
                hi = mid;
            }
        }
        lo
    }

    /// Confirm the oldest admitted move: drain its landing slot from the
    /// buffer and insert it into the collection, sorted by landing slot.
    /// Fails exactly when nothing awaits confirmation, leaving the
    /// bookkeeping unchanged.
    pub fn confirm_move(&mut self) -> (r: Result<PendingMoveEntry, ErrorCode>)
        requires
            old(self).wf(),
            old(self).next_move_id < u64::MAX,
            old(self).moves@.len() < u16::MAX,
        ensures
            final(self).wf(),
            old(self).queued_landing_slots@.len() == 0 ==> r == Err::<
                PendingMoveEntry,
                ErrorCode,
            >(ErrorCode::InvalidMoveInput) && *final(self) == *old(self),
            old(self).queued_landing_slots@.len() > 0 ==> {
                &&& r == Ok::<PendingMoveEntry, ErrorCode>(
                    PendingMoveEntry {
                        landing_slot: old(self).queued_landing_slots@[0],
                        move_id: old(self).next_move_id,
                    },
                )
                &&& final(self).queued_landing_slots@ == old(self).queued_landing_slots@.subrange(
                    1,
                    old(self).queued_landing_slots@.len() as int,
                )
                &&& final(self).next_move_id == old(self).next_move_id + 1
                &&& (exists|pos: int|
                    0 <= pos <= old(self).moves@.len() && final(self).moves@ == old(self).moves@.insert(
                        pos,
                        PendingMoveEntry {
                            landing_slot: old(self).queued_landing_slots@[0],
                            move_id: old(self).next_move_id,
                        },
                    ))
                &&& final(self).moves@.len() == old(self).moves@.len() + 1
                &&& final(self).game_id == old(self).game_id
                &&& final(self).planet_hash == old(self).planet_hash
            },
    {
        if self.queued_landing_slots.len() == 0 {
            return Err(ErrorCode::InvalidMoveInput);
        }
        let landing_slot = self.queued_landing_slots.remove(0);
        let move_id = self.next_move_id;
        let entry = PendingMoveEntry { landing_slot, move_id };
        let pos = self.insert_position(landing_slot);
        self.moves.insert(pos, entry);
        self.move_count = self.moves.len() as u16;
        self.next_move_id = move_id + 1;
        Ok(entry)
    }

    /// Remove and return the front (earliest-landing) entry, allowed only
    /// once it has landed.  Fails exactly when the collection is empty or
    /// the front has not landed, leaving the bookkeeping unchanged.  No
    /// other index is ever removed.
    pub fn flush_front(&mut self, now: u64) -> (r: Result<PendingMoveEntry, ErrorCode>)
        requires
            old(self).wf(),
        ensures
            final(self).wf(),
            !old(self).spec_can_flush(now) ==> r == Err::<PendingMoveEntry, ErrorCode>(
                ErrorCode::FlushFailed,
            ) && *final(self) == *old(self),
            old(self).spec_can_flush(now) ==> {
                &&& r == Ok::<PendingMoveEntry, ErrorCode>(old(self).moves@[0])
                &&& old(self).moves@[0].landing_slot <= now
                &&& final(self).moves@ == old(self).moves@.subrange(1, old(self).moves@.len() as int)
                &&& forall|i: int|
                    0 <= i < final(self).moves@.len() ==> old(self).moves@[0].landing_slot
                        <= #[trigger] final(self).moves@[i].landing_slot
                &&& final(self).queued_landing_slots@ == old(self).queued_landing_slots@
                &&& final(self).next_move_id == old(self).next_move_id
                &&& final(self).game_id == old(self).game_id
                &&& final(self).planet_hash == old(self).planet_hash
            },
    {
        if self.moves.len() == 0 {
            return Err(ErrorCode::FlushFailed);
        }
        if self.moves[0].landing_slot > now {
            return Err(ErrorCode::FlushFailed);
        }
        let entry = self.moves.remove(0);
        self.move_count = self.moves.len() as u16;
        Ok(entry)
    }
}

/// The front of a sorted collection lands no later than any entry: flushing
/// index 0 always flushes an earliest-landing move.
pub proof fn lemma_front_is_earliest(s: Seq<PendingMoveEntry>)
    requires
        sorted_by_landing(s),
        s.len() > 0,
    ensures
        forall|i: int| 0 <= i < s.len() ==> s[0].landing_slot <= #[trigger] s[i].landing_slot,
{
}

} // verus!
