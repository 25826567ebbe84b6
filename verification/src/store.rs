//! The message log store: one persisted slot holding an ordered sequence of
//! text entries.
//!
//! The store owns the value kept under a single well-known storage key. The
//! slot is either absent (the key is unset) or holds the full sequence of
//! entries appended so far; to every read operation an absent slot is
//! indistinguishable from an empty sequence.

use vstd::prelude::*;

verus! {

/// The message log store.
///
/// `slot` models the value persisted under the store's single storage key:
/// `None` when the key is unset, `Some(entries)` once a sequence has been
/// written. Entries are immutable once appended; the slot only ever grows at
/// the tail or is removed whole.
pub struct MessageBoard {
    slot: Option<Vec<String>>,
}

impl MessageBoard {
    /// The sequence of entries a reader observes: the slot's contents, or the
    /// empty sequence when the key is unset.
    pub closed spec fn messages(self) -> Seq<Seq<char>> {
        match self.slot {
            None => Seq::<Seq<char>>::empty(),
            Some(entries) => entries.deep_view(),
        }
    }

    /// Whether the storage key currently holds a value at all. Readers cannot
    /// tell an unset key from an empty sequence; this only records which of
    /// the two the slot is in.
    pub closed spec fn key_present(self) -> bool {
        self.slot is Some
    }

    /// A store whose key has never been written: it reads back as empty.
    pub fn new() -> (board: MessageBoard)
        ensures
            board.messages() == Seq::<Seq<char>>::empty(),
            !board.key_present(),
    {
        MessageBoard { slot: None }
    }

    /// Appends one entry at the tail of the log: the current sequence is
    /// loaded (defaulting to empty when the key is unset), grown by exactly
    /// `msg`, and stored back whole under the same key. Every entry appended
    /// earlier keeps its place.
    pub fn write_message(&mut self, msg: String)
        ensures
            final(self).messages() == old(self).messages().push(msg@),
            final(self).key_present(),
    {
        let mut entries: Vec<String> = match self.slot.take() {
            Some(entries) => entries,
            None => Vec::new(),
        };
        let ghost before: Seq<Seq<char>> = old(self).messages();
        assert(entries.deep_view() =~= before);
        entries.push(msg);
        assert(entries.deep_view() =~= before.push(msg@));
        self.slot = Some(entries);
    }

    /// Reads the whole log back: a snapshot of every entry appended so far,
    /// in insertion order, or an empty sequence when the key is unset. The
    /// store itself is untouched.
    pub fn get_messages(&self) -> (messages: Vec<String>)
        ensures
            messages.deep_view() == self.messages(),
    {
        match &self.slot {
            None => {
                let empty: Vec<String> = Vec::new();
                assert(empty.deep_view() =~= Seq::<Seq<char>>::empty());
                empty
            },
            Some(entries) => {
                let snapshot = entries.clone();
                assert(snapshot@ =~= entries@);
                snapshot
            },
        }
    }

    /// The number of entries in the log, as a 32-bit unsigned count; always
    /// equal to the length of what `get_messages` returns.
    pub fn get_message_count(&self) -> (count: u32)
        requires
            self.messages().len() <= u32::MAX,
        ensures
            count == self.messages().len(),
    {
        let messages = self.get_messages();
        messages.len() as u32
    }

    /// Builds a store from the raw slot value read out of the host's storage:
    /// `None` when the key was unset, `Some(entries)` otherwise.
    pub fn from_slot(slot: Option<Vec<String>>) -> (board: MessageBoard)
        ensures
            board.key_present() == slot is Some,
            board.messages() == (match slot {
                None => Seq::<Seq<char>>::empty(),
                Some(entries) => entries.deep_view(),
            }),
    {
        MessageBoard { slot }
    }

    /// Hands the raw slot value back for the host's storage to persist:
    /// `None` when the key is to be unset, `Some(entries)` otherwise.
    pub fn into_slot(self) -> (slot: Option<Vec<String>>)
        ensures
            slot is Some == self.key_present(),
            self.messages() == (match slot {
                None => Seq::<Seq<char>>::empty(),
                Some(entries) => entries.deep_view(),
            }),
    {
        self.slot
    }

    /// Removes the storage key entirely, whatever it held before: afterwards
    /// the store reads back as empty.
    pub fn clear_messages(&mut self)
        ensures
            final(self).messages() == Seq::<Seq<char>>::empty(),
            !final(self).key_present(),
    {
        self.slot = None;
    }
}

} // verus!
