//! Laws of the message log, stated over the store's model and proved once for
//! every input.

use vstd::prelude::*;
use crate::store::MessageBoard;

verus! {

/// The log after appending each entry of `entries`, in order, to a store that
/// holds `log`: one `write_message` per entry, each of which, by its
/// contract, leaves `log.push(entry)` behind.
pub open spec fn append_all(log: Seq<Seq<char>>, entries: Seq<Seq<char>>) -> Seq<Seq<char>>
    decreases entries.len(),
{
    if entries.len() == 0 {
        log
    } else {
        append_all(log.push(entries[0]), entries.drop_first())
    }
}

/// Appending is order-preserving and duplicate-preserving: a run of appends
/// lands its entries at the tail, in the order given, duplicates included,
/// and leaves every earlier entry in place.
pub proof fn lemma_append_all_appends(log: Seq<Seq<char>>, entries: Seq<Seq<char>>)
    ensures
        append_all(log, entries) == log + entries,
    decreases entries.len(),
{
    if entries.len() == 0 {
        assert(append_all(log, entries) =~= log + entries);
    } else {
        lemma_append_all_appends(log.push(entries[0]), entries.drop_first());
        assert(log.push(entries[0]) + entries.drop_first() =~= log + entries);
    }
}

/// Appending `[m1, ..., mN]` in that order to a fresh store leaves exactly
/// `[m1, ..., mN]` to read back, and a count of `N`.
pub proof fn lemma_appends_read_back_exactly(entries: Seq<Seq<char>>)
    ensures
        append_all(Seq::<Seq<char>>::empty(), entries) == entries,
        append_all(Seq::<Seq<char>>::empty(), entries).len() == entries.len(),
{
    lemma_append_all_appends(Seq::<Seq<char>>::empty(), entries);
    assert(Seq::<Seq<char>>::empty() + entries =~= entries);
}

/// The count always agrees with read-back: any count that `get_message_count`
/// may return for a store equals the length of any snapshot that
/// `get_messages` may return for that same store.
pub proof fn lemma_count_matches_read_back(board: MessageBoard, messages: Vec<String>, count: u32)
    requires
        call_ensures(MessageBoard::get_messages, (&board,), messages),
        call_ensures(MessageBoard::get_message_count, (&board,), count),
    ensures
        count == messages.deep_view().len(),
{
}

/// Reading is idempotent: with no append or clear in between, any two results
/// that `get_messages` may return for one and the same store hold the same
/// entries, and any two counts that `get_message_count` may return are equal.
pub proof fn lemma_reads_idempotent(
    board: MessageBoard,
    first: Vec<String>,
    second: Vec<String>,
    count_first: u32,
    count_second: u32,
)
    requires
        call_ensures(MessageBoard::get_messages, (&board,), first),
        call_ensures(MessageBoard::get_messages, (&board,), second),
        call_ensures(MessageBoard::get_message_count, (&board,), count_first),
        call_ensures(MessageBoard::get_message_count, (&board,), count_second),
    ensures
        first.deep_view() == second.deep_view(),
        count_first == count_second,
{
}

} // verus!
