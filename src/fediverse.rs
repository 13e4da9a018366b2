//! Engagement counters of notes on the federated social instance.
use vstd::prelude::*;

verus! {

/// A note as the social instance reports it: its id and its counters.
#[derive(Clone, Debug, PartialEq, Eq, Default)]
pub struct NoteResponse {
    pub id: String,
    pub replies_count: u64,
    pub reaction_count: u64,
}

/// Replies and reactions that a list of notes gives for `id`: those of the
/// last note with that id (a later note replaces an earlier one, as when the
/// list is indexed by id), or zeros where no note has it.
pub open spec fn note_counts(notes: Seq<NoteResponse>, id: Seq<char>) -> (u64, u64)
    decreases notes.len(),
{
    if notes.len() == 0 {
        (0, 0)
    } else if notes.last().id@ == id {
        (notes.last().replies_count, notes.last().reaction_count)
    } else {
        note_counts(notes.drop_last(), id)
    }
}

/// Looks `id` up among the notes of a user: replies and reactions of the
/// note with that id, zeros where there is none.
pub fn find_note(notes: &Vec<NoteResponse>, id: &String) -> (r: (u64, u64))
    ensures
        r == note_counts(notes@, id@),
{
    let mut i: usize = notes.len();
    assert(notes@.take(i as int) =~= notes@);
    while i > 0
        invariant
            i <= notes.len(),
            note_counts(notes@, id@) == note_counts(notes@.take(i as int), id@),
        decreases i,
    {
        let ghost prefix = notes@.take(i as int);
        assert(prefix.drop_last() =~= notes@.take(i - 1));
        assert(prefix.last() == notes@[i - 1]);
        if notes[i - 1].id == *id {
            return (notes[i - 1].replies_count, notes[i - 1].reaction_count);
        }
        i = i - 1;
    }
    (0, 0)
}

} // verus!
