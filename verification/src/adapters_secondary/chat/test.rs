//! The chat adapter used in tests: it keeps every message it is told to post.
use vstd::prelude::*;

verus! {

/// The messages told to the test chat adapter, oldest first.
pub struct Test {
    pub calls: Vec<String>,
}

impl Test {
    /// An adapter that was told nothing yet.
    pub fn new() -> (test: Test)
        ensures
            test.calls@.len() == 0,
    {
        Test { calls: Vec::new() }
    }

    /// Keeps `message` after those told before.
    pub fn record(&mut self, message: String)
        ensures
            final(self).calls@ == old(self).calls@.push(message),
    {
        self.calls.push(message);
    }
}

/// What the test adapter keeps only grows: when `history[k + 1]` is what
/// `record` leaves after being told `told[k]` in `history[k]`, the messages
/// kept at any point are those kept at any earlier point followed by the
/// messages told in between, so the earlier list is a prefix of the later one.
pub proof fn lemma_calls_only_grow(history: Seq<Seq<String>>, told: Seq<String>, i: int, j: int)
    requires
        history.len() == told.len() + 1,
        forall|k: int| 0 <= k < told.len() ==> history[k + 1] == history[k].push(#[trigger] told[k]),
        0 <= i <= j < history.len(),
    ensures
        history[j] == history[i] + told.subrange(i, j),
        history[i].is_prefix_of(history[j]),
    decreases j - i,
{
    if i == j {
        assert(history[i] + told.subrange(i, j) =~= history[i]);
    } else {
        lemma_calls_only_grow(history, told, i, j - 1);
        let k = j - 1;
        assert(history[k + 1] == history[k].push(told[k]));
        assert(history[i] + told.subrange(i, j) =~= (history[i] + told.subrange(i, k)).push(told[k]));
    }
    assert(history[i] =~= history[j].subrange(0, history[i].len() as int));
}

} // verus!
