//! A view that lists the last few input events, newest last.
use vstd::prelude::*;

verus! {

/// The last `n` entries of `h`, or all of them when there are fewer.
pub open spec fn last_entries(h: Seq<Seq<char>>, n: nat) -> Seq<Seq<char>> {
    if h.len() > n { h.skip(h.len() - n) } else { h }
}

/// A history of the last `size` events, each as a line of text.
pub struct KeyCodeView {
    history: Vec<String>,
    size: usize,
}

impl KeyCodeView {
    /// The lines of the history, oldest first.
    pub closed spec fn lines(&self) -> Seq<Seq<char>> {
        self.history@.map_values(|s: String| s@)
    }

    /// How many lines the history keeps.
    pub closed spec fn capacity(&self) -> usize {
        self.size
    }

    /// An empty history that keeps `size` lines.
    pub fn new(size: usize) -> (r: Self)
        ensures
            r.lines().len() == 0,
            r.capacity() == size,
    {
        KeyCodeView { history: Vec::new(), size }
    }

    /// Adds the line of a new event and drops the oldest lines beyond the capacity.
    pub fn record_event(&mut self, line: String)
        ensures
            final(self).capacity() == old(self).capacity(),
            final(self).lines() == last_entries(old(self).lines().push(line@), old(self).capacity() as nat),
    {
        let ghost full = self.history@.map_values(|s: String| s@).push(line@);
        self.history.push(line);
        assert(self.history@.map_values(|s: String| s@) =~= full);
        let ghost mut dropped: int = 0;
        while self.history.len() > self.size
            invariant
                self.size == old(self).size,
                0 <= dropped <= full.len(),
                self.history@.map_values(|s: String| s@) == full.skip(dropped),
                self.history@.len() == full.len() - dropped,
                dropped > 0 ==> full.len() - dropped >= self.size,
            decreases self.history@.len(),
        {
            let ghost before = self.history@;
            self.history.remove(0);
            assert(self.history@ =~= before.skip(1));
            assert(before.map_values(|s: String| s@) == full.skip(dropped));
            assert(self.history@.map_values(|s: String| s@) =~= before.map_values(|s: String| s@).skip(1));
            assert(full.skip(dropped).skip(1) =~= full.skip(dropped + 1));
            proof {
                dropped = dropped + 1;
            }
        }
        assert(self.history@.map_values(|s: String| s@) =~= last_entries(full, self.size as nat));
    }

    /// The lines of the history, oldest first.
    pub fn history(&self) -> (r: &Vec<String>)
        ensures
            r@.map_values(|s: String| s@) == self.lines(),
    {
        &self.history
    }
}

} // verus!
