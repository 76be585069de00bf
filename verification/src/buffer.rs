//! The bounded, newest-first display buffer.
//!
//! New summary lines go in at the front; once the window is full, each
//! push evicts the oldest (last) line. The window is independent of the
//! unbounded total packet count.

use vstd::prelude::*;

verus! {

/// Greatest number of summary lines the display window retains.
pub const DISPLAY_CAPACITY: usize = 100;

/// What a push leaves in the window: the new line in front, the previous
/// contents after it, truncated to the capacity.
pub open spec fn push_model(buf: Seq<Seq<char>>, line: Seq<char>) -> Seq<Seq<char>> {
    let grown = seq![line] + buf;
    if grown.len() <= DISPLAY_CAPACITY {
        grown
    } else {
        grown.take(DISPLAY_CAPACITY as int)
    }
}

/// The display window, most recent line first.
pub struct DisplayBuffer {
    entries: Vec<String>,
}

impl View for DisplayBuffer {
    type V = Seq<Seq<char>>;

    closed spec fn view(&self) -> Seq<Seq<char>> {
        self.entries.deep_view()
    }
}

impl DisplayBuffer {
    /// The window never exceeds its capacity.
    pub open spec fn wf(&self) -> bool {
        self@.len() <= DISPLAY_CAPACITY
    }

    /// An empty window.
    pub fn new() -> (b: DisplayBuffer)
        ensures
            b@ == Seq::<Seq<char>>::empty(),
            b.wf(),
    {
        let b = DisplayBuffer { entries: Vec::new() };
        proof {
            assert(b@ =~= Seq::<Seq<char>>::empty());
        }
        b
    }

    /// How many lines the window holds.
    pub fn len(&self) -> (n: usize)
        ensures
            n == self@.len(),
    {
        self.entries.len()
    }

    /// The line at position `i`, newest first.
    pub fn line(&self, i: usize) -> (s: &String)
        requires
            i < self@.len(),
        ensures
            s@ == self@[i as int],
    {
        &self.entries[i]
    }

    /// All lines, newest first, for rendering.
    pub fn lines(&self) -> (v: &Vec<String>)
        ensures
            v.deep_view() == self@,
    {
        &self.entries
    }

    /// Insert a line at the front, evicting the oldest when the window is
    /// full.
    pub fn push(&mut self, line: String)
        requires
            old(self).wf(),
        ensures
            final(self).wf(),
            final(self)@ == push_model(old(self)@, line@),
    {
        let ghost before = self.entries.deep_view();
        self.entries.insert(0, line);
        proof {
            assert(self.entries.deep_view() =~= seq![line@] + before);
        }
        if self.entries.len() > DISPLAY_CAPACITY {
            let ghost grown = self.entries.deep_view();
            self.entries.pop();
            proof {
                assert(self.entries.deep_view() =~= grown.take(DISPLAY_CAPACITY as int));
            }
        }
    }
}

/// After any push onto a well-formed window: the window still holds at
/// most the capacity; the new line is in front; the previous lines follow
/// in their order; and a push onto a full window leaves it exactly full,
/// the oldest line evicted.
pub proof fn lemma_push_bounded(buf: Seq<Seq<char>>, line: Seq<char>)
    requires
        buf.len() <= DISPLAY_CAPACITY,
    ensures
        push_model(buf, line).len() <= DISPLAY_CAPACITY,
        push_model(buf, line)[0] == line,
        forall|i: int|
            0 <= i < push_model(buf, line).len() - 1 ==> #[trigger] push_model(buf, line)[i + 1]
                == buf[i],
        buf.len() < DISPLAY_CAPACITY ==> push_model(buf, line).len() == buf.len() + 1,
        buf.len() == DISPLAY_CAPACITY ==> push_model(buf, line).len() == DISPLAY_CAPACITY,
{
}

} // verus!
