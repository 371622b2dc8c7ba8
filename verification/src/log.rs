//! The shared status transcript.

use vstd::prelude::*;

verus! {

/// Append-only transcript written by every worker and read by the
/// presentation layer.  Insertion order is the only guarantee it gives;
/// the callers that share one wrap it in their own mutual exclusion.
pub struct StatusLog {
    pub entries: Vec<String>,
}

impl View for StatusLog {
    type V = Seq<Seq<char>>;

    open spec fn view(&self) -> Seq<Seq<char>> {
        Seq::new(self.entries@.len(), |i: int| self.entries@[i]@)
    }
}

impl StatusLog {
    pub fn new() -> (log: StatusLog)
        ensures
            log@ == Seq::<Seq<char>>::empty(),
    {
        let log = StatusLog { entries: Vec::new() };
        proof {
            assert(log@ =~= Seq::<Seq<char>>::empty());
        }
        log
    }

    /// Appends one entry at the end; nothing already written moves.
    pub fn append(&mut self, entry: String)
        ensures
            final(self)@ == old(self)@.push(entry@),
    {
        let ghost before = self@;
        let ghost line = entry@;
        self.entries.push(entry);
        proof {
            assert(self@ =~= before.push(line));
        }
    }

    pub fn len(&self) -> (n: usize)
        ensures
            n == self@.len(),
    {
        self.entries.len()
    }

    pub fn entry(&self, i: usize) -> (r: &String)
        requires
            i < self@.len(),
        ensures
            r@ == self@[i as int],
    {
        &self.entries[i]
    }
}

/// Appends one line of text to the shared status transcript.
pub fn write_output(output: &mut StatusLog, text: &str)
    ensures
        final(output)@ == old(output)@.push(text@),
{
    output.append(text.to_owned());
}

} // verus!
