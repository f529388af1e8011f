//! Lines of the child's output, as the background reader hands them on.

use vstd::prelude::*;
use crate::status::ProcessHandle;

verus! {

/// One line of the child's standard output.
#[derive(Clone, Debug, PartialEq, Eq)]
pub struct OutputLine {
    pub text: String,
    /// Position of the line in the output of its process.
    pub seq: u64,
    /// Epoch of the process that wrote the line.
    pub epoch: u64,
}

/// The numbering state of the reader that follows one process.
#[derive(Clone, Copy, Debug, PartialEq, Eq, Structural)]
pub struct OutputReader {
    pub epoch: u64,
    pub next_seq: u64,
}

impl OutputReader {
    /// A reader for the output of the process with this handle.
    pub fn new(handle: ProcessHandle) -> (r: OutputReader)
        ensures
            r == (OutputReader { epoch: handle.epoch, next_seq: 0 }),
    {
        OutputReader { epoch: handle.epoch, next_seq: 0 }
    }

    /// Tags the next line read. Lines are numbered from 0 in the order they
    /// are read; the numbering stops at `u64::MAX`.
    pub fn tag(&mut self, text: String) -> (line: OutputLine)
        ensures
            line.text == text,
            line.seq == old(self).next_seq,
            line.epoch == old(self).epoch,
            final(self).epoch == old(self).epoch,
            final(self).next_seq == if old(self).next_seq < u64::MAX {
                old(self).next_seq + 1
            } else {
                u64::MAX as int
            },
    {
        let seq: u64 = self.next_seq;
        if seq < u64::MAX {
            self.next_seq = seq + 1;
        }
        OutputLine { text, seq, epoch: self.epoch }
    }
}

} // verus!
