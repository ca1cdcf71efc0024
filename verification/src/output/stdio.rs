//! The output of the command line: what is to go to the standard output and
//! to the standard error, kept until the program takes it to write it out.

use vstd::prelude::*;
use vstd::string::StringExecFns;
use crate::output::CurlautOutput;
use crate::output::gated;

verus! {

/// The two streams of the command line.
pub struct CurlautStdOutput {
    out: CurlautStdOut,
    err: CurlautStdErr,
}

struct CurlautStdOut {
    pending: String,
}

struct CurlautStdErr {
    enabled: bool,
    pending: String,
}

impl CurlautStdOut {
    fn write(&mut self, text: &str)
        ensures
            final(self).pending@ == old(self).pending@ + text@,
    {
        self.pending.append(text);
    }
}

impl CurlautStdErr {
    fn write(&mut self, text: &str)
        ensures
            final(self).enabled == old(self).enabled,
            final(self).pending@ == old(self).pending@ + gated(old(self).enabled, text@),
    {
        if self.enabled {
            self.pending.append(text);
        }
    }
}

impl CurlautStdOutput {
    /// Two empty streams, verbose mode off.
    pub fn new() -> (io: Self)
        ensures
            !io.verbose_enabled(),
            io.common_text() == Seq::<char>::empty(),
            io.verbose_text() == Seq::<char>::empty(),
    {
        Self {
            out: CurlautStdOut { pending: String::new() },
            err: CurlautStdErr { enabled: false, pending: String::new() },
        }
    }

    /// Whether verbose mode is on.
    pub fn is_verbose(&self) -> (enabled: bool)
        ensures
            enabled == self.verbose_enabled(),
    {
        self.err.enabled
    }

    /// Hands out what is to go to the standard output, and forgets it.
    pub fn take_common(&mut self) -> (text: String)
        ensures
            text@ == old(self).common_text(),
            final(self).common_text() == Seq::<char>::empty(),
            final(self).verbose_text() == old(self).verbose_text(),
            final(self).verbose_enabled() == old(self).verbose_enabled(),
    {
        let mut text = String::new();
        std::mem::swap(&mut self.out.pending, &mut text);
        text
    }

    /// Hands out what is to go to the standard error, and forgets it.
    pub fn take_verbose(&mut self) -> (text: String)
        ensures
            text@ == old(self).verbose_text(),
            final(self).verbose_text() == Seq::<char>::empty(),
            final(self).common_text() == old(self).common_text(),
            final(self).verbose_enabled() == old(self).verbose_enabled(),
    {
        let mut text = String::new();
        std::mem::swap(&mut self.err.pending, &mut text);
        text
    }
}

impl CurlautOutput for CurlautStdOutput {
    closed spec fn verbose_enabled(&self) -> bool {
        self.err.enabled
    }

    closed spec fn common_text(&self) -> Seq<char> {
        self.out.pending@
    }

    closed spec fn verbose_text(&self) -> Seq<char> {
        self.err.pending@
    }

    fn enable_verbose(&mut self) {
        self.err.enabled = true;
    }

    fn common(&mut self, text: &str) {
        self.out.write(text);
    }

    fn verbose(&mut self, text: &str) {
        self.err.write(text);
    }
}

} // verus!
