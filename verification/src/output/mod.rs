//! Where the library writes: a normal stream, and a diagnostic stream that
//! takes text only once verbose mode is on.

use vstd::prelude::*;

pub mod stdio;

verus! {

/// The two output streams of one invocation.
pub trait CurlautOutput {
    /// Whether the diagnostic stream takes text.
    spec fn verbose_enabled(&self) -> bool;

    /// All that was written to the normal stream and not yet taken.
    spec fn common_text(&self) -> Seq<char>;

    /// All that was written to the diagnostic stream and not yet taken.
    spec fn verbose_text(&self) -> Seq<char>;

    /// Opens the diagnostic stream.
    fn enable_verbose(&mut self)
        ensures
            final(self).verbose_enabled(),
            final(self).common_text() == old(self).common_text(),
            final(self).verbose_text() == old(self).verbose_text(),
    ;

    /// Writes to the normal stream.
    fn common(&mut self, text: &str)
        ensures
            final(self).verbose_enabled() == old(self).verbose_enabled(),
            final(self).common_text() == old(self).common_text() + text@,
            final(self).verbose_text() == old(self).verbose_text(),
    ;

    /// Writes to the diagnostic stream; the text is dropped while verbose
    /// mode is off.
    fn verbose(&mut self, text: &str)
        ensures
            final(self).verbose_enabled() == old(self).verbose_enabled(),
            final(self).common_text() == old(self).common_text(),
            final(self).verbose_text() == old(self).verbose_text() + gated(
                old(self).verbose_enabled(),
                text@,
            ),
    ;
}

/// What the diagnostic stream takes of `text`: all of it while verbose mode
/// is on, nothing otherwise.
pub open spec fn gated(enabled: bool, text: Seq<char>) -> Seq<char> {
    if enabled {
        text
    } else {
        Seq::empty()
    }
}

/// Whether `after` is `before` with `common` added to the normal stream and
/// `verbose` offered to the diagnostic stream.
pub open spec fn wrote<O: CurlautOutput>(
    before: &O,
    after: &O,
    common: Seq<char>,
    verbose: Seq<char>,
) -> bool {
    &&& after.verbose_enabled() == before.verbose_enabled()
    &&& after.common_text() == before.common_text() + common
    &&& after.verbose_text() == before.verbose_text() + gated(before.verbose_enabled(), verbose)
}

/// Writing nothing leaves the streams as they are.
pub proof fn lemma_wrote_nothing<O: CurlautOutput>(io: &O)
    ensures
        wrote(io, io, Seq::empty(), Seq::empty()),
{
}

/// Two writes in a row are one write of the two texts in a row.
pub proof fn lemma_wrote_twice<O: CurlautOutput>(
    first: &O,
    second: &O,
    third: &O,
    common_1: Seq<char>,
    verbose_1: Seq<char>,
    common_2: Seq<char>,
    verbose_2: Seq<char>,
)
    requires
        wrote(first, second, common_1, verbose_1),
        wrote(second, third, common_2, verbose_2),
    ensures
        wrote(first, third, common_1 + common_2, verbose_1 + verbose_2),
{
    assert(first.common_text() + common_1 + common_2 =~= first.common_text() + (common_1
        + common_2));
    let enabled = first.verbose_enabled();
    assert(first.verbose_text() + gated(enabled, verbose_1) + gated(enabled, verbose_2)
        =~= first.verbose_text() + gated(enabled, verbose_1 + verbose_2));
}

/// While verbose mode is off, a write leaves the diagnostic stream as it is.
pub proof fn lemma_quiet_unless_verbose<O: CurlautOutput>(
    before: &O,
    after: &O,
    common: Seq<char>,
    verbose: Seq<char>,
)
    requires
        wrote(before, after, common, verbose),
        !before.verbose_enabled(),
    ensures
        after.verbose_text() == before.verbose_text(),
        !after.verbose_enabled(),
{
}

} // verus!
