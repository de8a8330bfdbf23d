//! Watching what the forwarding process prints for the line by which it says
//! that it is listening.
//!
//! [`TunnelOutput`] is the watch's state. Its driver reads a line where
//! [`TunnelOutput::pending`] asks for one and hands it to
//! [`TunnelOutput::step`].

use crate::ssm::error::{outcome_view, SSMError, SSMErrorKind, SSMErrorView};
use crate::text::occurs_in;
use vstd::prelude::*;
use vstd::string::*;

verus! {

/// The line by which the forwarding process says that it is listening.
pub const READY_LINE: &'static str = "Waiting for connections...";

/// The number of lines within which the forwarding process has to say so.
pub const LINES_TO_READ: u8 = 4;

/// The failure reported when a line cannot be read, or when the lines read
/// do not say that the process is listening.
pub open spec fn read_failure() -> SSMErrorView {
    SSMErrorView {
        kind: SSMErrorKind::IO,
        msg: "output_tunnel : Error while reading tunnel process line"@,
    }
}

/// The watch, by what is left to do.
#[derive(Debug)]
pub enum TunnelOutput {
    /// Up to `lines_left` lines are still to be read.
    Reading { lines_left: u8 },
    /// The watch has ended.
    Finished { outcome: Result<(), SSMError> },
}

/// A [`TunnelOutput`] with its texts as sequences of characters.
#[verifier::ext_equal]
pub ghost enum TunnelOutputView {
    Reading { lines_left: u8 },
    Finished { outcome: Result<(), SSMErrorView> },
}

impl View for TunnelOutput {
    type V = TunnelOutputView;

    open spec fn view(&self) -> TunnelOutputView {
        match *self {
            TunnelOutput::Reading { lines_left } => TunnelOutputView::Reading { lines_left },
            TunnelOutput::Finished { outcome } => TunnelOutputView::Finished {
                outcome: outcome_view(outcome),
            },
        }
    }
}

/// What the watch asks of its driver.
#[derive(Debug)]
pub enum OutputAction {
    /// Read the next line that the process prints.
    ReadLine,
    /// Report the outcome; nothing is left to do.
    Finish(Result<(), SSMError>),
}

/// An [`OutputAction`] with its texts as sequences of characters.
#[verifier::ext_equal]
pub ghost enum OutputActionView {
    ReadLine,
    Finish(Result<(), SSMErrorView>),
}

impl View for OutputAction {
    type V = OutputActionView;

    open spec fn view(&self) -> OutputActionView {
        match *self {
            OutputAction::ReadLine => OutputActionView::ReadLine,
            OutputAction::Finish(outcome) => OutputActionView::Finish(outcome_view(outcome)),
        }
    }
}

/// A line that was read, or `None` for a read that failed, as a sequence of
/// characters.
pub open spec fn line_view(line: Option<String>) -> Option<Seq<char>> {
    match line {
        None => None,
        Some(text) => Some(text@),
    }
}

/// The watch before any line was read.
pub open spec fn output_start() -> TunnelOutputView {
    TunnelOutputView::Reading { lines_left: LINES_TO_READ }
}

/// The action that the watch waits for in state `watch`.
pub open spec fn output_pending(watch: TunnelOutputView) -> OutputActionView {
    match watch {
        TunnelOutputView::Reading { .. } => OutputActionView::ReadLine,
        TunnelOutputView::Finished { outcome } => OutputActionView::Finish(outcome),
    }
}

/// The state after `line` was read in state `watch`. The line that holds
/// [`READY_LINE`] ends the watch well. A read that fails ends it with
/// [`read_failure`], and so does the last line to read where it does not hold
/// [`READY_LINE`]. A watch that has ended stays as it is.
pub open spec fn output_next(watch: TunnelOutputView, line: Option<Seq<char>>) -> TunnelOutputView {
    match (watch, line) {
        (TunnelOutputView::Reading { lines_left }, None) => TunnelOutputView::Finished {
            outcome: Err(read_failure()),
        },
        (TunnelOutputView::Reading { lines_left }, Some(text)) => {
            if occurs_in(READY_LINE@, text) {
                TunnelOutputView::Finished { outcome: Ok(()) }
            } else if lines_left <= 1 {
                TunnelOutputView::Finished { outcome: Err(read_failure()) }
            } else {
                TunnelOutputView::Reading { lines_left: (lines_left - 1) as u8 }
            }
        },
        (TunnelOutputView::Finished { .. }, _) => watch,
    }
}

/// The watch after the lines `lines`, read one by one from the start.
pub open spec fn output_after(lines: Seq<Option<Seq<char>>>) -> TunnelOutputView
    decreases lines.len(),
{
    if lines.len() == 0 {
        output_start()
    } else {
        output_next(output_after(lines.drop_last()), lines.last())
    }
}

/// `str::contains` with a string for the pattern: whether `part` stands
/// somewhere in `text`.
#[verifier::external_body]
fn text_contains(text: &str, part: &str) -> (found: bool)
    ensures
        found == occurs_in(part@, text@),
{
    text.contains(part)
}

/// The failure of the watch, as a value.
fn read_error() -> (e: SSMError)
    ensures
        e@ == read_failure(),
{
    SSMError {
        kind: SSMErrorKind::IO,
        msg: String::from_str("output_tunnel : Error while reading tunnel process line"),
    }
}

/// Begins the watch of what the forwarding process prints.
pub fn output_tunnel() -> (watch: TunnelOutput)
    ensures
        watch@ == output_start(),
{
    TunnelOutput::Reading { lines_left: LINES_TO_READ }
}

impl TunnelOutput {
    /// The action that the driver is to perform next.
    pub fn pending(&self) -> (action: OutputAction)
        ensures
            action@ == output_pending(self@),
    {
        match self {
            TunnelOutput::Reading { .. } => OutputAction::ReadLine,
            TunnelOutput::Finished { outcome } => OutputAction::Finish(
                match outcome {
                    Ok(()) => Ok(()),
                    Err(e) => Err(e.clone()),
                },
            ),
        }
    }

    /// Takes the line that the driver read, or `None` where the read failed,
    /// and moves on.
    pub fn step(self, line: Option<String>) -> (next: TunnelOutput)
        ensures
            next@ == output_next(self@, line_view(line)),
    {
        match (self, line) {
            (TunnelOutput::Reading { lines_left }, None) => TunnelOutput::Finished {
                outcome: Err(read_error()),
            },
            (TunnelOutput::Reading { lines_left }, Some(text)) => {
                if text_contains(text.as_str(), READY_LINE) {
                    TunnelOutput::Finished { outcome: Ok(()) }
                } else if lines_left <= 1 {
                    TunnelOutput::Finished { outcome: Err(read_error()) }
                } else {
                    TunnelOutput::Reading { lines_left: lines_left - 1 }
                }
            },
            (watch, _) => watch,
        }
    }
}

/// The watch does not read on without end: after as many lines as
/// [`LINES_TO_READ`], whatever they hold, it has ended.
pub proof fn law_watch_ends_within_its_lines(lines: Seq<Option<Seq<char>>>)
    requires
        lines.len() >= LINES_TO_READ,
    ensures
        output_after(lines) is Finished,
{
    lemma_lines_left(lines.take(LINES_TO_READ as int));
    lemma_finished_stays(lines, LINES_TO_READ as int);
}

/// A watch that has read `lines` has ended or has that many lines fewer left.
proof fn lemma_lines_left(lines: Seq<Option<Seq<char>>>)
    requires
        lines.len() <= LINES_TO_READ,
    ensures
        output_after(lines) matches TunnelOutputView::Reading { lines_left } ==> lines_left
            == LINES_TO_READ - lines.len(),
    decreases lines.len(),
{
    if lines.len() > 0 {
        lemma_lines_left(lines.drop_last());
    }
}

/// A watch that has ended after the first `n` lines has ended after all.
proof fn lemma_finished_stays(lines: Seq<Option<Seq<char>>>, n: int)
    requires
        0 <= n <= lines.len(),
        output_after(lines.take(n)) is Finished,
    ensures
        output_after(lines) is Finished,
    decreases lines.len() - n,
{
    if n < lines.len() {
        assert(lines.take(n + 1).drop_last() =~= lines.take(n));
        lemma_finished_stays(lines, n + 1);
    } else {
        assert(lines.take(n) =~= lines);
    }
}

/// The watch ends well on the line that holds [`READY_LINE`], and only there:
/// a watch that has read `lines` reports success exactly where one of them is
/// the first to hold it, see [`ready_at`].
pub proof fn law_watch_succeeds_on_the_ready_line(lines: Seq<Option<Seq<char>>>)
    ensures
        output_after(lines) == (TunnelOutputView::Finished { outcome: Ok(()) }) <==> exists|i: int|
            ready_at(lines, i),
    decreases lines.len(),
{
    if lines.len() > 0 {
        let before = lines.drop_last();
        let last = lines.len() - 1;
        law_watch_succeeds_on_the_ready_line(before);
        lemma_reading_means_none_ready(before);
        if lines.len() <= LINES_TO_READ {
            lemma_lines_left(before);
        } else {
            lemma_lines_left(before.take(LINES_TO_READ as int));
            lemma_finished_stays(before, LINES_TO_READ as int);
        }
        assert forall|i: int| 0 <= i < before.len() implies before[i] == lines[i] by {}
        if output_after(lines) == (TunnelOutputView::Finished { outcome: Ok::<(), SSMErrorView>(()) }) {
            if output_after(before) is Finished {
                let i = choose|i: int| ready_at(before, i);
                assert(ready_at(lines, i));
            } else {
                assert(ready_at(lines, last));
            }
        } else {
            if exists|i: int| ready_at(lines, i) {
                let i = choose|i: int| ready_at(lines, i);
                if i < last {
                    assert(ready_at(before, i));
                } else {
                    lemma_reads_on_keeps_reading(before);
                }
            }
        }
    }
}

/// Whether line `i` of `lines` is the one that ends the watch well: it is
/// among the first [`LINES_TO_READ`], it holds [`READY_LINE`], and every line
/// before it was read and does not.
pub open spec fn ready_at(lines: Seq<Option<Seq<char>>>, i: int) -> bool {
    &&& 0 <= i < lines.len()
    &&& i < LINES_TO_READ
    &&& says_ready(lines[i])
    &&& forall|j: int| 0 <= j < i ==> reads_on(#[trigger] lines[j])
}

/// Whether the line holds [`READY_LINE`].
pub open spec fn says_ready(line: Option<Seq<char>>) -> bool {
    line matches Some(text) && occurs_in(READY_LINE@, text)
}

/// Whether the line was read and does not hold [`READY_LINE`].
pub open spec fn reads_on(line: Option<Seq<char>>) -> bool {
    line matches Some(text) && !occurs_in(READY_LINE@, text)
}

/// A watch that is still reading has read only lines that do not say ready.
proof fn lemma_reading_means_none_ready(lines: Seq<Option<Seq<char>>>)
    ensures
        output_after(lines) is Reading ==> forall|j: int|
            0 <= j < lines.len() ==> reads_on(#[trigger] lines[j]),
    decreases lines.len(),
{
    if lines.len() > 0 {
        lemma_reading_means_none_ready(lines.drop_last());
        if output_after(lines) is Reading {
            assert forall|j: int| 0 <= j < lines.len() implies reads_on(#[trigger] lines[j]) by {
                if j < lines.len() - 1 {
                    assert(lines.drop_last()[j] == lines[j]);
                }
            }
        }
    }
}

/// A watch that has read fewer lines than [`LINES_TO_READ`], none of which
/// says ready, is still reading.
proof fn lemma_reads_on_keeps_reading(lines: Seq<Option<Seq<char>>>)
    requires
        lines.len() < LINES_TO_READ,
        forall|j: int| 0 <= j < lines.len() ==> reads_on(#[trigger] lines[j]),
    ensures
        output_after(lines) is Reading,
    decreases lines.len(),
{
    if lines.len() > 0 {
        assert forall|j: int| 0 <= j < lines.len() - 1 implies reads_on(
            #[trigger] lines.drop_last()[j],
        ) by {
            assert(lines.drop_last()[j] == lines[j]);
        }
        lemma_reads_on_keeps_reading(lines.drop_last());
        lemma_lines_left(lines.drop_last());
        assert(reads_on(lines[lines.len() - 1]));
    }
}

} // verus!
