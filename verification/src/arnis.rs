//! The Arnis generator boundary: the command line handed to Arnis, the reading
//! of its version probe and exit status, the coarse progress stages read from
//! its output, and a shared cancellation flag.
//!
//! Launching the process, reading its pipes and waiting for it happen outside
//! the library; they feed [`RunMonitor`] with what they observe and follow the
//! decisions it returns.
use crate::text::{
    chars_equal, chars_of, concat_chars, has_infix, is_blank, string_of, trim, trim_str,
    contains_chars,
};
use std::collections::VecDeque;
use std::path::PathBuf;
use std::sync::atomic::AtomicBool;
use std::sync::atomic::Ordering;
use std::sync::Arc;
use vstd::prelude::*;

verus! {

#[verifier::external_type_specification]
#[verifier::external_body]
pub struct ExPathBuf(std::path::PathBuf);

#[verifier::external_type_specification]
#[verifier::external_body]
pub struct ExIoError(std::io::Error);

/// Copies a path with `PathBuf::clone`, which yields an equal path.
#[verifier::external_body]
pub(crate) fn clone_path(path: &PathBuf) -> (r: PathBuf)
    ensures
        r == *path,
{
    path.clone()
}

// ---------------------------------------------------------------------------
// Cancellation
// ---------------------------------------------------------------------------

/// Sets the shared flag with `AtomicBool::store` (release ordering).
#[verifier::external_body]
fn raise_flag(flag: &Arc<AtomicBool>) {
    flag.store(true, Ordering::Release)
}

/// Reads the shared flag with `AtomicBool::load` (acquire ordering).
///
/// The flag is shared between threads: nothing is claimed of the value read.
#[verifier::external_body]
fn read_flag(flag: &Arc<AtomicBool>) -> (r: bool) {
    flag.load(Ordering::Acquire)
}

/// A cancellation request shared by all clones of the token.
#[derive(Debug, Clone)]
pub struct ArnisCancellationToken {
    cancelled: Arc<AtomicBool>,
}

impl ArnisCancellationToken {
    pub fn new() -> (r: Self) {
        ArnisCancellationToken { cancelled: Arc::new(AtomicBool::new(false)) }
    }

    /// Requests cancellation of every run that observes this token or a clone of it.
    pub fn cancel(&self) {
        raise_flag(&self.cancelled)
    }

    /// Whether cancellation was requested through this token or a clone of it.
    pub fn is_cancelled(&self) -> bool {
        read_flag(&self.cancelled)
    }
}

// ---------------------------------------------------------------------------
// Stages and events
// ---------------------------------------------------------------------------

#[derive(Debug, Clone, Copy, PartialEq, Eq)]
pub enum ArnisLogStream {
    Stdout,
    Stderr,
}

#[derive(Debug, Clone, Copy, PartialEq, Eq, PartialOrd, Ord)]
pub enum ArnisStage {
    PreparingData,
    ProcessingMap,
    GeneratingWorld,
    SavingWorld,
}

/// The position of a stage in the order of generation.
pub open spec fn stage_rank(s: ArnisStage) -> int {
    match s {
        ArnisStage::PreparingData => 0,
        ArnisStage::ProcessingMap => 1,
        ArnisStage::GeneratingWorld => 2,
        ArnisStage::SavingWorld => 3,
    }
}

/// The position of a stage in the order of generation.
pub fn stage_position(s: ArnisStage) -> (r: u8)
    ensures
        r == stage_rank(s),
{
    match s {
        ArnisStage::PreparingData => 0,
        ArnisStage::ProcessingMap => 1,
        ArnisStage::GeneratingWorld => 2,
        ArnisStage::SavingWorld => 3,
    }
}

#[derive(Debug, Clone, PartialEq, Eq)]
pub enum ArnisEvent {
    Stage(ArnisStage),
    Log { stream: ArnisLogStream, line: String },
}

/// The progress marker `[k/7]` that Arnis prints.
pub open spec fn step_marker(k: char) -> Seq<char> {
    seq!['[', k, '/', '7', ']']
}

/// The coarse stage that an output line announces. Arnis's seven numbered steps
/// are collapsed: steps 1 to 3 prepare data, 4 processes the map, 5 and 6
/// generate the world, 7 saves it.
pub open spec fn line_stage(line: Seq<char>) -> Option<ArnisStage> {
    if has_infix(line, step_marker('1')) || has_infix(line, step_marker('2')) || has_infix(
        line,
        step_marker('3'),
    ) {
        Some(ArnisStage::PreparingData)
    } else if has_infix(line, step_marker('4')) {
        Some(ArnisStage::ProcessingMap)
    } else if has_infix(line, step_marker('5')) || has_infix(line, step_marker('6')) {
        Some(ArnisStage::GeneratingWorld)
    } else if has_infix(line, step_marker('7')) {
        Some(ArnisStage::SavingWorld)
    } else {
        None
    }
}

fn has_marker(line: &Vec<char>, k: char) -> (r: bool)
    ensures
        r == has_infix(line@, step_marker(k)),
{
    let marker = vec!['[', k, '/', '7', ']'];
    assert(marker@ =~= step_marker(k));
    contains_chars(line, &marker)
}

/// The coarse stage that an output line of Arnis announces, if any.
pub fn stage_for_line(line: &str) -> (r: Option<ArnisStage>)
    ensures
        r == line_stage(line@),
{
    let v = chars_of(line);
    if has_marker(&v, '1') || has_marker(&v, '2') || has_marker(&v, '3') {
        Some(ArnisStage::PreparingData)
    } else if has_marker(&v, '4') {
        Some(ArnisStage::ProcessingMap)
    } else if has_marker(&v, '5') || has_marker(&v, '6') {
        Some(ArnisStage::GeneratingWorld)
    } else if has_marker(&v, '7') {
        Some(ArnisStage::SavingWorld)
    } else {
        None
    }
}

/// `s` lies beyond the stage reached so far.
pub open spec fn advances(latest: Option<ArnisStage>, s: ArnisStage) -> bool {
    match latest {
        None => true,
        Some(c) => stage_rank(s) > stage_rank(c),
    }
}

/// The stage event that a line gives rise to after `latest`, if any.
pub open spec fn announced_stage(latest: Option<ArnisStage>, line: Seq<char>) -> Option<ArnisStage> {
    match line_stage(line) {
        Some(s) => if advances(latest, s) {
            Some(s)
        } else {
            None
        },
        None => None,
    }
}

/// The stage reached after a line.
pub open spec fn next_latest(latest: Option<ArnisStage>, line: Seq<char>) -> Option<ArnisStage> {
    match announced_stage(latest, line) {
        Some(s) => Some(s),
        None => latest,
    }
}

/// The stage events emitted for a sequence of output lines, starting after `latest`.
pub open spec fn emitted_stages(latest: Option<ArnisStage>, lines: Seq<Seq<char>>) -> Seq<
    ArnisStage,
>
    decreases lines.len(),
{
    if lines.len() == 0 {
        seq![]
    } else {
        let head = match announced_stage(latest, lines[0]) {
            Some(s) => seq![s],
            None => seq![],
        };
        head + emitted_stages(next_latest(latest, lines[0]), lines.drop_first())
    }
}

/// Over any sequence of output lines, the stage events come in strictly
/// increasing order of generation, each beyond the stage reached before: a
/// stage is never repeated and progress never goes back, even when Arnis prints
/// its numbered steps out of order.
pub proof fn emitted_stages_strictly_advance(latest: Option<ArnisStage>, lines: Seq<Seq<char>>)
    ensures
        forall|i: int, j: int|
            0 <= i < j < emitted_stages(latest, lines).len() ==> stage_rank(
                emitted_stages(latest, lines)[i],
            ) < stage_rank(emitted_stages(latest, lines)[j]),
        forall|i: int|
            0 <= i < emitted_stages(latest, lines).len() ==> advances(
                latest,
                #[trigger] emitted_stages(latest, lines)[i],
            ),
    decreases lines.len(),
{
    if lines.len() > 0 {
        let next = next_latest(latest, lines[0]);
        let rest = lines.drop_first();
        emitted_stages_strictly_advance(next, rest);
        let tail = emitted_stages(next, rest);
        let all = emitted_stages(latest, lines);
        match announced_stage(latest, lines[0]) {
            Some(s) => {
                assert(all =~= seq![s] + tail);
                assert forall|i: int| 0 <= i < tail.len() implies stage_rank(s) < stage_rank(
                    #[trigger] tail[i],
                ) by {
                    assert(advances(next, tail[i]));
                }
                assert forall|i: int| 0 <= i < all.len() implies advances(latest, #[trigger] all[i]) by {
                    if i > 0 {
                        assert(all[i] == tail[i - 1]);
                        assert(advances(next, tail[i - 1]));
                    }
                }
                assert forall|i: int, j: int|
                    0 <= i < j < all.len() implies stage_rank(all[i]) < stage_rank(all[j]) by {
                    if i == 0 {
                        assert(all[j] == tail[j - 1]);
                        assert(stage_rank(s) < stage_rank(tail[j - 1]));
                    } else {
                        assert(all[i] == tail[i - 1]);
                        assert(all[j] == tail[j - 1]);
                    }
                }
            },
            None => {
                assert(all =~= tail);
                assert(next == latest);
            },
        }
    }
}

// ---------------------------------------------------------------------------
// Errors
// ---------------------------------------------------------------------------

#[derive(Debug)]
pub enum ArnisError {
    Launch { executable: PathBuf, source: std::io::Error },
    NonZeroExit { code: Option<i32> },
    VersionProbeFailed { code: Option<i32> },
    EmptyVersion,
    Cancelled,
    PrepareOutput { output_dir: PathBuf, source: std::io::Error },
    MissingOutputPipe { stream: &'static str },
    Wait(std::io::Error),
    ReadOutput { stream: ArnisLogStream, source: std::io::Error },
    MissingWorld { output_dir: PathBuf },
}

// ---------------------------------------------------------------------------
// Run monitoring
// ---------------------------------------------------------------------------

/// What a pipe reader reports: a line of output, or a failure to read.
#[derive(Debug)]
pub enum PipeMessage {
    Line { stream: ArnisLogStream, line: String },
    ReadError { stream: ArnisLogStream, source: std::io::Error },
}

/// An event as plain values: the stage it reports, or the stream and text of
/// the line it logs.
pub open spec fn event_view(e: ArnisEvent) -> (Option<ArnisStage>, Option<(ArnisLogStream, Seq<char>)>) {
    match e {
        ArnisEvent::Stage(s) => (Some(s), None),
        ArnisEvent::Log { stream, line } => (None, Some((stream, line@))),
    }
}

/// The events of a sequence, as plain values.
pub open spec fn event_views(events: Seq<ArnisEvent>) -> Seq<
    (Option<ArnisStage>, Option<(ArnisLogStream, Seq<char>)>),
> {
    events.map_values(|e: ArnisEvent| event_view(e))
}

/// The events that one message gives rise to after the stage `latest`: for a
/// line, a stage event where it announces a stage beyond `latest`, then the
/// line itself; for a read failure, none.
pub open spec fn message_events(latest: Option<ArnisStage>, m: PipeMessage) -> Seq<
    (Option<ArnisStage>, Option<(ArnisLogStream, Seq<char>)>),
> {
    match m {
        PipeMessage::Line { stream, line } => match announced_stage(latest, line@) {
            Some(s) => seq![(Some(s), None), (None, Some((stream, line@)))],
            None => seq![(None, Some((stream, line@)))],
        },
        PipeMessage::ReadError { .. } => seq![],
    }
}

/// The stage reached after one message.
pub open spec fn message_latest(latest: Option<ArnisStage>, m: PipeMessage) -> Option<ArnisStage> {
    match m {
        PipeMessage::Line { line, .. } => next_latest(latest, line@),
        PipeMessage::ReadError { .. } => latest,
    }
}

/// The first read failure after one message.
pub open spec fn message_error(
    error: Option<(ArnisLogStream, std::io::Error)>,
    m: PipeMessage,
) -> Option<(ArnisLogStream, std::io::Error)> {
    match m {
        PipeMessage::Line { .. } => error,
        PipeMessage::ReadError { stream, source } => match error {
            Some(e) => Some(e),
            None => Some((stream, source)),
        },
    }
}

/// The stage reached after messages observed one after another.
pub open spec fn latest_after(latest: Option<ArnisStage>, msgs: Seq<PipeMessage>) -> Option<
    ArnisStage,
>
    decreases msgs.len(),
{
    if msgs.len() == 0 {
        latest
    } else {
        message_latest(latest_after(latest, msgs.drop_last()), msgs.last())
    }
}

/// The events of messages observed one after another, in order.
pub open spec fn events_after(latest: Option<ArnisStage>, msgs: Seq<PipeMessage>) -> Seq<
    (Option<ArnisStage>, Option<(ArnisLogStream, Seq<char>)>),
>
    decreases msgs.len(),
{
    if msgs.len() == 0 {
        seq![]
    } else {
        events_after(latest, msgs.drop_last()) + message_events(
            latest_after(latest, msgs.drop_last()),
            msgs.last(),
        )
    }
}

/// The first read failure after messages observed one after another.
pub open spec fn error_after(
    error: Option<(ArnisLogStream, std::io::Error)>,
    msgs: Seq<PipeMessage>,
) -> Option<(ArnisLogStream, std::io::Error)>
    decreases msgs.len(),
{
    if msgs.len() == 0 {
        error
    } else {
        message_error(error_after(error, msgs.drop_last()), msgs.last())
    }
}

/// The stage `now` is `latest` or lies beyond it.
pub open spec fn reached(latest: Option<ArnisStage>, now: Option<ArnisStage>) -> bool {
    now == latest || (now is Some && advances(latest, now.unwrap()))
}

proof fn lemma_observed_invariant(latest: Option<ArnisStage>, msgs: Seq<PipeMessage>)
    ensures
        forall|i: int, j: int|
            #![trigger events_after(latest, msgs)[i], events_after(latest, msgs)[j]]
            0 <= i < j < events_after(latest, msgs).len() && events_after(latest, msgs)[i].0 is Some
                && events_after(latest, msgs)[j].0 is Some ==> stage_rank(
                events_after(latest, msgs)[i].0.unwrap(),
            ) < stage_rank(events_after(latest, msgs)[j].0.unwrap()),
        forall|i: int|
            0 <= i < events_after(latest, msgs).len() && (#[trigger] events_after(latest, msgs)[i]).0 is Some
                ==> advances(latest, events_after(latest, msgs)[i].0.unwrap()) && latest_after(
                latest,
                msgs,
            ) is Some && stage_rank(events_after(latest, msgs)[i].0.unwrap()) <= stage_rank(
                latest_after(latest, msgs).unwrap(),
            ),
        reached(latest, latest_after(latest, msgs)),
    decreases msgs.len(),
{
    if msgs.len() > 0 {
        let prev_msgs = msgs.drop_last();
        lemma_observed_invariant(latest, prev_msgs);
        let prev = latest_after(latest, prev_msgs);
        let old_evs = events_after(latest, prev_msgs);
        let new_evs = message_events(prev, msgs.last());
        let evs = events_after(latest, msgs);
        assert(evs == old_evs + new_evs);
        let now = latest_after(latest, msgs);
        match msgs.last() {
            PipeMessage::Line { stream, line } => {
                match announced_stage(prev, line@) {
                    Some(s) => {
                        assert(now == Some(s));
                        assert(advances(prev, s));
                        assert(advances(latest, s));
                        assert forall|i: int|
                            0 <= i < evs.len() && (#[trigger] evs[i]).0 is Some implies advances(
                                latest,
                                evs[i].0.unwrap(),
                            ) && now is Some && stage_rank(evs[i].0.unwrap()) <= stage_rank(
                                now.unwrap(),
                            ) by {
                            if i < old_evs.len() {
                                assert(evs[i] == old_evs[i]);
                            } else {
                                assert(evs[i] == new_evs[i - old_evs.len()]);
                            }
                        }
                        assert forall|i: int, j: int|
                            #![trigger evs[i], evs[j]]
                            0 <= i < j < evs.len() && evs[i].0 is Some && evs[j].0 is Some implies stage_rank(
                                evs[i].0.unwrap(),
                            ) < stage_rank(evs[j].0.unwrap()) by {
                            if j < old_evs.len() {
                                assert(evs[i] == old_evs[i]);
                                assert(evs[j] == old_evs[j]);
                            } else {
                                assert(evs[j] == new_evs[j - old_evs.len()]);
                                assert(j == old_evs.len());
                                assert(evs[i] == old_evs[i]);
                            }
                        }
                    },
                    None => {
                        assert(now == prev);
                        assert forall|i: int|
                            0 <= i < evs.len() && (#[trigger] evs[i]).0 is Some implies advances(
                                latest,
                                evs[i].0.unwrap(),
                            ) && now is Some && stage_rank(evs[i].0.unwrap()) <= stage_rank(
                                now.unwrap(),
                            ) by {
                            if i < old_evs.len() {
                                assert(evs[i] == old_evs[i]);
                            } else {
                                assert(evs[i] == new_evs[i - old_evs.len()]);
                            }
                        }
                        assert forall|i: int, j: int|
                            #![trigger evs[i], evs[j]]
                            0 <= i < j < evs.len() && evs[i].0 is Some && evs[j].0 is Some implies stage_rank(
                                evs[i].0.unwrap(),
                            ) < stage_rank(evs[j].0.unwrap()) by {
                            if j < old_evs.len() {
                                assert(evs[i] == old_evs[i]);
                                assert(evs[j] == old_evs[j]);
                            } else {
                                assert(evs[j] == new_evs[j - old_evs.len()]);
                            }
                        }
                    },
                }
            },
            PipeMessage::ReadError { .. } => {
                assert(new_evs.len() == 0);
                assert(evs =~= old_evs);
                assert(now == prev);
            },
        }
    }
}

/// However the output of a run is cut into messages and observed, one message
/// after another: the stage events come in strictly increasing order of
/// generation, each beyond the stage reached before the first message; a stage
/// is never reported twice and progress never goes back.
pub proof fn observed_stages_strictly_advance(latest: Option<ArnisStage>, msgs: Seq<PipeMessage>)
    ensures
        forall|i: int, j: int|
            #![trigger events_after(latest, msgs)[i], events_after(latest, msgs)[j]]
            0 <= i < j < events_after(latest, msgs).len() && events_after(latest, msgs)[i].0 is Some
                && events_after(latest, msgs)[j].0 is Some ==> stage_rank(
                events_after(latest, msgs)[i].0.unwrap(),
            ) < stage_rank(events_after(latest, msgs)[j].0.unwrap()),
        forall|i: int|
            0 <= i < events_after(latest, msgs).len() && (#[trigger] events_after(latest, msgs)[i]).0 is Some
                ==> advances(latest, events_after(latest, msgs)[i].0.unwrap()),
{
    lemma_observed_invariant(latest, msgs);
}

/// Observing two batches of messages one after the other gives the events, the
/// stage and the read failure of observing them as one batch.
pub proof fn observing_in_batches_composes(
    latest: Option<ArnisStage>,
    error: Option<(ArnisLogStream, std::io::Error)>,
    a: Seq<PipeMessage>,
    b: Seq<PipeMessage>,
)
    ensures
        events_after(latest, a + b) == events_after(latest, a) + events_after(
            latest_after(latest, a),
            b,
        ),
        latest_after(latest, a + b) == latest_after(latest_after(latest, a), b),
        error_after(error, a + b) == error_after(error_after(error, a), b),
    decreases b.len(),
{
    if b.len() == 0 {
        assert(a + b =~= a);
    } else {
        observing_in_batches_composes(latest, error, a, b.drop_last());
        assert((a + b).drop_last() =~= a + b.drop_last());
        assert((a + b).last() == b.last());
        let mid = latest_after(latest, a);
        assert(events_after(latest, a + b) == events_after(latest, a + b.drop_last())
            + message_events(latest_after(latest, a + b.drop_last()), b.last()));
        assert(events_after(mid, b) == events_after(mid, b.drop_last()) + message_events(
            latest_after(mid, b.drop_last()),
            b.last(),
        ));
        assert(events_after(latest, a + b) =~= events_after(latest, a) + events_after(mid, b));
    }
}

/// The decisions of one Arnis run: which stage was reached, which events to
/// report, and the first read failure of the output pipes.
pub struct RunMonitor {
    latest_stage: Option<ArnisStage>,
    read_error: Option<(ArnisLogStream, std::io::Error)>,
}

impl RunMonitor {
    /// The stage reached so far.
    pub closed spec fn latest(&self) -> Option<ArnisStage> {
        self.latest_stage
    }

    /// The first read failure, with its stream, if one was reported.
    pub closed spec fn first_read_error(&self) -> Option<(ArnisLogStream, std::io::Error)> {
        self.read_error
    }

    pub fn new() -> (r: Self)
        ensures
            r.latest() is None,
            r.first_read_error() is None,
    {
        RunMonitor { latest_stage: None, read_error: None }
    }

    /// Takes one message of a pipe reader and returns the events it gives rise to.
    ///
    /// A line yields a stage event when it announces a stage beyond the one
    /// reached, then always a log event with the line. A read failure is kept if
    /// it is the first and yields no event.
    pub fn observe(&mut self, message: PipeMessage) -> (events: Vec<ArnisEvent>)
        ensures
            event_views(events@) == message_events(old(self).latest(), message),
            final(self).latest() == message_latest(old(self).latest(), message),
            final(self).first_read_error() == message_error(old(self).first_read_error(), message),
            match message {
                PipeMessage::Line { stream, line } => {
                    &&& final(self).latest() == next_latest(old(self).latest(), line@)
                    &&& final(self).first_read_error() == old(self).first_read_error()
                    &&& match announced_stage(old(self).latest(), line@) {
                        Some(s) => events@.len() == 2 && events@[0] == ArnisEvent::Stage(s)
                            && (events@[1] matches ArnisEvent::Log { stream: st, line: l }
                            && st == stream && l@ == line@),
                        None => events@.len() == 1 && (events@[0] matches ArnisEvent::Log {
                            stream: st,
                            line: l,
                        } && st == stream && l@ == line@),
                    }
                },
                PipeMessage::ReadError { stream, source } => {
                    &&& final(self).latest() == old(self).latest()
                    &&& final(self).first_read_error() == match old(self).first_read_error() {
                        Some(e) => Some(e),
                        None => Some((stream, source)),
                    }
                    &&& events@.len() == 0
                },
            },
    {
        let mut events: Vec<ArnisEvent> = Vec::new();
        match message {
            PipeMessage::Line { stream, line } => {
                if let Some(stage) = stage_for_line(line.as_str()) {
                    let emit = match self.latest_stage {
                        None => true,
                        Some(current) => stage_position(stage) > stage_position(current),
                    };
                    if emit {
                        self.latest_stage = Some(stage);
                        events.push(ArnisEvent::Stage(stage));
                    }
                }
                events.push(ArnisEvent::Log { stream, line });
            },
            PipeMessage::ReadError { stream, source } => {
                if self.read_error.is_none() {
                    self.read_error = Some((stream, source));
                }
            },
        }
        assert(event_views(events@) =~= message_events(old(self).latest(), message));
        events
    }

    /// Takes messages of the pipe readers in order and returns all the events
    /// they give rise to, as `observe` on each message one after another would.
    pub fn observe_all(&mut self, messages: VecDeque<PipeMessage>) -> (events: Vec<ArnisEvent>)
        ensures
            event_views(events@) == events_after(old(self).latest(), messages@),
            final(self).latest() == latest_after(old(self).latest(), messages@),
            final(self).first_read_error() == error_after(old(self).first_read_error(), messages@),
    {
        let ghost all = messages@;
        let ghost start = self.latest();
        let ghost start_error = self.first_read_error();
        let mut pending = messages;
        let mut events: Vec<ArnisEvent> = Vec::new();
        let ghost mut k: int = 0;
        proof {
            assert(all.take(0) =~= Seq::<PipeMessage>::empty());
            assert(event_views(events@) =~= events_after(start, all.take(0)));
            assert(all.subrange(0, all.len() as int) =~= all);
        }
        loop
            invariant
                0 <= k <= all.len(),
                pending@ == all.subrange(k, all.len() as int),
                self.latest() == latest_after(start, all.take(k)),
                self.first_read_error() == error_after(start_error, all.take(k)),
                event_views(events@) == events_after(start, all.take(k)),
            ensures
                k == all.len(),
                self.latest() == latest_after(start, all.take(k)),
                self.first_read_error() == error_after(start_error, all.take(k)),
                event_views(events@) == events_after(start, all.take(k)),
            decreases all.len() - k,
        {
            match pending.pop_front() {
                Some(message) => {
                    proof {
                        assert(all.take(k + 1).drop_last() =~= all.take(k));
                        assert(all.take(k + 1).last() == message);
                    }
                    let ghost before = events@;
                    let mut more = self.observe(message);
                    events.append(&mut more);
                    proof {
                        assert(event_views(events@) =~= event_views(before) + event_views(
                            events@.subrange(before.len() as int, events@.len() as int),
                        ));
                        k = k + 1;
                        assert(pending@ =~= all.subrange(k, all.len() as int));
                    }
                },
                None => {
                    break;
                },
            }
        }
        assert(all.take(all.len() as int) =~= all);
        events
    }

    /// The outcome of a run whose process exited: the first read failure if there
    /// was one, else a failure for an unsuccessful exit, else success.
    pub fn finish(self, exit_success: bool, exit_code: Option<i32>) -> (r: Result<(), ArnisError>)
        ensures
            self.first_read_error() matches Some((s, e)) ==> (r matches Err(
                ArnisError::ReadOutput { stream, source },
            ) && stream == s && source == e),
            self.first_read_error() is None && !exit_success ==> (r matches Err(
                ArnisError::NonZeroExit { code },
            ) && code == exit_code),
            self.first_read_error() is None && exit_success ==> r is Ok,
    {
        if let Some((stream, source)) = self.read_error {
            return Err(ArnisError::ReadOutput { stream, source });
        }
        check_exit_status(exit_success, exit_code)
    }
}

/// The outcome of an Arnis process by its exit status.
pub fn check_exit_status(success: bool, code: Option<i32>) -> (r: Result<(), ArnisError>)
    ensures
        success ==> r is Ok,
        !success ==> (r matches Err(ArnisError::NonZeroExit { code: c }) && c == code),
{
    if !success {
        return Err(ArnisError::NonZeroExit { code });
    }
    Ok(())
}

/// The version text of an Arnis `--version` probe: the trimmed standard output,
/// or the trimmed error output where standard output is blank.
pub open spec fn probe_version_text(stdout: Seq<char>, stderr: Seq<char>) -> Seq<char> {
    if trim(stdout).len() == 0 {
        trim(stderr)
    } else {
        trim(stdout)
    }
}

/// Reads the outcome of `arnis --version`.
///
/// Fails with `VersionProbeFailed` when the probe exited unsuccessfully, with
/// `EmptyVersion` when both outputs are blank, and gives the version text otherwise.
pub fn interpret_version_probe(success: bool, code: Option<i32>, stdout: &str, stderr: &str) -> (r:
    Result<String, ArnisError>)
    ensures
        !success ==> (r matches Err(ArnisError::VersionProbeFailed { code: c }) && c == code),
        success && probe_version_text(stdout@, stderr@).len() == 0 ==> (r matches Err(
            ArnisError::EmptyVersion,
        )),
        success && probe_version_text(stdout@, stderr@).len() > 0 ==> (r matches Ok(v) && v@
            == probe_version_text(stdout@, stderr@)),
{
    if !success {
        return Err(ArnisError::VersionProbeFailed { code });
    }
    let out = trim_str(stdout);
    let err = trim_str(stderr);
    let version = if out.len() == 0 {
        err
    } else {
        out
    };
    if version.len() == 0 {
        return Err(ArnisError::EmptyVersion);
    }
    Ok(string_of(&version))
}

// ---------------------------------------------------------------------------
// Command plan
// ---------------------------------------------------------------------------

/// The decimal texts of a WGS-84 bounding box, as the generator receives them.
#[derive(Debug, Clone, PartialEq, Eq)]
pub struct BoundingBoxText {
    pub min_longitude: String,
    pub min_latitude: String,
    pub max_longitude: String,
    pub max_latitude: String,
}

/// Arnis's `--bbox` value: `min_lat,min_lon,max_lat,max_lon`.
pub open spec fn bbox_arg(b: BoundingBoxText) -> Seq<char> {
    b.min_latitude@ + ","@ + b.min_longitude@ + ","@ + b.max_latitude@ + ","@ + b.max_longitude@
}

/// One argument of an Arnis command: a text, or a file-system path handed over
/// as it is, whatever bytes it holds.
#[derive(Debug, PartialEq, Eq)]
pub enum PlanArg {
    Text(String),
    Path(PathBuf),
}

/// `a` is the text argument `t`.
pub open spec fn text_arg(a: PlanArg, t: Seq<char>) -> bool {
    a matches PlanArg::Text(s) && s@ == t
}

/// The arguments of an Arnis run that writes into `output_dir` the area `bbox`
/// at `scale` blocks per meter, in geo-terrain mode.
pub open spec fn is_plan(args: Seq<PlanArg>, output_dir: PathBuf, bbox: BoundingBoxText, scale: Seq<
    char,
>) -> bool {
    &&& args.len() == 8
    &&& text_arg(args[0], "--output-dir"@)
    &&& args[1] == PlanArg::Path(output_dir)
    &&& text_arg(args[2], "--bbox"@)
    &&& text_arg(args[3], bbox_arg(bbox))
    &&& text_arg(args[4], "--scale"@)
    &&& text_arg(args[5], scale)
    &&& text_arg(args[6], "--mode"@)
    &&& text_arg(args[7], "geo-terrain"@)
}

/// The text that `Path::to_string_lossy` gives for a path: its bytes read as
/// UTF-8, each invalid sequence written as U+FFFD.
pub uninterp spec fn lossy_path_text(path: PathBuf) -> Seq<char>;

/// Whether the bytes of a path are exactly the UTF-8 bytes of a text, as
/// `OsStr == str` answers.
pub uninterp spec fn path_equals_text(path: PathBuf, text: Seq<char>) -> bool;

/// The text of a path with `Path::to_string_lossy`, owned.
#[verifier::external_body]
fn path_text(path: &PathBuf) -> (r: String)
    ensures
        r@ == lossy_path_text(*path),
{
    path.to_string_lossy().into_owned()
}

/// Compares the bytes of a path with those of a text (`OsStr == str`).
#[verifier::external_body]
fn path_is_text(path: &PathBuf, text: &str) -> (r: bool)
    ensures
        r == path_equals_text(*path, text@),
{
    path.as_os_str() == text
}

/// The text of an argument: a text as it is, a path as `to_string_lossy` writes it.
pub open spec fn arg_text(a: PlanArg) -> Seq<char> {
    match a {
        PlanArg::Text(s) => s@,
        PlanArg::Path(p) => lossy_path_text(p),
    }
}

/// An argument is `t`: a text equal to it, or a path whose bytes are those of `t`.
pub open spec fn arg_is(a: PlanArg, t: Seq<char>) -> bool {
    match a {
        PlanArg::Text(s) => s@ == t,
        PlanArg::Path(p) => path_equals_text(p, t),
    }
}

#[derive(Debug, PartialEq, Eq)]
pub struct ArnisAdapter {
    executable: PathBuf,
}

#[derive(Debug, PartialEq, Eq)]
pub struct ArnisCommandPlan {
    executable: PathBuf,
    args: Vec<PlanArg>,
}

impl ArnisAdapter {
    pub closed spec fn program(&self) -> PathBuf {
        self.executable
    }

    pub fn new(executable: PathBuf) -> (r: Self)
        ensures
            r.program() == executable,
    {
        ArnisAdapter { executable }
    }

    pub fn executable(&self) -> (r: &PathBuf)
        ensures
            *r == self.program(),
    {
        &self.executable
    }

    /// The command of a run that writes into `output_dir` the area `bbox` at
    /// `scale` blocks per meter, in Arnis's geo-terrain mode. The output
    /// directory is passed as the path itself. Nothing else is passed: no
    /// Minecraft version and no polygon.
    pub fn plan(&self, output_dir: &PathBuf, bbox: &BoundingBoxText, scale: &str) -> (r:
        ArnisCommandPlan)
        ensures
            r.program() == self.program(),
            is_plan(r.arguments(), *output_dir, *bbox, scale@),
    {
        let mut b = chars_of(bbox.min_latitude.as_str());
        b = concat_chars(&b, &chars_of(","));
        b = concat_chars(&b, &chars_of(bbox.min_longitude.as_str()));
        b = concat_chars(&b, &chars_of(","));
        b = concat_chars(&b, &chars_of(bbox.max_latitude.as_str()));
        b = concat_chars(&b, &chars_of(","));
        b = concat_chars(&b, &chars_of(bbox.max_longitude.as_str()));
        let mut args: Vec<PlanArg> = Vec::new();
        args.push(PlanArg::Text(string_of(&chars_of("--output-dir"))));
        args.push(PlanArg::Path(clone_path(output_dir)));
        args.push(PlanArg::Text(string_of(&chars_of("--bbox"))));
        args.push(PlanArg::Text(string_of(&b)));
        args.push(PlanArg::Text(string_of(&chars_of("--scale"))));
        args.push(PlanArg::Text(string_of(&chars_of(scale))));
        args.push(PlanArg::Text(string_of(&chars_of("--mode"))));
        args.push(PlanArg::Text(string_of(&chars_of("geo-terrain"))));
        assert(b@ =~= bbox_arg(*bbox));
        ArnisCommandPlan { executable: clone_path(&self.executable), args }
    }
}

impl ArnisCommandPlan {
    pub closed spec fn program(&self) -> PathBuf {
        self.executable
    }

    pub closed spec fn arguments(&self) -> Seq<PlanArg> {
        self.args@
    }

    pub fn executable(&self) -> (r: &PathBuf)
        ensures
            *r == self.program(),
    {
        &self.executable
    }

    pub fn args(&self) -> (r: &Vec<PlanArg>)
        ensures
            r@ == self.arguments(),
    {
        &self.args
    }

    /// The arguments as owned strings; a path argument is written as its
    /// `to_string_lossy` text.
    pub fn arg_strings(&self) -> (r: Vec<String>)
        ensures
            r@.len() == self.arguments().len(),
            forall|k: int| 0 <= k < r@.len() ==> (#[trigger] r@[k])@ == arg_text(self.arguments()[k]),
    {
        let mut out: Vec<String> = Vec::new();
        let mut i: usize = 0;
        while i < self.args.len()
            invariant
                0 <= i <= self.args@.len(),
                out@.len() == i,
                forall|j: int| 0 <= j < i ==> (#[trigger] out@[j])@ == arg_text(self.args@[j]),
            decreases self.args.len() - i,
        {
            let text = match &self.args[i] {
                PlanArg::Text(s) => string_of(&chars_of(s.as_str())),
                PlanArg::Path(p) => path_text(p),
            };
            out.push(text);
            i = i + 1;
        }
        out
    }

    /// Whether `arg` is one of the arguments: a text argument equal to it, or a
    /// path argument whose bytes are those of `arg`.
    pub fn contains_arg(&self, arg: &str) -> (r: bool)
        ensures
            r == exists|k: int| 0 <= k < self.arguments().len() && arg_is(self.arguments()[k], arg@),
    {
        let wanted = chars_of(arg);
        let mut i: usize = 0;
        while i < self.args.len()
            invariant
                0 <= i <= self.args@.len(),
                wanted@ == arg@,
                forall|k: int| 0 <= k < i ==> !arg_is(#[trigger] self.args@[k], arg@),
            decreases self.args.len() - i,
        {
            let found = match &self.args[i] {
                PlanArg::Text(s) => chars_equal(&chars_of(s.as_str()), &wanted),
                PlanArg::Path(p) => path_is_text(p, arg),
            };
            if found {
                assert(self.arguments()[i as int] == self.args@[i as int]);
                assert(arg_is(self.arguments()[i as int], arg@));
                return true;
            }
            i = i + 1;
        }
        proof {
            if exists|k: int| 0 <= k < self.arguments().len() && arg_is(self.arguments()[k], arg@) {
                let k = choose|k: int|
                    0 <= k < self.arguments().len() && arg_is(self.arguments()[k], arg@);
                assert(!arg_is(self.args@[k], arg@));
            }
        }
        false
    }
}

} // verus!
