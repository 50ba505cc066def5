//! A run over the tracks of a collection, one track after the other. The run
//! decides; its caller acts. Each step hands out the lines to print and the
//! action to perform, and takes what the action gave as the next event.

use vstd::prelude::*;
use vstd::string::StringExecFns;
use crate::lyrics::{
    is_success, query_url, query_url_of, select_lyrics, selected, success, LyricsResponse,
    LyricsResponseView,
};
use crate::tags::{decode_name, decoded, get_track_tags, track_tags, RawTags, RawTagsView};
use crate::text::{decimal_of, push_decimal};
use crate::tracks::{
    collected, law_no_track_collects_nothing, output_path, output_path_of, track_entry,
    EntryView,
};

verus! {

/// The tally of a run: the tracks it went over, those whose lyrics were
/// written, and those for which none were found.
#[derive(Clone, Copy, Debug, PartialEq, Eq, Structural)]
pub struct RunSummary {
    pub total: usize,
    pub found: usize,
    pub fail: usize,
}

/// What a run waits for.
#[derive(Clone, Copy, Debug, PartialEq, Eq, Structural)]
pub enum Phase {
    /// Whether the lyrics of the track in hand are already there.
    Checking,
    /// The tags of the track in hand.
    ReadingTags,
    /// The status that the service answers the lookup with.
    Asking,
    /// The record in the service's answer.
    Decoding,
    /// The lyrics to be written.
    Writing,
    /// Nothing: all tracks are done.
    Finished,
}

/// What the caller reports back to the run.
#[derive(Clone, Debug, PartialEq, Eq)]
pub enum Event {
    /// Whether a file stands at the output path.
    OutputExists(bool),
    /// The tags of the track were read.
    Tags(RawTags),
    /// The service could not be reached.
    Unreachable,
    /// The service answered with this status.
    Status(u16),
    /// The answer held this record.
    Body(LyricsResponse),
    /// The lyrics were written.
    Written,
}

pub ghost enum EventView {
    OutputExists(bool),
    Tags(RawTagsView),
    Unreachable,
    Status(u16),
    Body(LyricsResponseView),
    Written,
}

impl View for Event {
    type V = EventView;

    open spec fn view(&self) -> EventView {
        match self {
            Event::OutputExists(exists) => EventView::OutputExists(*exists),
            Event::Tags(raw) => EventView::Tags(raw@),
            Event::Unreachable => EventView::Unreachable,
            Event::Status(status) => EventView::Status(*status),
            Event::Body(response) => EventView::Body(response@),
            Event::Written => EventView::Written,
        }
    }
}

/// What the run asks its caller to do next.
#[derive(Clone, Debug, PartialEq, Eq)]
pub enum Action {
    /// Look whether a file stands at `output`.
    CheckOutput { output: String },
    /// Read the tags of the file at `path`.
    ReadTags { path: String },
    /// Send a lookup to `url`.
    Fetch { url: String },
    /// Read the record from the answer.
    Decode,
    /// Write `lyrics`, and nothing else, to the file at `output`.
    Write { output: String, lyrics: String },
    /// Stop: the run is over.
    Finish { summary: RunSummary },
}

pub ghost enum ActionView {
    CheckOutput { output: Seq<char> },
    ReadTags { path: Seq<char> },
    Fetch { url: Seq<char> },
    Decode,
    Write { output: Seq<char>, lyrics: Seq<char> },
    Finish { summary: RunSummary },
}

impl View for Action {
    type V = ActionView;

    open spec fn view(&self) -> ActionView {
        match self {
            Action::CheckOutput { output } => ActionView::CheckOutput { output: output@ },
            Action::ReadTags { path } => ActionView::ReadTags { path: path@ },
            Action::Fetch { url } => ActionView::Fetch { url: url@ },
            Action::Decode => ActionView::Decode,
            Action::Write { output, lyrics } => ActionView::Write {
                output: output@,
                lyrics: lyrics@,
            },
            Action::Finish { summary } => ActionView::Finish { summary: *summary },
        }
    }
}

/// One step of a run: the lines to print, then the action to perform.
#[derive(Clone, Debug, PartialEq, Eq)]
pub struct Step {
    pub lines: Vec<String>,
    pub action: Action,
}

pub ghost struct StepView {
    pub lines: Seq<Seq<char>>,
    pub action: ActionView,
}

impl View for Step {
    type V = StepView;

    open spec fn view(&self) -> StepView {
        StepView { lines: self.lines.deep_view(), action: self.action@ }
    }
}

/// The line for a track whose lyrics are already there.
pub open spec fn exists_line(path: Seq<char>) -> Seq<char> {
    "Lyrics for "@ + path + " already exist."@
}

/// The line for a track without lyrics.
pub open spec fn missing_line(path: Seq<char>) -> Seq<char> {
    "No Lyrics Found for "@ + path
}

/// The line for a record that the service had, with the title as it is shown.
pub open spec fn found_line(title: Seq<char>) -> Seq<char> {
    "Found Lyrics for the song: "@ + decoded(title)
}

/// The line for lyrics that were written.
pub open spec fn written_line(output: Seq<char>) -> Seq<char> {
    "successfully wrote to "@ + output
}

/// The lines that close a run.
pub open spec fn summary_lines(summary: RunSummary) -> Seq<Seq<char>> {
    seq![
        "-----------------------"@,
        "Total tracks processed: "@ + decimal_of(summary.total as nat),
        "Total tracks with lyrics found: "@ + decimal_of(summary.found as nat),
        "Total tracks with lyrics missing: "@ + decimal_of(summary.fail as nat),
    ]
}

/// `front` and then `name`.
fn line_of(front: &str, name: &str) -> (line: String)
    ensures
        line@ == front@ + name@,
{
    let mut line = String::from_str(front);
    line.append(name);
    line
}

/// `front` and then `n` in decimal.
fn count_line(front: &str, n: usize) -> (line: String)
    ensures
        line@ == front@ + decimal_of(n as nat),
{
    let mut line = String::from_str(front);
    push_decimal(&mut line, n);
    line
}

/// No lines.
fn no_lines() -> (lines: Vec<String>)
    ensures
        lines.deep_view() == Seq::<Seq<char>>::empty(),
{
    let lines: Vec<String> = Vec::new();
    lines
}

/// The one line `line`.
fn one_line(line: String) -> (lines: Vec<String>)
    ensures
        lines.deep_view() == seq![line@],
{
    let mut lines: Vec<String> = Vec::new();
    lines.push(line);
    lines
}

impl RunSummary {
    /// Whether the tally can be that of a run: no more tracks are counted as
    /// found or failed than the run went over.
    pub open spec fn wf(self) -> bool {
        self.found + self.fail <= self.total
    }

    /// The tracks that were neither found nor failed: once the run is over,
    /// those that were passed over because their lyrics were there.
    pub open spec fn skipped(self) -> int {
        self.total - self.found - self.fail
    }

    /// The lines that close a run.
    pub fn lines(&self) -> (lines: Vec<String>)
        ensures
            lines.deep_view() == summary_lines(*self),
    {
        let mut lines: Vec<String> = Vec::new();
        lines.push(String::from_str("-----------------------"));
        lines.push(count_line("Total tracks processed: ", self.total));
        lines.push(count_line("Total tracks with lyrics found: ", self.found));
        lines.push(count_line("Total tracks with lyrics missing: ", self.fail));
        lines
    }
}

/// A run as contracts see it.
pub ghost struct RunView {
    /// The paths of the tracks, in the order in which the run takes them.
    pub tracks: Seq<Seq<char>>,
    /// How many tracks are done; below the number of tracks, the index of the
    /// track in hand.
    pub position: int,
    pub phase: Phase,
    pub summary: RunSummary,
    /// The encoded title of the track in hand, once its tags were read.
    pub title: Seq<char>,
}

impl RunView {
    /// What holds of every run: the tally counts all tracks as its total and
    /// no more found and failed ones than are done, and the run is finished
    /// when all tracks are done and not before.
    pub open spec fn wf(self) -> bool {
        &&& 0 <= self.position <= self.tracks.len()
        &&& self.summary.total == self.tracks.len()
        &&& self.summary.found + self.summary.fail <= self.position
        &&& (self.phase == Phase::Finished) == (self.position == self.tracks.len())
    }

    /// The path of the track in hand.
    pub open spec fn path(self) -> Seq<char>
        recommends
            0 <= self.position < self.tracks.len(),
    {
        self.tracks[self.position]
    }
}

/// Whether `event` is what a run in `phase` waits for.
pub open spec fn answers(phase: Phase, event: EventView) -> bool {
    match event {
        EventView::OutputExists(_) => phase == Phase::Checking,
        EventView::Tags(_) => phase == Phase::ReadingTags,
        EventView::Unreachable => phase == Phase::Asking,
        EventView::Status(_) => phase == Phase::Asking,
        EventView::Body(_) => phase == Phase::Decoding,
        EventView::Written => phase == Phase::Writing,
    }
}

/// The tally with one more track found.
pub open spec fn with_found(summary: RunSummary) -> RunSummary {
    RunSummary { found: (summary.found + 1) as usize, ..summary }
}

/// The tally with one more track failed.
pub open spec fn with_fail(summary: RunSummary) -> RunSummary {
    RunSummary { fail: (summary.fail + 1) as usize, ..summary }
}

/// The run with the track at `position` in hand, or finished where there is
/// none, and the step that says so after `lines`.
pub open spec fn turned_to(
    tracks: Seq<Seq<char>>,
    position: int,
    summary: RunSummary,
    lines: Seq<Seq<char>>,
) -> (RunView, StepView) {
    if position < tracks.len() {
        (
            RunView { tracks, position, phase: Phase::Checking, summary, title: Seq::empty() },
            StepView {
                lines,
                action: ActionView::CheckOutput { output: output_path_of(tracks[position]) },
            },
        )
    } else {
        (
            RunView { tracks, position, phase: Phase::Finished, summary, title: Seq::empty() },
            StepView {
                lines: lines + summary_lines(summary),
                action: ActionView::Finish { summary },
            },
        )
    }
}

/// How a run over `tracks` starts.
pub open spec fn start_of(tracks: Seq<Seq<char>>) -> (RunView, StepView) {
    turned_to(
        tracks,
        0,
        RunSummary { total: tracks.len() as usize, found: 0, fail: 0 },
        Seq::empty(),
    )
}

/// The track in hand is done, with the tally `summary`: the run turns to the
/// next one.
pub open spec fn advanced(run: RunView, summary: RunSummary, lines: Seq<Seq<char>>) -> (
    RunView,
    StepView,
) {
    turned_to(run.tracks, run.position + 1, summary, lines)
}

/// What a run does with an event that it waits for.
pub open spec fn step_of(run: RunView, event: EventView) -> (RunView, StepView)
    recommends
        run.wf(),
        answers(run.phase, event),
{
    let path = run.path();
    match event {
        EventView::OutputExists(exists) => if exists {
            advanced(run, run.summary, seq![exists_line(path)])
        } else {
            (
                RunView { phase: Phase::ReadingTags, ..run },
                StepView { lines: seq![path], action: ActionView::ReadTags { path } },
            )
        },
        EventView::Tags(raw) => (
            RunView { phase: Phase::Asking, title: track_tags(raw).title, ..run },
            StepView {
                lines: Seq::empty(),
                action: ActionView::Fetch { url: query_url_of(track_tags(raw)) },
            },
        ),
        EventView::Unreachable => advanced(run, with_fail(run.summary), seq![missing_line(path)]),
        EventView::Status(status) => if success(status) {
            (
                RunView { phase: Phase::Decoding, ..run },
                StepView { lines: Seq::empty(), action: ActionView::Decode },
            )
        } else {
            advanced(run, with_fail(run.summary), seq![missing_line(path)])
        },
        EventView::Body(response) => if selected(response).len() == 0 {
            advanced(
                run,
                with_fail(run.summary),
                seq![found_line(run.title), missing_line(path)],
            )
        } else {
            (
                RunView { phase: Phase::Writing, ..run },
                StepView {
                    lines: seq![found_line(run.title)],
                    action: ActionView::Write {
                        output: output_path_of(path),
                        lyrics: selected(response),
                    },
                },
            )
        },
        EventView::Written => advanced(
            run,
            with_found(run.summary),
            seq![written_line(output_path_of(path))],
        ),
    }
}

/// The run after `events` were handed to it one by one. An event that the
/// run does not wait for changes nothing.
pub open spec fn run_after(run: RunView, events: Seq<EventView>) -> RunView
    decreases events.len(),
{
    if events.len() == 0 {
        run
    } else {
        let before = run_after(run, events.drop_last());
        if answers(before.phase, events.last()) {
            step_of(before, events.last()).0
        } else {
            before
        }
    }
}

/// A run over the tracks of a collection.
pub struct Run {
    tracks: Vec<String>,
    position: usize,
    phase: Phase,
    summary: RunSummary,
    title: String,
}

impl View for Run {
    type V = RunView;

    closed spec fn view(&self) -> RunView {
        RunView {
            tracks: self.tracks.deep_view(),
            position: self.position as int,
            phase: self.phase,
            summary: self.summary,
            title: self.title@,
        }
    }
}

impl Run {
    #[verifier::type_invariant]
    spec fn inv(self) -> bool {
        self@.wf()
    }

    /// Turns to the track at `position`, or finishes.
    fn turn_to(
        tracks: Vec<String>,
        position: usize,
        summary: RunSummary,
        lines: Vec<String>,
    ) -> (out: (Run, Step))
        requires
            position <= tracks.len(),
            summary.total == tracks.len(),
            summary.found + summary.fail <= position,
        ensures
            out.0@.wf(),
            (out.0@, out.1@) == turned_to(
                tracks.deep_view(),
                position as int,
                summary,
                lines.deep_view(),
            ),
    {
        if position < tracks.len() {
            let output = output_path(tracks[position].as_str());
            let title = String::new();
            let run = Run { tracks, position, phase: Phase::Checking, summary, title };
            (run, Step { lines, action: Action::CheckOutput { output } })
        } else {
            let mut lines = lines;
            let ghost before = lines.deep_view();
            let mut closing = summary.lines();
            let ghost added = closing.deep_view();
            lines.append(&mut closing);
            assert(lines.deep_view() =~= before + added);
            let title = String::new();
            let run = Run { tracks, position, phase: Phase::Finished, summary, title };
            (run, Step { lines, action: Action::Finish { summary } })
        }
    }

    /// Starts a run over `tracks`.
    pub fn new(tracks: Vec<String>) -> (out: (Run, Step))
        ensures
            out.0@.wf(),
            (out.0@, out.1@) == start_of(tracks.deep_view()),
    {
        let summary = RunSummary { total: tracks.len(), found: 0, fail: 0 };
        Run::turn_to(tracks, 0, summary, no_lines())
    }

    /// Whether `event` is what the run waits for.
    pub fn expects(&self, event: &Event) -> (yes: bool)
        ensures
            yes == answers(self@.phase, event@),
    {
        match event {
            Event::OutputExists(_) => self.phase == Phase::Checking,
            Event::Tags(_) => self.phase == Phase::ReadingTags,
            Event::Unreachable => self.phase == Phase::Asking,
            Event::Status(_) => self.phase == Phase::Asking,
            Event::Body(_) => self.phase == Phase::Decoding,
            Event::Written => self.phase == Phase::Writing,
        }
    }

    /// Takes what the last action gave and says what to do next. An event that
    /// the run does not wait for changes nothing and gets no step.
    pub fn step(self, event: Event) -> (out: (Run, Option<Step>))
        ensures
            out.0@.wf(),
            answers(self@.phase, event@) ==> out.1 is Some && (out.0@, out.1->0@) == step_of(
                self@,
                event@,
            ),
            !answers(self@.phase, event@) ==> out.1 is None && out.0@ == self@,
    {
        proof {
            use_type_invariant(&self);
        }
        if !self.expects(&event) {
            return (self, None);
        }
        let ghost old_view = self@;
        let Run { tracks, position, phase: _, summary, title } = self;
        match event {
            Event::OutputExists(exists) => {
                if exists {
                    let line = line_of("Lyrics for ", tracks[position].as_str());
                    let line = line.concat(" already exist.");
                    let (run, step) = Run::turn_to(tracks, position + 1, summary, one_line(line));
                    (run, Some(step))
                } else {
                    let path = tracks[position].clone();
                    let line = path.clone();
                    let run = Run { tracks, position, phase: Phase::ReadingTags, summary, title };
                    (run, Some(Step { lines: one_line(line), action: Action::ReadTags { path } }))
                }
            },
            Event::Tags(raw) => {
                let tags = get_track_tags(&raw);
                let url = query_url(&tags);
                let title = tags.title;
                let run = Run { tracks, position, phase: Phase::Asking, summary, title };
                (run, Some(Step { lines: no_lines(), action: Action::Fetch { url } }))
            },
            Event::Unreachable => {
                let (run, step) = Run::fail(tracks, position, summary, no_lines());
                (run, Some(step))
            },
            Event::Status(status) => {
                if is_success(status) {
                    let run = Run { tracks, position, phase: Phase::Decoding, summary, title };
                    (run, Some(Step { lines: no_lines(), action: Action::Decode }))
                } else {
                    let (run, step) = Run::fail(tracks, position, summary, no_lines());
                    (run, Some(step))
                }
            },
            Event::Body(response) => {
                let shown = decode_name(title.as_str());
                let found = line_of("Found Lyrics for the song: ", shown.as_str());
                let lyrics = select_lyrics(response);
                if lyrics.as_str().is_empty() {
                    let (run, step) = Run::fail(tracks, position, summary, one_line(found));
                    assert(seq![found_line(old_view.title)].push(missing_line(old_view.path()))
                        =~= seq![found_line(old_view.title), missing_line(old_view.path())]);
                    (run, Some(step))
                } else {
                    let output = output_path(tracks[position].as_str());
                    let run = Run { tracks, position, phase: Phase::Writing, summary, title };
                    let action = Action::Write { output, lyrics };
                    (run, Some(Step { lines: one_line(found), action }))
                }
            },
            Event::Written => {
                let output = output_path(tracks[position].as_str());
                let line = line_of("successfully wrote to ", output.as_str());
                let summary = RunSummary { found: summary.found + 1, ..summary };
                let (run, step) = Run::turn_to(tracks, position + 1, summary, one_line(line));
                (run, Some(step))
            },
        }
    }

    /// Counts the track in hand as failed, says so after `lines`, and turns to
    /// the next.
    fn fail(
        tracks: Vec<String>,
        position: usize,
        summary: RunSummary,
        lines: Vec<String>,
    ) -> (out: (Run, Step))
        requires
            position < tracks.len(),
            summary.total == tracks.len(),
            summary.found + summary.fail <= position,
        ensures
            out.0@.wf(),
            (out.0@, out.1@) == turned_to(
                tracks.deep_view(),
                position + 1,
                with_fail(summary),
                lines.deep_view().push(missing_line(tracks[position as int]@)),
            ),
    {
        let mut lines = lines;
        let ghost before = lines.deep_view();
        let line = line_of("No Lyrics Found for ", tracks[position].as_str());
        lines.push(line);
        assert(lines.deep_view() =~= before.push(missing_line(tracks[position as int]@)));
        let summary = RunSummary { fail: summary.fail + 1, ..summary };
        Run::turn_to(tracks, position + 1, summary, lines)
    }

    /// What the run waits for.
    pub fn phase(&self) -> (phase: Phase)
        ensures
            phase == self@.phase,
            self@.wf(),
    {
        proof {
            use_type_invariant(self);
        }
        self.phase
    }

    /// The tally so far.
    pub fn summary(&self) -> (summary: RunSummary)
        ensures
            summary == self@.summary,
            summary.wf(),
            self@.wf(),
    {
        proof {
            use_type_invariant(self);
        }
        self.summary
    }
}

/// A step leaves a run well formed.
pub proof fn law_step_keeps_wf(run: RunView, event: EventView)
    requires
        run.wf(),
        answers(run.phase, event),
    ensures
        step_of(run, event).0.wf(),
        step_of(run, event).0.tracks == run.tracks,
        step_of(run, event).0.position == run.position || step_of(run, event).0.position
            == run.position + 1,
{
}

/// A run is over exactly when its step says to finish, and the tally it then
/// hands out is the run's own, with every track found, failed or passed over.
pub proof fn law_finish_hands_out_tally(run: RunView, event: EventView)
    requires
        run.wf(),
        answers(run.phase, event),
    ensures
        step_of(run, event).0.phase == Phase::Finished <==> step_of(run, event).1.action
            is Finish,
        step_of(run, event).1.action is Finish ==> {
            let summary = step_of(run, event).1.action->Finish_summary;
            &&& summary == step_of(run, event).0.summary
            &&& summary.total == run.tracks.len()
            &&& summary.total == summary.found + summary.fail + summary.skipped()
            &&& summary.skipped() >= 0
        },
{
}

/// Each track is counted once: a step that is done with the track in hand
/// counts it as found where its lyrics were written, as failed where none
/// were found, and as neither where they were already there; any other step
/// leaves the tally as it was.
pub proof fn law_each_track_counts_once(run: RunView, event: EventView)
    requires
        run.wf(),
        answers(run.phase, event),
    ensures
        ({
            let next = step_of(run, event).0;
            let done = next.position == run.position + 1;
            let found = next.summary.found - run.summary.found;
            let fail = next.summary.fail - run.summary.fail;
            &&& next.summary.total == run.summary.total
            &&& !done ==> found == 0 && fail == 0
            &&& done && event is Written ==> found == 1 && fail == 0
            &&& done && event is OutputExists ==> found == 0 && fail == 0
            &&& done && !(event is Written) && !(event is OutputExists) ==> found == 0 && fail
                == 1
        }),
{
}

/// Lyrics are only written for the track in hand, to its output path, when
/// the service's record held some: the step that asks for it answers a record
/// with lyrics that are not empty, and hands out exactly those.
pub proof fn law_write_follows_record(run: RunView, event: EventView)
    requires
        run.wf(),
        answers(run.phase, event),
        step_of(run, event).1.action is Write,
    ensures
        run.phase == Phase::Decoding,
        event is Body,
        selected(event->Body_0).len() > 0,
        step_of(run, event).1.action == (ActionView::Write {
            output: output_path_of(run.path()),
            lyrics: selected(event->Body_0),
        }),
        step_of(run, event).0.phase == Phase::Writing,
        step_of(run, event).0.position == run.position,
{
}

/// A record with lyrics has exactly them written: the synced ones where the
/// record has them, else the plain ones.
pub proof fn law_record_with_lyrics_is_written(run: RunView, response: LyricsResponseView)
    requires
        run.wf(),
        run.phase == Phase::Decoding,
        selected(response).len() > 0,
    ensures
        step_of(run, EventView::Body(response)).1.action == (ActionView::Write {
            output: output_path_of(run.path()),
            lyrics: match response.synced_lyrics {
                Some(synced) => synced,
                None => response.plain_lyrics->0,
            },
        }),
        step_of(run, EventView::Body(response)).0.summary == run.summary,
{
}

/// A walk that met no track gives a run that is over at once, with a tally of
/// zero tracks, none found and none failed.
pub proof fn law_no_track_no_tally(entries: Seq<EntryView>)
    requires
        forall|i: int| 0 <= i < entries.len() ==> !track_entry(#[trigger] entries[i]),
    ensures
        start_of(collected(entries)).0.phase == Phase::Finished,
        start_of(collected(entries)).0.summary == (RunSummary { total: 0, found: 0, fail: 0 }),
        start_of(collected(entries)).1.action == (ActionView::Finish {
            summary: RunSummary { total: 0, found: 0, fail: 0 },
        }),
{
    law_no_track_collects_nothing(entries);
}

/// A track whose lyrics are already there is passed over: it is counted
/// neither as found nor as failed, the run turns to the next track, and
/// nothing is asked to be written.
pub proof fn law_existing_lyrics_are_kept(run: RunView)
    requires
        run.wf(),
        run.phase == Phase::Checking,
    ensures
        step_of(run, EventView::OutputExists(true)).0.summary == run.summary,
        step_of(run, EventView::OutputExists(true)).0.position == run.position + 1,
        !(step_of(run, EventView::OutputExists(true)).1.action is Write),
        step_of(run, EventView::OutputExists(true)).1.lines[0] == exists_line(run.path()),
{
}

/// A record without lyrics, plain or synced, counts the track as failed, and
/// nothing is asked to be written.
pub proof fn law_record_without_lyrics_fails(run: RunView, response: LyricsResponseView)
    requires
        run.wf(),
        run.phase == Phase::Decoding,
        response.synced_lyrics is None,
        response.plain_lyrics is None,
    ensures
        step_of(run, EventView::Body(response)).0.summary == with_fail(run.summary),
        step_of(run, EventView::Body(response)).0.summary.fail == run.summary.fail + 1,
        step_of(run, EventView::Body(response)).0.position == run.position + 1,
        !(step_of(run, EventView::Body(response)).1.action is Write),
{
}

/// A status that is not one of success, or a service that cannot be reached,
/// counts the track as failed; nothing is asked to be written, no record is
/// asked for, and the run goes on with the next track.
pub proof fn law_refusal_fails_track(run: RunView, event: EventView)
    requires
        run.wf(),
        run.phase == Phase::Asking,
        event is Unreachable || (event is Status && !success(event->Status_0)),
    ensures
        step_of(run, event).0.wf(),
        step_of(run, event).0.summary == with_fail(run.summary),
        step_of(run, event).0.summary.fail == run.summary.fail + 1,
        step_of(run, event).0.position == run.position + 1,
        !(step_of(run, event).1.action is Write),
        !(step_of(run, event).1.action is Decode),
        step_of(run, event).1.lines[0] == missing_line(run.path()),
{
}

/// Whatever is handed to a run, it stays well formed, keeps its tracks, and
/// never goes back to a track that is done.
pub proof fn law_run_goes_forward(run: RunView, events: Seq<EventView>, earlier: int)
    requires
        run.wf(),
        0 <= earlier <= events.len(),
    ensures
        run_after(run, events).wf(),
        run_after(run, events).tracks == run.tracks,
        run_after(run, events.take(earlier)).position <= run_after(run, events).position,
    decreases events.len(),
{
    if earlier == events.len() {
        assert(events.take(earlier) == events);
        if events.len() > 0 {
            law_run_goes_forward(run, events.drop_last(), 0);
        }
    } else {
        assert(events.drop_last().take(earlier) == events.take(earlier));
        law_run_goes_forward(run, events.drop_last(), earlier);
    }
}

/// Whether no track after the one in hand has its lyrics written where those
/// of the track in hand are.
pub open spec fn output_is_its_own(run: RunView) -> bool {
    forall|later: int|
        run.position < later < run.tracks.len() ==> output_path_of(#[trigger] run.tracks[later])
            != output_path_of(run.path())
}

/// Once a track is passed over because its lyrics are there, the run never
/// has it in hand again, whatever follows: a later step that asks to write
/// does so for a track further on, to that track's output path. Where no
/// track further on shares the output path of the track passed over, no
/// later step asks to write to that path.
pub proof fn law_passed_track_is_never_written(run: RunView, events: Seq<EventView>, later: int)
    requires
        run.wf(),
        run.phase == Phase::Checking,
        events.len() > 0,
        events[0] == EventView::OutputExists(true),
        1 <= later < events.len(),
    ensures
        run_after(run, events.take(later)).wf(),
        run_after(run, events.take(later)).position > run.position,
        answers(run_after(run, events.take(later)).phase, events[later]) && step_of(
            run_after(run, events.take(later)),
            events[later],
        ).1.action is Write ==> {
            let written = step_of(
                run_after(run, events.take(later)),
                events[later],
            ).1.action->Write_output;
            &&& run_after(run, events.take(later)).position < run.tracks.len()
            &&& written == output_path_of(
                run.tracks[run_after(run, events.take(later)).position],
            )
            &&& output_is_its_own(run) ==> written != output_path_of(run.path())
        },
{
    let seen = events.take(later);
    let first = seen.take(1);
    assert(run_after(run, first.drop_last()) == run);
    law_run_goes_forward(run, seen, 1);
}

} // verus!
