//! One spin job: a state machine that is stepped from its creation to its
//! completion. A step changes the job and the shared stores, and tells the
//! caller what to do before the next step.

use vstd::prelude::*;
use std::time::Instant;
use crate::active::{
    distinct_ids, holds, inserted, lemma_update_is_local, slot, updated, ActiveJobTable,
    JobChange, JobSnapshot, JobSnapshotView,
};
use crate::event::{HubEvent, HubEventView};
use crate::history::{appended, JobRecord, JobRecordView, ResultStore};
use crate::outside::{
    choose_one, clock_now, elapsed_since, fresh_identifier, is_pick_of, random_draw,
    utc_timestamp, whole_millis,
};
use crate::text::{copy_labels, option_text, texts};

verus! {

/// Fewest ticks of a job.
pub const BASE_TICKS: usize = 15;

/// Number of values that the tick count of a job can take.
pub const TICK_SPREAD: usize = 10;

/// Delay before the first tick, in milliseconds.
pub const BASE_DELAY_MS: u64 = 50;

/// By how much the delay grows from one tick to the next, in milliseconds.
pub const DELAY_STEP_MS: u64 = 20;

/// Where a job stands.
#[derive(Clone, Copy, Debug, PartialEq, Eq, Structural)]
pub enum Phase {
    /// Accepted and entered in the table; nothing announced yet.
    Created,
    /// Announced; ticks are being played.
    Ticking,
    /// All ticks played; the result is not chosen yet.
    Finalizing,
    /// Finished. Nothing changes any more.
    Complete,
}

/// Why a submission was turned down.
#[derive(Clone, Copy, Debug, PartialEq, Eq, Structural)]
pub enum SpinError {
    /// The submission named no option.
    NoOptions,
}

/// What the submitter is told about `error`.
pub open spec fn message_of(error: SpinError) -> Seq<char> {
    match error {
        SpinError::NoOptions => "No options provided"@,
    }
}

impl SpinError {
    /// The text that tells the submitter what was wrong.
    pub fn message(&self) -> (text: &'static str)
        ensures
            text@ == message_of(*self),
    {
        match self {
            SpinError::NoOptions => "No options provided",
        }
    }
}

/// A submission: the labels to choose from, and a tag that is passed through.
#[derive(Debug)]
pub struct SpinnerRequest {
    pub options: Vec<String>,
    pub mode: String,
}

/// The answer to the submitter of a finished job.
#[derive(Debug, PartialEq, Eq)]
pub struct SpinnerResult {
    pub result: String,
    pub mode: String,
    pub spin_id: String,
    pub all_options: Vec<String>,
}

/// An answer as plain mathematical values.
pub struct SpinnerResultView {
    pub result: Seq<char>,
    pub mode: Seq<char>,
    pub spin_id: Seq<char>,
    pub all_options: Seq<Seq<char>>,
}

impl View for SpinnerResult {
    type V = SpinnerResultView;

    open spec fn view(&self) -> SpinnerResultView {
        SpinnerResultView {
            result: self.result@,
            mode: self.mode@,
            spin_id: self.spin_id@,
            all_options: texts(self.all_options@),
        }
    }
}

/// What the caller of a step does before the next step.
#[derive(Debug, PartialEq, Eq)]
pub enum Action {
    /// Broadcast the event, then step again.
    Publish(HubEvent),
    /// Wait this many milliseconds, then step again.
    Sleep(u64),
    /// Broadcast the event, then answer the submitter. The job is complete.
    Finish(HubEvent, SpinnerResult),
    /// Nothing was done and nothing is to do.
    Halt,
}

/// An action as plain mathematical values.
pub enum ActionView {
    Publish(HubEventView),
    Sleep(nat),
    Finish(HubEventView, SpinnerResultView),
    Halt,
}

impl View for Action {
    type V = ActionView;

    open spec fn view(&self) -> ActionView {
        match *self {
            Action::Publish(event) => ActionView::Publish(event@),
            Action::Sleep(ms) => ActionView::Sleep(ms as nat),
            Action::Finish(event, answer) => ActionView::Finish(event@, answer@),
            Action::Halt => ActionView::Halt,
        }
    }
}

/// A job as plain mathematical values.
pub struct SpinJobView {
    pub id: Seq<char>,
    pub options: Seq<Seq<char>>,
    pub mode: Seq<char>,
    /// Number of ticks that the job plays, fixed at its creation.
    pub total_ticks: nat,
    /// The next tick to play; the number of ticks played so far.
    pub cursor: nat,
    /// Whether the delay before the next tick has been waited.
    pub rested: bool,
    pub phase: Phase,
}

/// The tick count that the random draw `draw` gives.
pub open spec fn total_ticks_for(draw: nat) -> nat {
    BASE_TICKS as nat + draw % (TICK_SPREAD as nat)
}

/// The delay before tick `tick`, in milliseconds.
pub open spec fn delay_ms(tick: nat) -> nat {
    BASE_DELAY_MS as nat + DELAY_STEP_MS as nat * tick
}

/// The option that is highlighted at tick `tick`, among `count` options.
pub open spec fn highlight_at(tick: nat, count: nat) -> nat {
    tick % count
}

/// The result of a job for which `picked` was drawn: the pick, or the empty
/// label where nothing was drawn.
pub open spec fn resolved(picked: Option<Seq<char>>) -> Seq<char> {
    match picked {
        Some(text) => text,
        None => Seq::<char>::empty(),
    }
}

/// What the invariant of a job asks of its view.
pub open spec fn valid_job(job: SpinJobView) -> bool {
    &&& job.options.len() >= 1
    &&& BASE_TICKS <= job.total_ticks < BASE_TICKS + TICK_SPREAD
    &&& match job.phase {
        Phase::Created => job.cursor == 0 && !job.rested,
        Phase::Ticking => job.cursor < job.total_ticks,
        Phase::Finalizing => job.cursor == job.total_ticks && !job.rested,
        Phase::Complete => job.cursor == job.total_ticks && !job.rested,
    }
}

/// The job that a submission of `options` and `mode` creates under the
/// identifier `id`, when the random draw is `draw`.
pub open spec fn created(options: Seq<Seq<char>>, mode: Seq<char>, id: Seq<char>, draw: nat) -> SpinJobView {
    SpinJobView {
        id,
        options,
        mode,
        total_ticks: total_ticks_for(draw),
        cursor: 0,
        rested: false,
        phase: Phase::Created,
    }
}

/// The table entry with which `job` starts.
pub open spec fn initial_snapshot(job: SpinJobView) -> JobSnapshotView {
    JobSnapshotView {
        id: job.id,
        options: job.options,
        current_highlight: 0,
        tick_count: 0,
        is_complete: false,
    }
}

/// The event that announces `job`.
pub open spec fn start_event(job: SpinJobView) -> HubEventView {
    HubEventView::SpinStart { spin_id: job.id, options: job.options, mode: job.mode }
}

/// The event of tick `tick` of `job`.
pub open spec fn tick_event(job: SpinJobView, tick: nat) -> HubEventView {
    let highlight = highlight_at(tick, job.options.len());
    HubEventView::SpinTick {
        spin_id: job.id,
        highlight_index: highlight,
        current_option: job.options[highlight as int],
        tick,
        total_ticks: job.total_ticks,
    }
}

/// The change that tick `tick` of `job` makes to the job's table entry.
pub open spec fn tick_change(job: SpinJobView, tick: nat) -> JobChange {
    JobChange::Tick {
        highlight: highlight_at(tick, job.options.len()) as usize,
        tick: tick as usize,
    }
}

/// The event that closes `job` with `result` after `duration_ms`.
pub open spec fn complete_event(job: SpinJobView, result: Seq<char>, duration_ms: u64) -> HubEventView {
    HubEventView::SpinComplete { spin_id: job.id, result, duration_ms }
}

/// The answer to the submitter of `job` when the result is `result`.
pub open spec fn answer_for(job: SpinJobView, result: Seq<char>) -> SpinnerResultView {
    SpinnerResultView { result, mode: job.mode, spin_id: job.id, all_options: job.options }
}

/// The history entry that `job` leaves.
pub open spec fn record_for(
    job: SpinJobView,
    result: Seq<char>,
    stamp: Seq<char>,
    duration_ms: u64,
) -> JobRecordView {
    JobRecordView {
        id: job.id,
        timestamp: stamp,
        mode: job.mode,
        options: job.options,
        result,
        duration_ms,
    }
}

/// The job after one step that needs nothing from outside.
pub open spec fn advanced(job: SpinJobView) -> SpinJobView {
    match job.phase {
        Phase::Created => SpinJobView { phase: Phase::Ticking, ..job },
        Phase::Ticking => if !job.rested {
            SpinJobView { rested: true, ..job }
        } else {
            SpinJobView {
                cursor: job.cursor + 1,
                rested: false,
                phase: if job.cursor + 1 == job.total_ticks {
                    Phase::Finalizing
                } else {
                    Phase::Ticking
                },
                ..job
            }
        },
        Phase::Finalizing => job,
        Phase::Complete => job,
    }
}

/// What the step from `job` to `advanced(job)` asks of the caller.
pub open spec fn advance_action(job: SpinJobView) -> ActionView {
    match job.phase {
        Phase::Created => ActionView::Publish(start_event(job)),
        Phase::Ticking => if !job.rested {
            ActionView::Sleep(delay_ms(job.cursor))
        } else {
            ActionView::Publish(tick_event(job, job.cursor))
        },
        Phase::Finalizing => ActionView::Halt,
        Phase::Complete => ActionView::Halt,
    }
}

/// The table after the step from `job` to `advanced(job)`.
pub open spec fn advance_table(job: SpinJobView, table: Seq<JobSnapshotView>) -> Seq<
    JobSnapshotView,
> {
    if job.phase == Phase::Ticking && job.rested {
        updated(table, job.id, tick_change(job, job.cursor))
    } else {
        table
    }
}

/// The job after the step that closes it.
pub open spec fn finalized(job: SpinJobView) -> SpinJobView {
    if job.phase == Phase::Finalizing {
        SpinJobView { phase: Phase::Complete, ..job }
    } else {
        job
    }
}

/// What the closing step of `job` asks of the caller, when `picked` was
/// drawn and `duration_ms` have passed since the job was created.
pub open spec fn finalize_action(job: SpinJobView, picked: Option<Seq<char>>, duration_ms: u64) -> ActionView {
    if job.phase == Phase::Finalizing {
        ActionView::Finish(
            complete_event(job, resolved(picked), duration_ms),
            answer_for(job, resolved(picked)),
        )
    } else {
        ActionView::Halt
    }
}

/// The table after the closing step of `job`.
pub open spec fn finalize_table(job: SpinJobView, table: Seq<JobSnapshotView>) -> Seq<
    JobSnapshotView,
> {
    if job.phase == Phase::Finalizing {
        updated(table, job.id, JobChange::Complete)
    } else {
        table
    }
}

/// The history after the closing step of `job`.
pub open spec fn finalize_history(
    job: SpinJobView,
    history: Seq<JobRecordView>,
    picked: Option<Seq<char>>,
    stamp: Seq<char>,
    duration_ms: u64,
) -> Seq<JobRecordView> {
    if job.phase == Phase::Finalizing {
        appended(history, record_for(job, resolved(picked), stamp, duration_ms))
    } else {
        history
    }
}

/// The tick count for the random draw `draw`.
pub fn total_ticks_from(draw: usize) -> (total: usize)
    ensures
        total == total_ticks_for(draw as nat),
        BASE_TICKS <= total < BASE_TICKS + TICK_SPREAD,
{
    BASE_TICKS + draw % TICK_SPREAD
}

/// The delay before tick `tick`, in milliseconds.
pub fn tick_delay_ms(tick: u64) -> (ms: u64)
    requires
        delay_ms(tick as nat) <= u64::MAX,
    ensures
        ms == delay_ms(tick as nat),
{
    BASE_DELAY_MS + DELAY_STEP_MS * tick
}

/// The result for the pick `picked`: the pick itself, or the empty label
/// where nothing was picked.
pub fn resolve_pick(picked: Option<String>) -> (result: String)
    ensures
        result@ == resolved(option_text(picked)),
{
    match picked {
        Some(text) => text,
        None => String::new(),
    }
}

/// A spin job.
#[derive(Debug)]
pub struct SpinJob {
    id: String,
    options: Vec<String>,
    mode: String,
    total_ticks: usize,
    cursor: usize,
    rested: bool,
    phase: Phase,
    started: Instant,
}

impl View for SpinJob {
    type V = SpinJobView;

    closed spec fn view(&self) -> SpinJobView {
        SpinJobView {
            id: self.id@,
            options: texts(self.options@),
            mode: self.mode@,
            total_ticks: self.total_ticks as nat,
            cursor: self.cursor as nat,
            rested: self.rested,
            phase: self.phase,
        }
    }
}

impl SpinJob {
    /// The invariant of a job: it has an option, its tick count is in range,
    /// and its cursor fits its phase.
    pub open spec fn wf(&self) -> bool {
        valid_job(self@)
    }

    /// The identifier of the job.
    pub fn id(&self) -> (id: &String)
        ensures
            id@ == self@.id,
    {
        &self.id
    }

    /// The labels among which the job chooses.
    pub fn options(&self) -> (options: &Vec<String>)
        ensures
            texts(options@) == self@.options,
    {
        &self.options
    }

    /// The tag that came with the submission.
    pub fn mode(&self) -> (mode: &String)
        ensures
            mode@ == self@.mode,
    {
        &self.mode
    }

    /// Number of ticks that the job plays.
    pub fn total_ticks(&self) -> (total: usize)
        ensures
            total == self@.total_ticks,
    {
        self.total_ticks
    }

    /// Number of ticks played so far.
    pub fn ticks_played(&self) -> (played: usize)
        ensures
            played == self@.cursor,
    {
        self.cursor
    }

    /// Where the job stands.
    pub fn phase(&self) -> (phase: Phase)
        ensures
            phase == self@.phase,
    {
        self.phase
    }

    /// Whether the job has finished.
    pub fn is_complete(&self) -> (done: bool)
        ensures
            done == (self@.phase == Phase::Complete),
    {
        match self.phase {
            Phase::Complete => true,
            _ => false,
        }
    }

    /// Creates the job for `request` under the identifier `id`, with the
    /// tick count that `draw` gives, and enters it in `table`. A request
    /// without options is turned down, and `table` stays as it is.
    pub fn open(
        table: &mut ActiveJobTable,
        request: SpinnerRequest,
        id: String,
        draw: usize,
        started: Instant,
    ) -> (opened: Result<SpinJob, SpinError>)
        requires
            old(table).wf(),
        ensures
            final(table).wf(),
            request.options@.len() == 0 ==> opened == Err::<SpinJob, SpinError>(
                SpinError::NoOptions,
            ) && final(table)@ == old(table)@,
            request.options@.len() > 0 ==> opened is Ok && opened->Ok_0.wf() && opened->Ok_0@
                == created(texts(request.options@), request.mode@, id@, draw as nat)
                && final(table)@ == inserted(old(table)@, initial_snapshot(opened->Ok_0@)),
    {
        if request.options.len() == 0 {
            return Err(SpinError::NoOptions);
        }
        let entry = JobSnapshot {
            id: id.clone(),
            options: copy_labels(&request.options),
            current_highlight: 0,
            tick_count: 0,
            is_complete: false,
        };
        let job = SpinJob {
            id,
            options: request.options,
            mode: request.mode,
            total_ticks: total_ticks_from(draw),
            cursor: 0,
            rested: false,
            phase: Phase::Created,
            started,
        };
        assert(entry@ == initial_snapshot(job@));
        table.insert(entry);
        Ok(job)
    }

    /// Accepts `request`: draws an identifier and a tick count, creates the
    /// job and enters it in `table`. A request without options is turned
    /// down, and `table` stays as it is.
    pub fn submit(table: &mut ActiveJobTable, request: SpinnerRequest) -> (opened: Result<
        SpinJob,
        SpinError,
    >)
        requires
            old(table).wf(),
        ensures
            final(table).wf(),
            request.options@.len() == 0 ==> opened == Err::<SpinJob, SpinError>(
                SpinError::NoOptions,
            ) && final(table)@ == old(table)@,
            request.options@.len() > 0 ==> opened is Ok && opened->Ok_0.wf() && opened->Ok_0@
                == (SpinJobView {
                id: opened->Ok_0@.id,
                total_ticks: opened->Ok_0@.total_ticks,
                ..created(texts(request.options@), request.mode@, Seq::<char>::empty(), 0)
            }) && final(table)@ == inserted(old(table)@, initial_snapshot(opened->Ok_0@)),
            request.options@.len() > 0 ==> exists|draw: nat| #[trigger]
                total_ticks_for(draw) == opened->Ok_0@.total_ticks,
    {
        if request.options.len() == 0 {
            return Err(SpinError::NoOptions);
        }
        let started = clock_now();
        let id = fresh_identifier();
        let draw = random_draw();
        SpinJob::open(table, request, id, draw, started)
    }

    /// Takes one step that needs nothing from outside: the announcement, the
    /// wait before a tick, or a tick. Once all ticks are played, nothing is
    /// done and the action is `Halt`.
    pub fn advance(&mut self, table: &mut ActiveJobTable) -> (action: Action)
        requires
            old(self).wf(),
            old(table).wf(),
        ensures
            final(self).wf(),
            final(table).wf(),
            final(self)@ == advanced(old(self)@),
            action@ == advance_action(old(self)@),
            final(table)@ == advance_table(old(self)@, old(table)@),
    {
        match self.phase {
            Phase::Created => {
                self.phase = Phase::Ticking;
                Action::Publish(
                    HubEvent::SpinStart {
                        spin_id: self.id.clone(),
                        options: copy_labels(&self.options),
                        mode: self.mode.clone(),
                    },
                )
            },
            Phase::Ticking => {
                if !self.rested {
                    self.rested = true;
                    Action::Sleep(tick_delay_ms(self.cursor as u64))
                } else {
                    let tick: usize = self.cursor;
                    let highlight: usize = tick % self.options.len();
                    table.update(&self.id, JobChange::Tick { highlight, tick });
                    let event = HubEvent::SpinTick {
                        spin_id: self.id.clone(),
                        highlight_index: highlight,
                        current_option: self.options[highlight].clone(),
                        tick,
                        total_ticks: self.total_ticks,
                    };
                    self.cursor = tick + 1;
                    self.rested = false;
                    if self.cursor == self.total_ticks {
                        self.phase = Phase::Finalizing;
                    }
                    Action::Publish(event)
                }
            },
            Phase::Finalizing => Action::Halt,
            Phase::Complete => Action::Halt,
        }
    }

    /// Closes a job whose ticks are all played: `picked` becomes its result,
    /// a record with `stamp` and `duration_ms` goes to `history`, and the
    /// table entry is marked complete. In any other phase nothing is done
    /// and the action is `Halt`.
    pub fn finalize(
        &mut self,
        table: &mut ActiveJobTable,
        history: &mut ResultStore,
        picked: Option<String>,
        stamp: String,
        duration_ms: u64,
    ) -> (action: Action)
        requires
            old(self).wf(),
            old(table).wf(),
            old(history).wf(),
        ensures
            final(self).wf(),
            final(table).wf(),
            final(history).wf(),
            final(self)@ == finalized(old(self)@),
            action@ == finalize_action(old(self)@, option_text(picked), duration_ms),
            final(table)@ == finalize_table(old(self)@, old(table)@),
            final(history)@ == finalize_history(
                old(self)@,
                old(history)@,
                option_text(picked),
                stamp@,
                duration_ms,
            ),
    {
        match self.phase {
            Phase::Finalizing => {
                let result = resolve_pick(picked);
                history.append(
                    JobRecord {
                        id: self.id.clone(),
                        timestamp: stamp,
                        mode: self.mode.clone(),
                        options: copy_labels(&self.options),
                        result: result.clone(),
                        duration_ms,
                    },
                );
                table.update(&self.id, JobChange::Complete);
                self.phase = Phase::Complete;
                let event = HubEvent::SpinComplete {
                    spin_id: self.id.clone(),
                    result: result.clone(),
                    duration_ms,
                };
                let answer = SpinnerResult {
                    result,
                    mode: self.mode.clone(),
                    spin_id: self.id.clone(),
                    all_options: copy_labels(&self.options),
                };
                Action::Finish(event, answer)
            },
            _ => Action::Halt,
        }
    }

    /// Takes the next step of the job, whatever its phase. The closing step
    /// draws the result among the options, reads the clock for the duration
    /// and the time stamp, and then does what `finalize` does; every other
    /// step is the one of `advance`.
    pub fn step(&mut self, table: &mut ActiveJobTable, history: &mut ResultStore) -> (action:
        Action)
        requires
            old(self).wf(),
            old(table).wf(),
            old(history).wf(),
        ensures
            final(self).wf(),
            final(table).wf(),
            final(history).wf(),
            old(self)@.phase != Phase::Finalizing ==> {
                &&& final(self)@ == advanced(old(self)@)
                &&& action@ == advance_action(old(self)@)
                &&& final(table)@ == advance_table(old(self)@, old(table)@)
                &&& final(history)@ == old(history)@
            },
            old(self)@.phase == Phase::Finalizing ==> exists|
                picked: Option<Seq<char>>,
                stamp: Seq<char>,
                duration_ms: u64,
            |
                {
                    &&& is_pick_of(old(self)@.options, picked)
                    &&& old(self)@.options.contains(resolved(picked))
                    &&& final(self)@ == finalized(old(self)@)
                    &&& action@ == #[trigger] finalize_action(old(self)@, picked, duration_ms)
                    &&& final(table)@ == finalize_table(old(self)@, old(table)@)
                    &&& final(history)@ == #[trigger] finalize_history(
                        old(self)@,
                        old(history)@,
                        picked,
                        stamp,
                        duration_ms,
                    )
                },
    {
        match self.phase {
            Phase::Finalizing => {
                let picked = choose_one(&self.options);
                let span = elapsed_since(&self.started);
                let millis: u128 = whole_millis(&span);
                let duration_ms: u64 = #[verifier::truncate]
                (millis as u64);
                let stamp = utc_timestamp();
                let ghost drawn = option_text(picked);
                let ghost stamped = stamp@;
                let action = self.finalize(table, history, picked, stamp, duration_ms);
                assert(is_pick_of(old(self)@.options, drawn));
                assert(action@ == finalize_action(old(self)@, drawn, duration_ms));
                assert(history@ == finalize_history(
                    old(self)@,
                    old(history)@,
                    drawn,
                    stamped,
                    duration_ms,
                ));
                action
            },
            _ => self.advance(table),
        }
    }
}

/// Whatever is drawn, a job plays between `BASE_TICKS` ticks and
/// `BASE_TICKS + TICK_SPREAD - 1` ticks.
pub proof fn lemma_total_ticks_in_range(draw: nat)
    ensures
        15 <= total_ticks_for(draw) <= 24,
{
}

/// The wait before a tick grows with every tick.
pub proof fn lemma_delay_grows(earlier: nat, later: nat)
    requires
        earlier < later,
    ensures
        delay_ms(earlier) < delay_ms(later),
        delay_ms(earlier + 1) == delay_ms(earlier) + DELAY_STEP_MS,
{
}

/// Jobs do not disturb each other: no step of a job adds or removes a
/// table entry, and the entry of every other job stays as it is.
pub proof fn lemma_step_leaves_other_jobs(
    job: SpinJobView,
    table: Seq<JobSnapshotView>,
    other: Seq<char>,
)
    requires
        distinct_ids(table),
        other != job.id,
    ensures
        advance_table(job, table).len() == table.len(),
        finalize_table(job, table).len() == table.len(),
        holds(advance_table(job, table), other) == holds(table, other),
        holds(finalize_table(job, table), other) == holds(table, other),
        holds(table, other) ==> advance_table(job, table)[slot(advance_table(job, table), other)]
            == table[slot(table, other)],
        holds(table, other) ==> finalize_table(job, table)[slot(
            finalize_table(job, table),
            other,
        )] == table[slot(table, other)],
{
    lemma_update_is_local(table, job.id, tick_change(job, job.cursor), other);
    lemma_update_is_local(table, job.id, JobChange::Complete, other);
}

} // verus!
