//! The program runner.
//!
//! The runner owns the loaded program, the cursor that says which line comes
//! next, and the raster of the preview. A run is a conversation with whoever
//! drives the machine. [`GCodeManager::next_step`] interprets the line at the
//! cursor; a line that is no command is passed over there and then. The
//! driver is then told one driver call at a time
//! ([`next_call`](crate::zmc::next_call)) and reports on each
//! ([`GCodeManager::call_done`]): after a call that failed no further call is
//! due, and the run is over. When every call of the line was made the driver
//! waits for the axes to come to rest, and [`GCodeManager::line_done`] moves
//! the cursor on by one.
use crate::bitmap::{blank_pixels, fresh_pixels, Bitmap, Raster};
use crate::image::ImageError;
use crate::interpreter::{
    context_after, interpret_gcode_movement, movement_of, operations_of, Interpretation,
    InterpreterContext, Movement, Operation,
};
use crate::parser::{parse_gcode_line, parse_line};
use crate::path::Point;
use crate::preview::{lemma_replay_keeps_geometry, preview_lines, replayed, Replay};
use crate::program::{lines_of, split_lines, texts_of};
use crate::zmc::{call_count, Reading};
use vstd::prelude::*;
use vstd::string::StringExecFns;

verus! {

/// What can go wrong with one line of a run.
#[derive(Debug)]
pub enum GCodeError {
    /// A line is no command. Such a line is passed over and the run goes on;
    /// the runner itself never hands this out.
    ParseError(String),
    /// The machine failed on the line. The run ends.
    ExecutionError(String),
}

/// Why a run did not start.
#[derive(Debug, Clone, Copy, PartialEq, Eq, Structural)]
pub enum RunError {
    /// A run is active already.
    AlreadyRunning,
    /// The controller session is not open.
    ControllerNotOpen,
}

impl GCodeError {
    /// The error in words: what kind it is, then the line or the driver's
    /// message.
    pub fn message(&self) -> (text: String)
        ensures
            text@ == match *self {
                GCodeError::ParseError(line) => "Invalid G-code command: "@ + line@,
                GCodeError::ExecutionError(cause) => "Failed to execute G-code command: "@
                    + cause@,
            },
    {
        match self {
            GCodeError::ParseError(line) => {
                let mut text = String::from_str("Invalid G-code command: ");
                text.append(line.as_str());
                text
            },
            GCodeError::ExecutionError(cause) => {
                let mut text = String::from_str("Failed to execute G-code command: ");
                text.append(cause.as_str());
                text
            },
        }
    }
}

impl RunError {
    /// The error in words.
    pub fn message(&self) -> (text: &'static str)
        ensures
            text@ == match *self {
                RunError::AlreadyRunning => "G-code execution already in progress"@,
                RunError::ControllerNotOpen => "Controller is not open"@,
            },
    {
        match self {
            RunError::AlreadyRunning => "G-code execution already in progress",
            RunError::ControllerNotOpen => "Controller is not open",
        }
    }
}

/// What the runner asks of its driver next.
#[derive(Debug, Clone, Copy, PartialEq, Eq, Structural)]
pub enum RunStep {
    /// No run is active: there is nothing to do.
    Idle,
    /// The cursor has reached the end of the program. The run is over.
    Completed,
    /// The line at the cursor was interpreted, and this is its description.
    /// The driver makes the calls of the line one by one, waits for the axes
    /// and reports the line done.
    Line(Movement),
}

/// Where the line at the cursor stands.
#[derive(Debug, Clone, Copy, PartialEq, Eq, Structural)]
pub enum LineState {
    /// No run is active, or the line was not interpreted yet.
    Idle,
    /// Every call of the line was made.
    Finished,
    /// A call of this operation is due: the call at this stage. `datum` is
    /// what the call before it read.
    Pending { operation: Operation, stage: usize, datum: i64 },
}

/// The program runner.
pub struct GCodeManager {
    lines: Vec<String>,
    current_line: usize,
    running: bool,
    context: InterpreterContext,
    bitmap: Bitmap,
    in_line: bool,
    pending: Vec<Operation>,
    issued: usize,
    stage: usize,
    datum: i64,
}

/// The mathematical content of a [`GCodeManager`].
pub struct RunnerView {
    pub lines: Seq<Seq<char>>,
    pub cursor: nat,
    pub running: bool,
    pub context: InterpreterContext,
    pub raster: Raster,
    /// Whether the line at the cursor was interpreted and is under way.
    pub in_line: bool,
    /// The operations of the line at the cursor.
    pub pending: Seq<Operation>,
    /// How many of them were carried out.
    pub issued: nat,
    /// How many calls of the next one were made.
    pub stage: nat,
    /// What the last of these calls read.
    pub datum: i64,
}

impl View for GCodeManager {
    type V = RunnerView;

    closed spec fn view(&self) -> RunnerView {
        RunnerView {
            lines: texts_of(self.lines@),
            cursor: self.current_line as nat,
            running: self.running,
            context: self.context,
            raster: self.bitmap@,
            in_line: self.in_line,
            pending: self.pending@,
            issued: self.issued as nat,
            stage: self.stage as nat,
            datum: self.datum,
        }
    }
}

/// The width and the height of the preview raster, in pixels.
pub const PREVIEW_SIZE: usize = 800;

/// The scale of the preview raster: four pixels to the unit.
pub const PREVIEW_SCALE: i64 = 4_000_000;

/// The operations of a line: those of the command that it writes, and none
/// if it writes no command.
pub open spec fn line_operations(line: Seq<char>) -> Seq<Operation> {
    match parse_line(line) {
        Some(command) => operations_of(command),
        None => Seq::empty(),
    }
}

/// The description of a line: that of the command that it writes, or that it
/// writes none.
pub open spec fn line_movement(line: Seq<char>) -> Movement {
    match parse_line(line) {
        Some(command) => movement_of(command),
        None => Movement::NoCommand,
    }
}

/// The context after a line: after the command that it writes, and as it was
/// if it writes none.
pub open spec fn line_context(before: InterpreterContext, line: Seq<char>) -> InterpreterContext {
    match parse_line(line) {
        Some(command) => context_after(before, command),
        None => before,
    }
}

/// How many driver calls are still to be made for these operations, from
/// operation `issued` on, of which `stage` calls were made already.
pub open spec fn calls_left(pending: Seq<Operation>, issued: nat, stage: nat) -> int
    decreases pending.len() - issued,
{
    if issued >= pending.len() {
        0
    } else {
        call_count(pending[issued as int]) - stage + calls_left(pending, issued + 1, 0)
    }
}

impl RunnerView {
    /// The runner as it is made: without a program, at rest, with a fresh
    /// preview raster.
    pub open spec fn fresh() -> RunnerView {
        RunnerView {
            lines: Seq::empty(),
            cursor: 0,
            running: false,
            context: InterpreterContext::initial(),
            raster: Raster {
                width: PREVIEW_SIZE as nat,
                height: PREVIEW_SIZE as nat,
                pixels: fresh_pixels(PREVIEW_SIZE as nat, PREVIEW_SIZE as nat),
                scale: PREVIEW_SCALE,
                origin_x: (PREVIEW_SIZE / 2) as nat,
                origin_y: (PREVIEW_SIZE / 2) as nat,
            },
            in_line: false,
            pending: Seq::empty(),
            issued: 0,
            stage: 0,
            datum: 0,
        }
    }

    /// The cursor is inside the program or at its end, the raster is well
    /// formed, and the count of the calls that were made fits the operations
    /// of the line.
    pub open spec fn wf(self) -> bool {
        &&& self.cursor <= self.lines.len()
        &&& self.raster.wf()
        &&& self.issued <= self.pending.len()
        &&& self.issued < self.pending.len() ==> self.stage < call_count(
            self.pending[self.issued as int],
        )
        &&& self.issued == self.pending.len() ==> self.stage == 0
    }

    /// The runner with no line under way.
    pub open spec fn between_lines(self) -> RunnerView {
        RunnerView { in_line: false, pending: Seq::empty(), issued: 0, stage: 0, datum: 0, ..self }
    }

    /// The runner after a program was loaded: the program replaced, the
    /// cursor at its start, the interpreter's context as new, no line under
    /// way.
    pub open spec fn loaded(self, text: Seq<char>) -> RunnerView {
        RunnerView {
            lines: lines_of(text),
            cursor: 0,
            context: InterpreterContext::initial(),
            ..self.between_lines()
        }
    }

    /// The runner with a run under way, at the start of the line at the
    /// cursor.
    pub open spec fn started(self) -> RunnerView {
        RunnerView { running: true, ..self.between_lines() }
    }

    /// The runner with the run ended.
    pub open spec fn stopped(self) -> RunnerView {
        RunnerView { running: false, ..self.between_lines() }
    }

    /// Whether the run has come to the end of the program.
    pub open spec fn at_end(self) -> bool {
        self.cursor >= self.lines.len()
    }

    /// The runner after it was asked for the next step: a run that has come
    /// to the end of the program is over. Otherwise the line at the cursor is
    /// under way: its operations wait to be carried out, and its command has
    /// left its mark on the interpreter's context. A line that is no command
    /// has no operations and leaves no mark.
    pub open spec fn stepped(self) -> RunnerView {
        if !self.running {
            self
        } else if self.at_end() {
            self.stopped()
        } else {
            RunnerView {
                context: line_context(self.context, self.lines[self.cursor as int]),
                in_line: true,
                pending: line_operations(self.lines[self.cursor as int]),
                issued: 0,
                stage: 0,
                datum: 0,
                ..self
            }
        }
    }

    /// Where the line at the cursor stands.
    pub open spec fn line_state(self) -> LineState {
        if !self.running || !self.in_line {
            LineState::Idle
        } else if self.issued >= self.pending.len() {
            LineState::Finished
        } else {
            LineState::Pending {
                operation: self.pending[self.issued as int],
                stage: self.stage as usize,
                datum: self.datum,
            }
        }
    }

    /// The runner after the driver reported on the call that was due: what
    /// the call read, or nothing if it failed.
    ///
    /// After a call that went well the next call of the operation is due, or
    /// the first of the next operation. A call that failed ends the run with
    /// the cursor on the line, and no call is due after it. A report on a call
    /// that was not due changes nothing.
    pub open spec fn call_finished(self, outcome: Option<Reading>) -> RunnerView {
        if self.line_state() is Pending {
            match outcome {
                None => RunnerView { running: false, ..self },
                Some(reading) => if self.stage + 1 < call_count(self.pending[self.issued as int]) {
                    RunnerView { stage: self.stage + 1, datum: reading.quantity_of(), ..self }
                } else {
                    RunnerView { issued: self.issued + 1, stage: 0, datum: 0, ..self }
                },
            }
        } else {
            self
        }
    }

    /// The runner after every call of the line was made and went well.
    pub open spec fn calls_made(self) -> RunnerView {
        if self.running && self.in_line {
            RunnerView { issued: self.pending.len(), stage: 0, datum: 0, ..self }
        } else {
            self
        }
    }

    /// The runner after the driver reported on the line at the cursor: one
    /// line further if every call of it was made and the wait went well,
    /// halted on the line if the machine failed. A report that the line went
    /// well while calls are due, or outside a line, changes nothing.
    pub open spec fn line_finished(self, succeeded: bool) -> RunnerView {
        if succeeded {
            if self.line_state() is Finished && !self.at_end() {
                RunnerView { cursor: self.cursor + 1, ..self.between_lines() }
            } else {
                self
            }
        } else if self.running && !self.at_end() {
            RunnerView { running: false, ..self }
        } else {
            self
        }
    }

    /// The runner after `count` lines in a row went well.
    pub open spec fn after_lines(self, count: nat) -> RunnerView
        decreases count,
    {
        if count == 0 {
            self
        } else {
            self.after_lines((count - 1) as nat).stepped().calls_made().line_finished(true)
        }
    }

    /// The runner after a preview: its raster cleared and the program
    /// replayed onto it from the origin.
    pub open spec fn previewed(self) -> RunnerView {
        RunnerView {
            raster: replayed(
                Replay {
                    raster: Raster {
                        pixels: blank_pixels(self.raster.width, self.raster.height),
                        ..self.raster
                    },
                    position: Point { x: 0, y: 0, z: 0 },
                },
                self.lines,
            ).raster,
            ..self
        }
    }
}

/// A run over a program of `n` lines that all go well moves the cursor from
/// the start over every line in turn: after `k` lines it stands at `k`, the
/// run is still active and the program is what it was.
pub proof fn lemma_cursor_counts_lines(start: RunnerView, k: nat)
    requires
        start.running,
        start.cursor == 0,
        k <= start.lines.len(),
    ensures
        start.after_lines(k).cursor == k,
        start.after_lines(k).running,
        start.after_lines(k).lines == start.lines,
    decreases k,
{
    if k > 0 {
        lemma_cursor_counts_lines(start, (k - 1) as nat);
    }
}

/// After a program of `n` lines was loaded and a run started, the cursor
/// goes from the start to `n` by one line for each line that went well, and
/// the step after the last line ends the run.
pub proof fn lemma_loaded_program_runs_through(runner: RunnerView, text: Seq<char>, k: nat)
    requires
        k <= lines_of(text).len(),
    ensures
        runner.loaded(text).cursor == 0,
        runner.loaded(text).started().after_lines(k).cursor == k,
        runner.loaded(text).started().after_lines(k).running,
        k == lines_of(text).len() ==> !runner.loaded(text).started().after_lines(
            k,
        ).stepped().running,
{
    lemma_cursor_counts_lines(runner.loaded(text).started(), k);
}

/// The cursor never moves back, and never by more than one line at a time.
/// Only the report that a line went well moves it.
pub proof fn lemma_cursor_moves_one_line(
    runner: RunnerView,
    succeeded: bool,
    outcome: Option<Reading>,
)
    ensures
        runner.stepped().cursor == runner.cursor,
        runner.call_finished(outcome).cursor == runner.cursor,
        runner.cursor <= runner.line_finished(succeeded).cursor <= runner.cursor + 1,
        runner.wf() ==> runner.stepped().wf() && runner.call_finished(outcome).wf()
            && runner.line_finished(succeeded).wf(),
{
}

/// A run that has gone over all the lines of its program ends with the next
/// step, the cursor at the end of the program.
pub proof fn lemma_run_completes(start: RunnerView)
    requires
        start.running,
        start.cursor == 0,
    ensures
        !start.after_lines(start.lines.len()).stepped().running,
        start.after_lines(start.lines.len()).stepped().cursor == start.lines.len(),
{
    lemma_cursor_counts_lines(start, start.lines.len());
}

/// A failure of the machine on line `k` halts the run with the cursor on
/// line `k`: a failure of a call, and a failure of the wait for the axes.
pub proof fn lemma_failure_halts_at_line(start: RunnerView, k: nat)
    requires
        start.running,
        start.cursor == 0,
        k < start.lines.len(),
    ensures
        start.after_lines(k).stepped().line_finished(false).cursor == k,
        !start.after_lines(k).stepped().line_finished(false).running,
        start.after_lines(k).stepped().call_finished(None).cursor == k,
        start.after_lines(k).stepped().line_state() is Pending ==> !start.after_lines(
            k,
        ).stepped().call_finished(None).running,
{
    lemma_cursor_counts_lines(start, k);
}

/// After a call that failed no call is due, whatever is asked or reported
/// from then on: the run is over.
pub proof fn lemma_no_call_after_failure(
    runner: RunnerView,
    succeeded: bool,
    outcome: Option<Reading>,
)
    requires
        runner.line_state() is Pending,
    ensures
        runner.call_finished(None).line_state() is Idle,
        runner.call_finished(None).stepped().line_state() is Idle,
        runner.call_finished(None).call_finished(outcome).line_state() is Idle,
        runner.call_finished(None).line_finished(succeeded).line_state() is Idle,
{
}

/// Each call that went well leaves one call less to be made, and the line is
/// finished exactly when none is left.
pub proof fn lemma_calls_run_out(runner: RunnerView, reading: Reading)
    requires
        runner.wf(),
        runner.running,
        runner.in_line,
    ensures
        0 <= calls_left(runner.pending, runner.issued, runner.stage),
        runner.line_state() is Finished <==> calls_left(
            runner.pending,
            runner.issued,
            runner.stage,
        ) == 0,
        runner.line_state() is Pending ==> calls_left(
            runner.call_finished(Some(reading)).pending,
            runner.call_finished(Some(reading)).issued,
            runner.call_finished(Some(reading)).stage,
        ) == calls_left(runner.pending, runner.issued, runner.stage) - 1,
{
    lemma_calls_left_positive(runner.pending, runner.issued + 1);
    if runner.issued < runner.pending.len() {
        lemma_calls_left_positive(runner.pending, runner.issued);
    }
}

/// The calls that are left from the start of an operation on are not fewer
/// than none.
pub proof fn lemma_calls_left_positive(pending: Seq<Operation>, issued: nat)
    ensures
        0 <= calls_left(pending, issued, 0),
        issued < pending.len() ==> 0 < calls_left(pending, issued, 0),
    decreases pending.len() - issued,
{
    if issued < pending.len() {
        lemma_calls_left_positive(pending, issued + 1);
    }
}

/// Outside a run nothing changes, whatever is asked or reported.
pub proof fn lemma_halted_runner_stays(
    runner: RunnerView,
    succeeded: bool,
    outcome: Option<Reading>,
)
    requires
        !runner.running,
    ensures
        runner.stepped() == runner,
        runner.call_finished(outcome) == runner,
        runner.line_finished(succeeded) == runner,
{
}

/// A second preview of the same program gives the raster of the first.
pub proof fn lemma_preview_repeats(runner: RunnerView)
    ensures
        runner.previewed().previewed() == runner.previewed(),
{
    lemma_replay_keeps_geometry(
        Replay {
            raster: Raster {
                pixels: blank_pixels(runner.raster.width, runner.raster.height),
                ..runner.raster
            },
            position: Point { x: 0, y: 0, z: 0 },
        },
        runner.lines,
    );
}

/// The raster of a preview depends on the program and on the geometry of the
/// raster, and on nothing that was drawn before.
pub proof fn lemma_preview_is_determined(a: RunnerView, b: RunnerView)
    requires
        a.lines == b.lines,
        a.raster.width == b.raster.width,
        a.raster.height == b.raster.height,
        a.raster.scale == b.raster.scale,
        a.raster.origin_x == b.raster.origin_x,
        a.raster.origin_y == b.raster.origin_y,
    ensures
        a.previewed().raster == b.previewed().raster,
{
}

/// Interprets one line: the operations and the description of the command
/// that it writes, or no operation and the description that it writes none.
fn interpret_line(line: &str, context: &mut InterpreterContext) -> (done: Interpretation)
    ensures
        done.operations@ == line_operations(line@),
        done.movement == line_movement(line@),
        *final(context) == line_context(*old(context), line@),
{
    match parse_gcode_line(line) {
        Some(command) => interpret_gcode_movement(&command, context),
        None => Interpretation { operations: Vec::new(), movement: Movement::NoCommand },
    }
}

/// Interprets one line: the operations and the description of the command
/// that it writes. A line that writes no command is no error: it has no
/// operations, and is described as no command.
pub fn execute_one_line(line: &str, context: &mut InterpreterContext) -> (out: Result<
    Interpretation,
    GCodeError,
>)
    ensures
        out matches Ok(done) && done.operations@ == line_operations(line@) && done.movement
            == line_movement(line@),
        *final(context) == line_context(*old(context), line@),
{
    Ok(interpret_line(line, context))
}

impl GCodeManager {
    /// See [`RunnerView::wf`].
    pub open spec fn wf(&self) -> bool {
        self@.wf()
    }

    /// A runner without a program, at rest, with a fresh preview raster.
    pub fn new() -> (runner: Self)
        ensures
            runner.wf(),
            runner@ == RunnerView::fresh(),
    {
        let runner = GCodeManager {
            lines: Vec::new(),
            current_line: 0,
            running: false,
            context: InterpreterContext::new(),
            bitmap: Bitmap::new(PREVIEW_SIZE, PREVIEW_SIZE, PREVIEW_SCALE),
            in_line: false,
            pending: Vec::new(),
            issued: 0,
            stage: 0,
            datum: 0,
        };
        assert(texts_of(runner.lines@) =~= Seq::<Seq<char>>::empty());
        assert(runner.pending@ =~= Seq::<Operation>::empty());
        runner
    }

    /// Puts the line at the cursor aside: no call of it is due any more.
    fn leave_line(&mut self)
        ensures
            final(self)@ == old(self)@.between_lines(),
    {
        self.in_line = false;
        self.pending = Vec::new();
        self.issued = 0;
        self.stage = 0;
        self.datum = 0;
        assert(self.pending@ =~= Seq::<Operation>::empty());
    }

    /// Replaces the program by the lines of `content` and puts the cursor at
    /// its start. This always succeeds, during a run too.
    pub fn load_gcode(&mut self, content: &str)
        requires
            old(self).wf(),
        ensures
            final(self).wf(),
            final(self)@ == old(self)@.loaded(content@),
    {
        self.leave_line();
        self.lines = split_lines(content);
        self.current_line = 0;
        self.context = InterpreterContext::new();
    }

    /// Clears the preview raster, replays the whole program onto it from the
    /// origin, and hands out the raster as an image. Neither the machine nor
    /// the run is touched.
    pub fn generate_path_preview(&mut self) -> (image: Result<String, ImageError>)
        requires
            old(self).wf(),
        ensures
            final(self).wf(),
            final(self)@ == old(self)@.previewed(),
            final(self)@.raster.image_is(image),
    {
        self.bitmap.clear();
        let mut position = Point { x: 0, y: 0, z: 0 };
        preview_lines(&self.lines, &mut self.bitmap, &mut position);
        self.bitmap.to_data_url()
    }

    /// Starts a run at the cursor, unless one is active: then nothing
    /// changes.
    pub fn start(&mut self) -> (started: Result<(), RunError>)
        ensures
            old(self)@.running ==> started == Err::<(), RunError>(RunError::AlreadyRunning)
                && final(self)@ == old(self)@,
            !old(self)@.running ==> started is Ok && final(self)@ == old(self)@.started(),
    {
        if self.running {
            return Err(RunError::AlreadyRunning);
        }
        self.leave_line();
        self.running = true;
        Ok(())
    }

    /// Ends the run at once. The cursor stays where it is, and no call is due
    /// any more.
    pub fn stop(&mut self)
        ensures
            final(self)@ == old(self)@.stopped(),
    {
        self.leave_line();
        self.running = false;
    }

    /// Puts the cursor at the start of the program. A run goes on from
    /// there, with the line that stands there.
    pub fn reset(&mut self)
        ensures
            final(self)@ == (RunnerView { cursor: 0, ..old(self)@.between_lines() }),
    {
        self.leave_line();
        self.current_line = 0;
    }

    /// The cursor: the number of the line that comes next.
    pub fn current_line(&self) -> (cursor: usize)
        ensures
            cursor == self@.cursor,
    {
        self.current_line
    }

    /// The number of lines of the program.
    pub fn line_count(&self) -> (count: usize)
        ensures
            count == self@.lines.len(),
    {
        self.lines.len()
    }

    /// Whether a run is active.
    pub fn is_running(&self) -> (running: bool)
        ensures
            running == self@.running,
    {
        self.running
    }

    /// The interpreter's context.
    pub fn context(&self) -> (context: InterpreterContext)
        ensures
            context == self@.context,
    {
        self.context
    }

    /// The preview raster.
    pub fn bitmap(&self) -> (bitmap: &Bitmap)
        ensures
            bitmap@ == self@.raster,
    {
        &self.bitmap
    }

    /// Where the line at the cursor stands: whether a call is due, and of
    /// which operation.
    pub fn line_state(&self) -> (state: LineState)
        ensures
            state == self@.line_state(),
    {
        if !self.running || !self.in_line {
            LineState::Idle
        } else if self.issued >= self.pending.len() {
            LineState::Finished
        } else {
            LineState::Pending {
                operation: self.pending[self.issued],
                stage: self.stage,
                datum: self.datum,
            }
        }
    }

    /// Says what the run asks for next.
    ///
    /// Outside a run that is nothing. A run whose cursor has reached the end
    /// of the program is over, and ends here. Otherwise the line at the
    /// cursor is interpreted and is under way from now on. A line that is no
    /// command is passed over: it asks for no call.
    pub fn next_step(&mut self) -> (step: RunStep)
        requires
            old(self).wf(),
        ensures
            final(self).wf(),
            final(self)@ == old(self)@.stepped(),
            step == if !old(self)@.running {
                RunStep::Idle
            } else if old(self)@.at_end() {
                RunStep::Completed
            } else {
                RunStep::Line(line_movement(old(self)@.lines[old(self)@.cursor as int]))
            },
    {
        if !self.running {
            return RunStep::Idle;
        }
        if self.current_line >= self.lines.len() {
            self.leave_line();
            self.running = false;
            return RunStep::Completed;
        }
        let done = interpret_line(self.lines[self.current_line].as_str(), &mut self.context);
        self.in_line = true;
        self.pending = done.operations;
        self.issued = 0;
        self.stage = 0;
        self.datum = 0;
        RunStep::Line(done.movement)
    }

    /// Hears how the call that was due went: what it read, or the driver's
    /// message if it failed.
    ///
    /// After a call that went well the next one is due, if the line has one.
    /// A call that failed ends the run with the cursor on the line, and comes
    /// back as an execution error with the driver's message; no call is due
    /// after it. A report on a call that was not due changes nothing.
    pub fn call_done(&mut self, outcome: Result<Reading, String>) -> (reported: Result<
        (),
        GCodeError,
    >)
        requires
            old(self).wf(),
        ensures
            final(self).wf(),
            final(self)@ == old(self)@.call_finished(
                match outcome {
                    Ok(reading) => Some(reading),
                    Err(_) => None,
                },
            ),
            match outcome {
                Ok(_) => reported is Ok,
                Err(message) => (reported matches Err(GCodeError::ExecutionError(text)) && text@
                    == message@),
            },
    {
        let due = self.running && self.in_line && self.issued < self.pending.len();
        match outcome {
            Ok(reading) => {
                if due {
                    let calls: usize = match self.pending[self.issued] {
                        Operation::ConverterSetFreq { .. } => 2,
                        Operation::Home { .. } => 2,
                        _ => 1,
                    };
                    if self.stage + 1 < calls {
                        self.stage = self.stage + 1;
                        self.datum = reading.quantity();
                    } else {
                        self.issued = self.issued + 1;
                        self.stage = 0;
                        self.datum = 0;
                    }
                }
                Ok(())
            },
            Err(message) => {
                if due {
                    self.running = false;
                }
                Err(GCodeError::ExecutionError(message))
            },
        }
    }

    /// Hears how the line at the cursor went, after the axes have come to
    /// rest.
    ///
    /// After a line of which every call was made, or which was passed over,
    /// the cursor moves on by one. A failure of the machine ends the run with
    /// the cursor on the line that failed, and comes back as an execution
    /// error with the driver's message. A report that the line went well
    /// while calls are due, or outside a line, changes nothing.
    pub fn line_done(&mut self, outcome: Result<(), String>) -> (reported: Result<(), GCodeError>)
        requires
            old(self).wf(),
        ensures
            final(self).wf(),
            final(self)@ == old(self)@.line_finished(outcome is Ok),
            match outcome {
                Ok(_) => reported is Ok,
                Err(message) => (reported matches Err(GCodeError::ExecutionError(text)) && text@
                    == message@),
            },
    {
        match outcome {
            Ok(_) => {
                if self.running && self.in_line && self.issued >= self.pending.len()
                    && self.current_line < self.lines.len() {
                    self.current_line = self.current_line + 1;
                    self.leave_line();
                }
                Ok(())
            },
            Err(message) => {
                if self.running && self.current_line < self.lines.len() {
                    self.running = false;
                }
                Err(GCodeError::ExecutionError(message))
            },
        }
    }
}

/// Whether every awaited axis has reported that it is at rest.
pub open spec fn all_at_rest(idle: Seq<bool>) -> bool {
    forall|k: int| 0 <= k < idle.len() ==> idle[k]
}

/// The axes that a run waits for after each line: all three.
pub fn awaited_axes() -> (axes: Vec<u8>)
    ensures
        axes@ == seq![0u8, 1u8, 2u8],
{
    let mut axes: Vec<u8> = Vec::new();
    axes.push(0);
    axes.push(1);
    axes.push(2);
    assert(axes@ =~= seq![0u8, 1u8, 2u8]);
    axes
}

/// Decides whether the wait for the axes is over: it is when each awaited
/// axis has reported that it is at rest. Until then the driver asks the
/// axes again after a short pause.
pub fn zmc_wait_idle(idle: &Vec<bool>) -> (done: bool)
    ensures
        done == all_at_rest(idle@),
{
    let mut k: usize = 0;
    while k < idle.len()
        invariant
            k <= idle.len(),
            forall|n: int| 0 <= n < k ==> idle@[n],
        decreases idle.len() - k,
    {
        if !idle[k] {
            return false;
        }
        k += 1;
    }
    true
}

} // verus!
