//! The controller session.
//!
//! The session manager says whether the controller may be opened, closed or
//! used, and turns each request into the calls that the hardware driver is to
//! make. It makes none of these calls itself: whoever holds the driver's
//! handle makes them, and tells the manager when the handle was opened,
//! closed or let go. During a run [`next_call`] says which call is due, one at
//! a time, and none after one that failed.
//!
//! The manager also paces the status polling: most ticks sample the motion of
//! the axes and plot the tool position, and about every twentieth publishes
//! the path image and the motion status and reads the limit switches.
use crate::bitmap::{blank_pixels, fresh_pixels, Bitmap, Raster};
use crate::fixed::{saturate, saturate_i128};
use crate::image::ImageError;
use crate::interpreter::Operation;
use crate::model::{AxisParameters, LimitStatus, MoveStatus, Parameters};
use crate::runner::{GCodeManager, LineState, RunError};
use vstd::prelude::*;

verus! {

/// Which controller a session opens.
#[derive(Debug, Clone, PartialEq, Eq)]
pub enum ControllerType {
    /// The controller at this network address.
    Zmc(String),
    /// A simulated controller.
    Fake,
}

/// Where the session's handle stands.
#[derive(Debug, Clone, Copy, PartialEq, Eq, Structural)]
pub enum SessionState {
    /// There is no handle.
    Uninitialized,
    /// The handle is open.
    Open,
    /// The handle is there, and closed.
    Closed,
}

/// Why the session refused a request.
#[derive(Debug, Clone, Copy, PartialEq, Eq, Structural)]
pub enum SessionError {
    /// The controller is open already.
    AlreadyOpen,
    /// There is no controller.
    NotInitialized,
    /// The controller is not open.
    NotOpen,
    /// The list of axes and the list of positions differ in length.
    LengthMismatch,
    /// The list of axes is empty.
    EmptyAxisList,
    /// The speed is below zero.
    NegativeSpeed,
    /// An axis number that the settings do not know.
    UnknownAxis,
    /// The number of inputs read is not the number asked for.
    WrongReadings,
}

/// What the holder of the handle reports to the manager.
#[derive(Debug, Clone, Copy, PartialEq, Eq, Structural)]
pub enum SessionEvent {
    /// A handle was made and opened.
    Opened,
    /// The handle was closed.
    Closed,
    /// The handle was let go.
    Released,
}

/// A setting of an axis that takes a quantity.
#[derive(Debug, Clone, Copy, PartialEq, Eq, Structural)]
pub enum AxisSetting {
    Speed,
    StartSpeed,
    Acceleration,
    Deceleration,
    SRamp,
    Units,
    ForwardLimit,
    ReverseLimit,
    DemandPosition,
    MeasuredPosition,
}

/// A role that an input plays for an axis.
#[derive(Debug, Clone, Copy, PartialEq, Eq, Structural)]
pub enum AxisInput {
    ForwardLimit,
    ReverseLimit,
    Alarm,
}

/// A command for the converter, sent to the controller as text.
#[derive(Debug, Clone, Copy, PartialEq, Eq, Structural)]
pub enum ConverterCommand {
    RunForward,
    RunInverted,
    Stop,
    ApplyFrequency,
}

/// One call of the hardware driver.
#[derive(Debug, Clone, PartialEq, Eq)]
pub enum ControllerOp {
    /// Close the handle.
    Close,
    /// Set whether an input reads inverted.
    SetInvertIn { io: u16, inverted: bool },
    /// Set the type of an axis.
    SetAxisType { axis: u8, kind: u32 },
    /// Set a quantity of an axis.
    SetAxisValue { axis: u8, setting: AxisSetting, value: i64 },
    /// Give an input a role for an axis.
    SetAxisInput { axis: u8, input: AxisInput, io: u16 },
    /// Move axes together, to absolute positions or by distances. `count` is
    /// the number of axes as the driver takes it, in eight bits.
    Move { absolute: bool, count: u8, axes: Vec<u8>, positions: Vec<i64> },
    /// Write one long holding register.
    WriteRegister { register: u16, words: u16, content: i32 },
    /// Send a converter command.
    Execute { command: ConverterCommand },
    /// Jog an axis in a direction until it is cancelled.
    Jog { axis: u8, direction: i8 },
    /// Cancel the motion of an axis.
    Cancel { axis: u8, mode: i32 },
    /// Read an input.
    ReadInput { io: u16 },
    /// Read whether an axis is at rest.
    ReadIdle { axis: u8 },
    /// Read the demand position of an axis.
    ReadDemandPosition { axis: u8 },
    /// Read the measured position of an axis.
    ReadMeasuredPosition { axis: u8 },
    /// Read the measured speed of an axis.
    ReadMeasuredSpeed { axis: u8 },
}

impl ControllerOp {
    /// Whether this is the move of these axes to or by these positions.
    pub open spec fn is_move(self, absolute: bool, axes: Seq<u8>, positions: Seq<i64>) -> bool {
        self matches ControllerOp::Move { absolute: a, count, axes: x, positions: p } && a
            == absolute && x@ == axes && p@ == positions && count == (axes.len() % 256) as u8
    }
}

/// The axis type that every axis is set to: a pulse-and-direction stepper
/// with encoder feedback.
pub const AXIS_TYPE: u32 = 65;

/// The S-curve time of every axis, in millionths.
pub const S_RAMP: i64 = 20_000_000;

/// The holding register of the converter's frequency.
pub const FREQUENCY_REGISTER: u16 = 3;

/// The direction in which an axis above zero seeks its datum.
pub const DATUM_FROM_ABOVE: i8 = 19;

/// The direction in which an axis at or below zero seeks its datum.
pub const DATUM_FROM_BELOW: i8 = 18;

/// The mode in which a jog is cancelled.
pub const CANCEL_MODE: i32 = 2;

/// Every tick of the polling lasts this many milliseconds.
pub const MOVE_STATUS_UPDATE_INTERVAL: u32 = 5;

/// After more than this many sampling ticks comes a publishing tick.
pub const UPDATE_COUNT: u32 = 20;

/// The width and the height of the path raster, in pixels.
pub const PATH_SIZE: usize = 500;

/// The scale of the path raster: four pixels to the unit.
pub const PATH_SCALE: i64 = 4_000_000;

/// By how much the height of the tool is stretched for its colour on the
/// path raster, the sign turned.
pub const DEPTH_GAIN: i64 = 75;

/// The session manager.
pub struct ZmcManager {
    state: SessionState,
    parameters: Parameters,
    polling: bool,
    limit_status: LimitStatus,
    move_status: MoveStatus,
    path_img_update_counter: u32,
    bitmap: Bitmap,
    path_img: String,
}

/// The mathematical content of a [`ZmcManager`].
pub struct SessionView {
    pub state: SessionState,
    pub parameters: Parameters,
    pub polling: bool,
    pub limit_status: LimitStatus,
    pub move_status: MoveStatus,
    pub counter: nat,
    pub raster: Raster,
    pub path_img: Seq<char>,
}

impl View for ZmcManager {
    type V = SessionView;

    closed spec fn view(&self) -> SessionView {
        SessionView {
            state: self.state,
            parameters: self.parameters,
            polling: self.polling,
            limit_status: self.limit_status,
            move_status: self.move_status,
            counter: self.path_img_update_counter as nat,
            raster: self.bitmap@,
            path_img: self.path_img@,
        }
    }
}

/// The settings of the axis with the number `axis`, counted X, Y, Z.
pub open spec fn settings_of(p: Parameters, axis: u8) -> AxisParameters {
    if axis == 0 {
        p.x
    } else if axis == 1 {
        p.y
    } else {
        p.z
    }
}

/// The calls that set which inputs read inverted: the emergency stop, the
/// door switch, then the three forward and the three reverse limits.
pub open spec fn inversion_ops(p: Parameters) -> Seq<ControllerOp> {
    let limits = p.inverted_status.limit_io_level_inverted;
    seq![
        ControllerOp::SetInvertIn {
            io: p.emergency_stop_io,
            inverted: p.inverted_status.emergency_stop_level_inverted,
        },
        ControllerOp::SetInvertIn {
            io: p.door_switch_io,
            inverted: p.inverted_status.door_switch_level_inverted,
        },
        ControllerOp::SetInvertIn { io: p.x.positive_limit_io, inverted: limits },
        ControllerOp::SetInvertIn { io: p.y.positive_limit_io, inverted: limits },
        ControllerOp::SetInvertIn { io: p.z.positive_limit_io, inverted: limits },
        ControllerOp::SetInvertIn { io: p.x.negative_limit_io, inverted: limits },
        ControllerOp::SetInvertIn { io: p.y.negative_limit_io, inverted: limits },
        ControllerOp::SetInvertIn { io: p.z.negative_limit_io, inverted: limits },
    ]
}

/// The calls that set up the axis with the number `axis`. Its own settings
/// are those that stand at its number.
pub open spec fn axis_ops(p: Parameters, axis: u8) -> Seq<ControllerOp> {
    let own = settings_of(p, axis);
    seq![
        ControllerOp::SetAxisType { axis, kind: AXIS_TYPE },
        ControllerOp::SetAxisValue {
            axis,
            setting: AxisSetting::Speed,
            value: p.speed.processing_speed,
        },
        ControllerOp::SetAxisValue { axis, setting: AxisSetting::StartSpeed, value: 0 },
        ControllerOp::SetAxisValue {
            axis,
            setting: AxisSetting::Acceleration,
            value: p.speed.acceleration,
        },
        ControllerOp::SetAxisValue {
            axis,
            setting: AxisSetting::Deceleration,
            value: p.speed.deceleration,
        },
        ControllerOp::SetAxisValue { axis, setting: AxisSetting::SRamp, value: S_RAMP },
        ControllerOp::SetAxisValue {
            axis,
            setting: AxisSetting::Units,
            value: own.pulse_equivalent,
        },
        ControllerOp::SetAxisValue {
            axis,
            setting: AxisSetting::ForwardLimit,
            value: own.software_positive_limit,
        },
        ControllerOp::SetAxisValue {
            axis,
            setting: AxisSetting::ReverseLimit,
            value: own.software_negative_limit,
        },
        ControllerOp::SetAxisInput {
            axis,
            input: AxisInput::ForwardLimit,
            io: own.positive_limit_io,
        },
        ControllerOp::SetAxisInput {
            axis,
            input: AxisInput::ReverseLimit,
            io: own.negative_limit_io,
        },
        ControllerOp::SetAxisInput { axis, input: AxisInput::Alarm, io: p.emergency_stop_io },
    ]
}

/// Whether the three axis numbers of the settings are known.
pub open spec fn axes_known(p: Parameters) -> bool {
    p.x.axis_num <= 2 && p.y.axis_num <= 2 && p.z.axis_num <= 2
}

/// The calls that bring the settings to the controller.
pub open spec fn parameter_ops(p: Parameters) -> Seq<ControllerOp> {
    inversion_ops(p) + axis_ops(p, p.x.axis_num) + axis_ops(p, p.y.axis_num) + axis_ops(
        p,
        p.z.axis_num,
    )
}

/// The inputs that the limit status is read from, in the order of its flags.
pub open spec fn limit_inputs_of(p: Parameters) -> Seq<u16> {
    seq![
        p.emergency_stop_io,
        p.door_switch_io,
        p.x.positive_limit_io,
        p.x.negative_limit_io,
        p.y.positive_limit_io,
        p.y.negative_limit_io,
        p.z.positive_limit_io,
        p.z.negative_limit_io,
    ]
}

/// The calls that set the demand and the measured position of each axis to
/// zero.
pub open spec fn zeroing_ops(axes: Seq<u8>) -> Seq<ControllerOp>
    decreases axes.len(),
{
    if axes.len() == 0 {
        Seq::empty()
    } else {
        zeroing_ops(axes.drop_last()) + seq![
            ControllerOp::SetAxisValue {
                axis: axes.last(),
                setting: AxisSetting::DemandPosition,
                value: 0,
            },
            ControllerOp::SetAxisValue {
                axis: axes.last(),
                setting: AxisSetting::MeasuredPosition,
                value: 0,
            },
        ]
    }
}

/// The calls that set the converter's frequency.
pub open spec fn frequency_ops(freq: u32) -> Seq<ControllerOp> {
    seq![
        ControllerOp::WriteRegister {
            register: FREQUENCY_REGISTER,
            words: 1,
            content: freq as i32,
        },
        ControllerOp::Execute { command: ConverterCommand::ApplyFrequency },
    ]
}

/// The command that starts the converter.
pub open spec fn run_command(inverted: bool) -> ConverterCommand {
    if inverted {
        ConverterCommand::RunInverted
    } else {
        ConverterCommand::RunForward
    }
}

/// The direction in which an axis at this demand position seeks its datum:
/// from above if it stands above zero, from below if not.
pub open spec fn datum_direction(position: i64) -> i8 {
    if position > 0 {
        DATUM_FROM_ABOVE
    } else {
        DATUM_FROM_BELOW
    }
}

/// How many driver calls carry out an operation of the interpreter: two to
/// set the converter's frequency and two to send an axis home, one for
/// anything else.
pub open spec fn call_count(operation: Operation) -> nat {
    match operation {
        Operation::ConverterSetFreq { .. } => 2,
        Operation::Home { .. } => 2,
        _ => 1,
    }
}

/// Whether `call` is the driver call at this stage of an operation of the
/// interpreter. `datum` is what the call before it read; it counts for the
/// second call of homing, which goes by the demand position that the first
/// call read.
pub open spec fn is_call_of(
    call: ControllerOp,
    operation: Operation,
    stage: nat,
    datum: i64,
) -> bool {
    match operation {
        Operation::MoveAbs { axis, position } => call.is_move(true, seq![axis], seq![position]),
        Operation::SetSpeed { axis, speed } => call == (ControllerOp::SetAxisValue {
            axis,
            setting: AxisSetting::Speed,
            value: speed,
        }),
        Operation::ConverterRun { inverted } => call == (ControllerOp::Execute {
            command: run_command(inverted),
        }),
        Operation::ConverterSetFreq { freq } => call == frequency_ops(freq)[if stage == 0 {
            0int
        } else {
            1int
        }],
        Operation::ConverterStop => call == (ControllerOp::Execute {
            command: ConverterCommand::Stop,
        }),
        Operation::Home { axis } => if stage == 0 {
            call == (ControllerOp::ReadDemandPosition { axis })
        } else {
            call == (ControllerOp::Jog { axis, direction: datum_direction(datum) })
        },
    }
}

/// Whether the session refuses an operation of the interpreter for what it
/// asks, whatever the state of the controller.
pub open spec fn refused(operation: Operation) -> bool {
    operation matches Operation::SetSpeed { speed, .. } && speed < 0
}

impl SessionView {
    /// The session as it is made: without a controller, with zero settings
    /// and status, the polling off, and a fresh path raster.
    pub open spec fn fresh() -> SessionView {
        SessionView {
            state: SessionState::Uninitialized,
            parameters: Parameters::zero(),
            polling: false,
            limit_status: LimitStatus::zero(),
            move_status: MoveStatus::zero(),
            counter: 0,
            raster: Raster {
                width: PATH_SIZE as nat,
                height: PATH_SIZE as nat,
                pixels: fresh_pixels(PATH_SIZE as nat, PATH_SIZE as nat),
                scale: PATH_SCALE,
                origin_x: (PATH_SIZE / 2) as nat,
                origin_y: (PATH_SIZE / 2) as nat,
            },
            path_img: Seq::empty(),
        }
    }

    /// The raster is well formed.
    pub open spec fn wf(self) -> bool {
        self.raster.wf()
    }

    /// What a request that needs the open controller is answered with.
    pub open spec fn access(self) -> Result<(), SessionError> {
        match self.state {
            SessionState::Uninitialized => Err(SessionError::NotInitialized),
            SessionState::Closed => Err(SessionError::NotOpen),
            SessionState::Open => Ok(()),
        }
    }

    /// Whether a controller may be opened: one may unless one is open.
    pub open spec fn may_open(self) -> bool {
        self.state != SessionState::Open
    }

    /// The session after a report of the holder of the handle.
    pub open spec fn after_event(self, event: SessionEvent) -> SessionView {
        match event {
            SessionEvent::Opened => SessionView { state: SessionState::Open, ..self },
            SessionEvent::Closed => if self.state == SessionState::Open {
                SessionView { state: SessionState::Closed, ..self }
            } else {
                self
            },
            SessionEvent::Released => SessionView { state: SessionState::Uninitialized, ..self },
        }
    }

    /// Whether the next tick of the polling is a publishing tick.
    pub open spec fn publishes_next(self) -> bool {
        publishes_at(self.counter)
    }

    /// The session after a publishing tick: the count starts again, and the
    /// image is kept if there is one.
    pub open spec fn published(self, image: Result<String, ImageError>) -> SessionView {
        SessionView {
            counter: count_after_tick(self.counter),
            path_img: match image {
                Ok(text) => text@,
                Err(_) => self.path_img,
            },
            ..self
        }
    }

    /// The session after the axes were sampled: the motion status is what
    /// was read, and the tool position is plotted in the colour of its
    /// depth.
    pub open spec fn sampled(self, status: MoveStatus) -> SessionView {
        SessionView {
            move_status: status,
            raster: self.raster.plot(
                status.x.pos,
                status.y.pos,
                saturate(-(status.z.pos * DEPTH_GAIN)),
            ),
            ..self
        }
    }
}

/// No second controller is opened beside an open one: once a controller was
/// reported open, another may be opened only after it was reported closed or
/// let go. An open controller can be used, and no other.
pub proof fn lemma_one_open_controller(session: SessionView)
    ensures
        !session.after_event(SessionEvent::Opened).may_open(),
        session.after_event(SessionEvent::Opened).after_event(SessionEvent::Closed).may_open(),
        session.after_event(SessionEvent::Released).may_open(),
        session.access() is Ok <==> !session.may_open(),
{
}

/// Whether a tick at this count of sampling ticks is a publishing tick.
pub open spec fn publishes_at(counter: nat) -> bool {
    counter > UPDATE_COUNT
}

/// The count after a tick: one more after a sampling tick, none after a
/// publishing tick.
pub open spec fn count_after_tick(counter: nat) -> nat {
    if publishes_at(counter) {
        0
    } else {
        counter + 1
    }
}

/// The count after a number of ticks.
pub open spec fn count_after(counter: nat, ticks: nat) -> nat
    decreases ticks,
{
    if ticks == 0 {
        counter
    } else {
        count_after_tick(count_after(counter, (ticks - 1) as nat))
    }
}

/// From a count of none, every tick up to and with the one after
/// [`UPDATE_COUNT`] samples, and the count is the number of ticks.
pub proof fn lemma_polling_samples(ticks: nat)
    requires
        ticks <= UPDATE_COUNT + 1,
    ensures
        count_after(0, ticks) == ticks,
        ticks <= UPDATE_COUNT ==> !publishes_at(count_after(0, ticks)),
    decreases ticks,
{
    if ticks > 0 {
        lemma_polling_samples((ticks - 1) as nat);
    }
}

/// After [`UPDATE_COUNT`] and one sampling ticks the next tick publishes, and
/// the polling is where it started: one tick in twenty-two publishes.
pub proof fn lemma_polling_cadence()
    ensures
        publishes_at(count_after(0, (UPDATE_COUNT + 1) as nat)),
        count_after(0, (UPDATE_COUNT + 2) as nat) == 0,
{
    lemma_polling_samples((UPDATE_COUNT + 1) as nat);
    assert(count_after(0, (UPDATE_COUNT + 2) as nat) == count_after_tick(
        count_after(0, (UPDATE_COUNT + 1) as nat),
    ));
}

/// What a driver call read.
#[derive(Debug, Clone, Copy, PartialEq, Eq, Structural)]
pub enum Reading {
    /// The call reads nothing.
    Nothing,
    /// The state of an input, or whether an axis is at rest.
    Flag(bool),
    /// A position or a speed.
    Quantity(i64),
}

impl Reading {
    /// The quantity that was read; zero if none was.
    pub open spec fn quantity_of(self) -> i64 {
        match self {
            Reading::Quantity(value) => value,
            _ => 0,
        }
    }

    /// Computes [`Reading::quantity_of`].
    pub fn quantity(&self) -> (value: i64)
        ensures
            value == self.quantity_of(),
    {
        match self {
            Reading::Quantity(value) => *value,
            _ => 0,
        }
    }
}

/// What the run asks of the driver for the line at the cursor.
#[derive(Debug)]
pub enum LineStep {
    /// No run is active: nothing is due.
    Idle,
    /// Every call of the line was made. The driver waits for the axes and
    /// reports the line done.
    Finished,
    /// This call is due.
    Call(ControllerOp),
    /// The session refuses the call that is due. The driver reports it as
    /// failed.
    Refused(SessionError),
}

/// What a tick of the polling asks of the holder of the handle.
#[derive(Debug)]
pub enum PollStep {
    /// The polling is off.
    Stopped,
    /// The controller is not there or not open: the polling ends.
    Lost(SessionError),
    /// A publishing tick: the path image, if one could be made, and the
    /// motion status go out, and the limit inputs are to be read.
    Publish { image: Result<String, ImageError>, move_status: MoveStatus },
    /// A sampling tick: the motion of the three axes is to be read.
    Sample,
}

impl ConverterCommand {
    /// The text of the command as the controller takes it.
    pub fn text(&self) -> (text: &'static str)
        ensures
            text@ == match *self {
                ConverterCommand::RunForward => "MODBUSM_REGSET(99,1,2)"@,
                ConverterCommand::RunInverted => "MODBUSM_REGSET(99,1,0)"@,
                ConverterCommand::Stop => "MODBUSM_REGSET(99,1,1)"@,
                ConverterCommand::ApplyFrequency => "MODBUSM_REGSET(100,1,3)"@,
            },
    {
        match self {
            ConverterCommand::RunForward => "MODBUSM_REGSET(99,1,2)",
            ConverterCommand::RunInverted => "MODBUSM_REGSET(99,1,0)",
            ConverterCommand::Stop => "MODBUSM_REGSET(99,1,1)",
            ConverterCommand::ApplyFrequency => "MODBUSM_REGSET(100,1,3)",
        }
    }
}

impl SessionError {
    /// The error in words.
    pub fn message(&self) -> (text: &'static str)
        ensures
            text@ == match *self {
                SessionError::AlreadyOpen => "Controller is already initialized"@,
                SessionError::NotInitialized => "Controller is not initialized"@,
                SessionError::NotOpen => "Controller is not open"@,
                SessionError::LengthMismatch =>
                    "Axis list and position list must have the same length"@,
                SessionError::EmptyAxisList => "Axis list cannot be empty"@,
                SessionError::NegativeSpeed => "Speed cannot be negative"@,
                SessionError::UnknownAxis => "Axis number is not known"@,
                SessionError::WrongReadings => "Wrong number of input readings"@,
            },
    {
        match self {
            SessionError::AlreadyOpen => "Controller is already initialized",
            SessionError::NotInitialized => "Controller is not initialized",
            SessionError::NotOpen => "Controller is not open",
            SessionError::LengthMismatch => "Axis list and position list must have the same length",
            SessionError::EmptyAxisList => "Axis list cannot be empty",
            SessionError::NegativeSpeed => "Speed cannot be negative",
            SessionError::UnknownAxis => "Axis number is not known",
            SessionError::WrongReadings => "Wrong number of input readings",
        }
    }
}

/// Appends the calls that set up one axis.
fn push_axis_ops(ops: &mut Vec<ControllerOp>, p: &Parameters, axis: u8)
    requires
        axis <= 2,
    ensures
        final(ops)@ == old(ops)@ + axis_ops(*p, axis),
{
    let own = if axis == 0 {
        p.x
    } else if axis == 1 {
        p.y
    } else {
        p.z
    };
    ops.push(ControllerOp::SetAxisType { axis, kind: AXIS_TYPE });
    ops.push(
        ControllerOp::SetAxisValue {
            axis,
            setting: AxisSetting::Speed,
            value: p.speed.processing_speed,
        },
    );
    ops.push(ControllerOp::SetAxisValue { axis, setting: AxisSetting::StartSpeed, value: 0 });
    ops.push(
        ControllerOp::SetAxisValue {
            axis,
            setting: AxisSetting::Acceleration,
            value: p.speed.acceleration,
        },
    );
    ops.push(
        ControllerOp::SetAxisValue {
            axis,
            setting: AxisSetting::Deceleration,
            value: p.speed.deceleration,
        },
    );
    ops.push(ControllerOp::SetAxisValue { axis, setting: AxisSetting::SRamp, value: S_RAMP });
    ops.push(
        ControllerOp::SetAxisValue {
            axis,
            setting: AxisSetting::Units,
            value: own.pulse_equivalent,
        },
    );
    ops.push(
        ControllerOp::SetAxisValue {
            axis,
            setting: AxisSetting::ForwardLimit,
            value: own.software_positive_limit,
        },
    );
    ops.push(
        ControllerOp::SetAxisValue {
            axis,
            setting: AxisSetting::ReverseLimit,
            value: own.software_negative_limit,
        },
    );
    ops.push(
        ControllerOp::SetAxisInput {
            axis,
            input: AxisInput::ForwardLimit,
            io: own.positive_limit_io,
        },
    );
    ops.push(
        ControllerOp::SetAxisInput {
            axis,
            input: AxisInput::ReverseLimit,
            io: own.negative_limit_io,
        },
    );
    ops.push(ControllerOp::SetAxisInput { axis, input: AxisInput::Alarm, io: p.emergency_stop_io });
    assert(ops@ =~= old(ops)@ + axis_ops(*p, axis));
}

/// The calls that set which inputs read inverted.
fn inversion_calls(p: &Parameters) -> (ops: Vec<ControllerOp>)
    ensures
        ops@ == inversion_ops(*p),
{
    let limits = p.inverted_status.limit_io_level_inverted;
    let mut ops: Vec<ControllerOp> = Vec::new();
    ops.push(
        ControllerOp::SetInvertIn {
            io: p.emergency_stop_io,
            inverted: p.inverted_status.emergency_stop_level_inverted,
        },
    );
    ops.push(
        ControllerOp::SetInvertIn {
            io: p.door_switch_io,
            inverted: p.inverted_status.door_switch_level_inverted,
        },
    );
    ops.push(ControllerOp::SetInvertIn { io: p.x.positive_limit_io, inverted: limits });
    ops.push(ControllerOp::SetInvertIn { io: p.y.positive_limit_io, inverted: limits });
    ops.push(ControllerOp::SetInvertIn { io: p.z.positive_limit_io, inverted: limits });
    ops.push(ControllerOp::SetInvertIn { io: p.x.negative_limit_io, inverted: limits });
    ops.push(ControllerOp::SetInvertIn { io: p.y.negative_limit_io, inverted: limits });
    ops.push(ControllerOp::SetInvertIn { io: p.z.negative_limit_io, inverted: limits });
    assert(ops@ =~= inversion_ops(*p));
    ops
}

impl ZmcManager {
    /// See [`SessionView::wf`].
    pub open spec fn wf(&self) -> bool {
        self@.wf()
    }

    /// A manager without a controller, with zero settings and a fresh path
    /// raster.
    pub fn new() -> (manager: Self)
        ensures
            manager.wf(),
            manager@ == SessionView::fresh(),
    {
        ZmcManager {
            state: SessionState::Uninitialized,
            parameters: Parameters::default(),
            polling: false,
            limit_status: LimitStatus::default(),
            move_status: MoveStatus::default(),
            path_img_update_counter: 0,
            bitmap: Bitmap::new(PATH_SIZE, PATH_SIZE, PATH_SCALE),
            path_img: String::new(),
        }
    }

    /// Where the handle stands.
    pub fn state(&self) -> (state: SessionState)
        ensures
            state == self@.state,
    {
        self.state
    }

    /// The settings.
    pub fn parameters(&self) -> (parameters: Parameters)
        ensures
            parameters == self@.parameters,
    {
        self.parameters
    }

    /// The limit status as it was last read.
    pub fn limit_status(&self) -> (status: LimitStatus)
        ensures
            status == self@.limit_status,
    {
        self.limit_status
    }

    /// The motion status as it was last read.
    pub fn move_status(&self) -> (status: MoveStatus)
        ensures
            status == self@.move_status,
    {
        self.move_status
    }

    /// Whether the polling is on.
    pub fn is_polling(&self) -> (polling: bool)
        ensures
            polling == self@.polling,
    {
        self.polling
    }

    /// The path image as it was last published; empty before the first.
    pub fn path_img(&self) -> (image: &str)
        ensures
            image@ == self@.path_img,
    {
        self.path_img.as_str()
    }

    /// The path raster.
    pub fn bitmap(&self) -> (bitmap: &Bitmap)
        ensures
            bitmap@ == self@.raster,
    {
        &self.bitmap
    }

    /// Says whether a controller may be opened now: it may unless one is
    /// open. Then the request is handed back, to be carried out. Nothing
    /// changes until the holder of the handle reports that it was opened.
    pub fn init(&self, controller_type: ControllerType) -> (request: Result<
        ControllerType,
        SessionError,
    >)
        ensures
            request == if self@.may_open() {
                Ok::<ControllerType, SessionError>(controller_type)
            } else {
                Err::<ControllerType, SessionError>(SessionError::AlreadyOpen)
            },
    {
        match self.state {
            SessionState::Open => Err(SessionError::AlreadyOpen),
            _ => Ok(controller_type),
        }
    }

    /// Starts to take the session down. An open controller has to be closed
    /// first: then the call to make is handed out, and the handle is let go
    /// once the holder reports that. In any other state the handle, if there
    /// is one, is let go at once.
    pub fn deinit(&mut self) -> (call: Option<ControllerOp>)
        ensures
            old(self)@.state == SessionState::Open ==> call == Some(ControllerOp::Close)
                && final(self)@ == old(self)@,
            old(self)@.state != SessionState::Open ==> call is None && final(self)@ == (
            SessionView { state: SessionState::Uninitialized, ..old(self)@ }),
    {
        match self.state {
            SessionState::Open => Some(ControllerOp::Close),
            _ => {
                self.state = SessionState::Uninitialized;
                None
            },
        }
    }

    /// Hears from the holder of the handle that it was opened, closed or let
    /// go.
    pub fn handle_event(&mut self, event: SessionEvent)
        ensures
            final(self)@ == old(self)@.after_event(event),
    {
        match event {
            SessionEvent::Opened => {
                self.state = SessionState::Open;
            },
            SessionEvent::Closed => {
                if self.state == SessionState::Open {
                    self.state = SessionState::Closed;
                }
            },
            SessionEvent::Released => {
                self.state = SessionState::Uninitialized;
            },
        }
    }

    /// Says whether the controller can be used: it can when it is there and
    /// open.
    pub fn with_controller(&self) -> (access: Result<(), SessionError>)
        ensures
            access == self@.access(),
    {
        match self.state {
            SessionState::Uninitialized => Err(SessionError::NotInitialized),
            SessionState::Closed => Err(SessionError::NotOpen),
            SessionState::Open => Ok(()),
        }
    }

    /// Switches the polling on.
    pub fn start_polling(&mut self)
        ensures
            final(self)@ == (SessionView { polling: true, ..old(self)@ }),
    {
        self.polling = true;
    }

    /// Switches the polling off.
    pub fn stop_polling(&mut self)
        ensures
            final(self)@ == (SessionView { polling: false, ..old(self)@ }),
    {
        self.polling = false;
    }

    /// Clears the path raster and takes back the published image.
    pub fn clear_path(&mut self)
        requires
            old(self).wf(),
        ensures
            final(self).wf(),
            final(self)@ == (SessionView {
                raster: Raster {
                    pixels: blank_pixels(old(self)@.raster.width, old(self)@.raster.height),
                    ..old(self)@.raster
                },
                path_img: Seq::<char>::empty(),
                ..old(self)@
            }),
    {
        self.bitmap.clear();
        self.path_img = String::new();
    }

    /// A publishing tick: the path raster is encoded, the image is kept if
    /// there is one, and the count starts again.
    fn publish(&mut self) -> (step: PollStep)
        requires
            old(self).wf(),
            old(self)@.publishes_next(),
        ensures
            final(self).wf(),
            step matches PollStep::Publish { image, move_status } && {
                &&& move_status == old(self)@.move_status
                &&& old(self)@.raster.image_is(image)
                &&& final(self)@ == old(self)@.published(image)
            },
    {
        let image = self.bitmap.to_data_url();
        self.path_img_update_counter = 0;
        match &image {
            Ok(text) => {
                self.path_img = text.clone();
            },
            Err(_) => {},
        }
        PollStep::Publish { image, move_status: self.move_status }
    }

    /// One tick of the polling.
    ///
    /// With the polling off nothing happens. Without an open controller the
    /// polling ends. Otherwise, after more than [`UPDATE_COUNT`] sampling
    /// ticks in a row comes a publishing tick, which starts the count again:
    /// it encodes the path raster, keeps the image if there is one, and hands
    /// it out with the motion status. Every other tick is a sampling tick.
    pub fn poll_tick(&mut self) -> (step: PollStep)
        requires
            old(self).wf(),
        ensures
            final(self).wf(),
            match step {
                PollStep::Stopped => {
                    &&& !old(self)@.polling
                    &&& final(self)@ == old(self)@
                },
                PollStep::Lost(e) => {
                    &&& old(self)@.polling
                    &&& old(self)@.access() == Err::<(), SessionError>(e)
                    &&& final(self)@ == (SessionView { polling: false, ..old(self)@ })
                },
                PollStep::Sample => {
                    &&& old(self)@.polling
                    &&& old(self)@.access() is Ok
                    &&& !old(self)@.publishes_next()
                    &&& final(self)@ == (SessionView {
                        counter: count_after_tick(old(self)@.counter),
                        ..old(self)@
                    })
                },
                PollStep::Publish { image, move_status } => {
                    &&& old(self)@.polling
                    &&& old(self)@.access() is Ok
                    &&& old(self)@.publishes_next()
                    &&& move_status == old(self)@.move_status
                    &&& old(self)@.raster.image_is(image)
                    &&& final(self)@ == old(self)@.published(image)
                },
            },
    {
        if !self.polling {
            return PollStep::Stopped;
        }
        match self.with_controller() {
            Err(e) => {
                self.polling = false;
                return PollStep::Lost(e);
            },
            Ok(_) => {},
        }
        if self.path_img_update_counter > UPDATE_COUNT {
            self.publish()
        } else {
            self.path_img_update_counter = self.path_img_update_counter + 1;
            PollStep::Sample
        }
    }

    /// The inputs to read on a publishing tick, in the order of the flags of
    /// the limit status.
    pub fn limit_inputs(&self) -> (inputs: Vec<u16>)
        ensures
            inputs@ == limit_inputs_of(self@.parameters),
    {
        let p = &self.parameters;
        let mut inputs: Vec<u16> = Vec::new();
        inputs.push(p.emergency_stop_io);
        inputs.push(p.door_switch_io);
        inputs.push(p.x.positive_limit_io);
        inputs.push(p.x.negative_limit_io);
        inputs.push(p.y.positive_limit_io);
        inputs.push(p.y.negative_limit_io);
        inputs.push(p.z.positive_limit_io);
        inputs.push(p.z.negative_limit_io);
        assert(inputs@ =~= limit_inputs_of(self@.parameters));
        inputs
    }

    /// The axis numbers to sample on a sampling tick: X, Y, Z.
    pub fn sampled_axes(&self) -> (axes: (u8, u8, u8))
        ensures
            axes == (
                self@.parameters.x.axis_num,
                self@.parameters.y.axis_num,
                self@.parameters.z.axis_num,
            ),
    {
        (self.parameters.x.axis_num, self.parameters.y.axis_num, self.parameters.z.axis_num)
    }

    /// Takes the readings of the limit inputs, in the order in which
    /// [`ZmcManager::limit_inputs`] asked for them. Readings of another
    /// number are refused and change nothing.
    pub fn update_limit_status(&mut self, readings: &Vec<bool>) -> (taken: Result<
        (),
        SessionError,
    >)
        ensures
            readings@.len() != 8 ==> taken == Err::<(), SessionError>(
                SessionError::WrongReadings,
            ) && final(self)@ == old(self)@,
            readings@.len() == 8 ==> taken is Ok && final(self)@ == (SessionView {
                limit_status: LimitStatus {
                    emergency_stop: readings@[0],
                    door_switch: readings@[1],
                    x_plus: readings@[2],
                    x_minus: readings@[3],
                    y_plus: readings@[4],
                    y_minus: readings@[5],
                    z_plus: readings@[6],
                    z_minus: readings@[7],
                },
                ..old(self)@
            }),
    {
        if readings.len() != 8 {
            return Err(SessionError::WrongReadings);
        }
        self.limit_status = LimitStatus::new(
            readings[0],
            readings[1],
            readings[2],
            readings[3],
            readings[4],
            readings[5],
            readings[6],
            readings[7],
        );
        Ok(())
    }

    /// Takes the motion of the three axes as it was read, and plots the tool
    /// position on the path raster.
    pub fn update_move_status(&mut self, status: MoveStatus)
        requires
            old(self).wf(),
        ensures
            final(self).wf(),
            final(self)@ == old(self)@.sampled(status),
    {
        self.move_status = status;
        let depth = saturate_i128(-((status.z.pos as i128) * (DEPTH_GAIN as i128)));
        self.bitmap.set_pixel(status.x.pos, status.y.pos, depth);
    }
}

/// Starts a run, unless the controller is not open or a run is active.
pub fn start_gcode_execution(runner: &mut GCodeManager, session: &ZmcManager) -> (started: Result<
    (),
    RunError,
>)
    ensures
        session@.access() is Err ==> started == Err::<(), RunError>(RunError::ControllerNotOpen)
            && final(runner)@ == old(runner)@,
        session@.access() is Ok && old(runner)@.running ==> started == Err::<(), RunError>(
            RunError::AlreadyRunning,
        ) && final(runner)@ == old(runner)@,
        session@.access() is Ok && !old(runner)@.running ==> started is Ok && final(runner)@
            == old(runner)@.started(),
{
    match session.with_controller() {
        Err(_) => Err(RunError::ControllerNotOpen),
        Ok(_) => runner.start(),
    }
}

/// Ends the polling and says how to close the controller: with the one call
/// that closes it, if it is there and open. The polling ends either way.
pub fn zmc_close(manager: &mut ZmcManager) -> (call: Result<ControllerOp, SessionError>)
    ensures
        final(manager)@ == (SessionView { polling: false, ..old(manager)@ }),
        call == match old(manager)@.access() {
            Err(e) => Err::<ControllerOp, SessionError>(e),
            Ok(_) => Ok::<ControllerOp, SessionError>(ControllerOp::Close),
        },
{
    manager.stop_polling();
    match manager.with_controller() {
        Err(e) => Err(e),
        Ok(_) => Ok(ControllerOp::Close),
    }
}

/// Takes new settings, and says which calls bring them to the controller.
///
/// The settings are kept whether or not the controller can be reached.
/// Settings with an axis number above two are kept too, and no call is made
/// for them.
pub fn zmc_set_parameters(manager: &mut ZmcManager, params: Parameters) -> (calls: Result<
    Vec<ControllerOp>,
    SessionError,
>)
    ensures
        final(manager)@ == (SessionView { parameters: params, ..old(manager)@ }),
        old(manager)@.access() matches Err(e) ==> calls == Err::<Vec<ControllerOp>, SessionError>(
            e,
        ),
        old(manager)@.access() is Ok && !axes_known(params) ==> calls == Err::<
            Vec<ControllerOp>,
            SessionError,
        >(SessionError::UnknownAxis),
        old(manager)@.access() is Ok && axes_known(params) ==> (calls matches Ok(ops) && ops@
            == parameter_ops(params)),
{
    manager.parameters = params;
    match manager.with_controller() {
        Err(e) => {
            return Err(e);
        },
        Ok(_) => {},
    }
    if params.x.axis_num > 2 || params.y.axis_num > 2 || params.z.axis_num > 2 {
        return Err(SessionError::UnknownAxis);
    }
    let mut ops = inversion_calls(&params);
    push_axis_ops(&mut ops, &params, params.x.axis_num);
    push_axis_ops(&mut ops, &params, params.y.axis_num);
    push_axis_ops(&mut ops, &params, params.z.axis_num);
    Ok(ops)
}

/// The call that reads whether an axis is at rest.
pub fn zmc_get_idle(manager: &ZmcManager, axis: u8) -> (call: Result<ControllerOp, SessionError>)
    ensures
        call == match manager@.access() {
            Err(e) => Err::<ControllerOp, SessionError>(e),
            Ok(_) => Ok::<ControllerOp, SessionError>(ControllerOp::ReadIdle { axis }),
        },
{
    match manager.with_controller() {
        Err(e) => Err(e),
        Ok(_) => Ok(ControllerOp::ReadIdle { axis }),
    }
}

/// The call that moves axes together to absolute positions.
pub fn zmc_move_abs(manager: &ZmcManager, axis_list: Vec<u8>, pos_list: Vec<i64>) -> (call: Result<
    ControllerOp,
    SessionError,
>)
    ensures
        match manager@.access() {
            Err(e) => call == Err::<ControllerOp, SessionError>(e),
            Ok(_) => (call matches Ok(op) && op.is_move(true, axis_list@, pos_list@)),
        },
{
    match manager.with_controller() {
        Err(e) => Err(e),
        Ok(_) => {
            let count: u8 = (axis_list.len() % 256) as u8;
            Ok(ControllerOp::Move { absolute: true, count, axes: axis_list, positions: pos_list })
        },
    }
}

/// The call that moves axes together by distances. The two lists must be of
/// one length, and not empty.
pub fn zmc_move(manager: &ZmcManager, axis_list: Vec<u8>, pos_list: Vec<i64>) -> (call: Result<
    ControllerOp,
    SessionError,
>)
    ensures
        axis_list@.len() != pos_list@.len() ==> call == Err::<ControllerOp, SessionError>(
            SessionError::LengthMismatch,
        ),
        axis_list@.len() == pos_list@.len() && axis_list@.len() == 0 ==> call == Err::<
            ControllerOp,
            SessionError,
        >(SessionError::EmptyAxisList),
        axis_list@.len() == pos_list@.len() && axis_list@.len() > 0 ==> match manager@.access() {
            Err(e) => call == Err::<ControllerOp, SessionError>(e),
            Ok(_) => (call matches Ok(op) && op.is_move(false, axis_list@, pos_list@)),
        },
{
    if axis_list.len() != pos_list.len() {
        return Err(SessionError::LengthMismatch);
    }
    if axis_list.len() == 0 {
        return Err(SessionError::EmptyAxisList);
    }
    match manager.with_controller() {
        Err(e) => Err(e),
        Ok(_) => {
            let count: u8 = (axis_list.len() % 256) as u8;
            Ok(ControllerOp::Move { absolute: false, count, axes: axis_list, positions: pos_list })
        },
    }
}

/// The call that sets the speed of an axis. A speed below zero is refused.
pub fn zmc_set_speed(manager: &ZmcManager, axis: u8, speed: i64) -> (call: Result<
    ControllerOp,
    SessionError,
>)
    ensures
        call == if speed < 0 {
            Err::<ControllerOp, SessionError>(SessionError::NegativeSpeed)
        } else {
            match manager@.access() {
                Err(e) => Err::<ControllerOp, SessionError>(e),
                Ok(_) => Ok::<ControllerOp, SessionError>(
                    ControllerOp::SetAxisValue { axis, setting: AxisSetting::Speed, value: speed },
                ),
            }
        },
{
    if speed < 0 {
        return Err(SessionError::NegativeSpeed);
    }
    match manager.with_controller() {
        Err(e) => Err(e),
        Ok(_) => Ok(ControllerOp::SetAxisValue { axis, setting: AxisSetting::Speed, value: speed }),
    }
}

/// The calls that set the converter's frequency: the register is written,
/// then the converter is told to take it.
pub fn zmc_converter_set_freq(manager: &ZmcManager, freq: u32) -> (calls: Result<
    Vec<ControllerOp>,
    SessionError,
>)
    ensures
        match manager@.access() {
            Err(e) => calls == Err::<Vec<ControllerOp>, SessionError>(e),
            Ok(_) => (calls matches Ok(ops) && ops@ == frequency_ops(freq)),
        },
{
    match manager.with_controller() {
        Err(e) => Err(e),
        Ok(_) => {
            let mut ops: Vec<ControllerOp> = Vec::new();
            ops.push(
                ControllerOp::WriteRegister {
                    register: FREQUENCY_REGISTER,
                    words: 1,
                    content: #[verifier::truncate]
                    (freq as i32),
                },
            );
            ops.push(ControllerOp::Execute { command: ConverterCommand::ApplyFrequency });
            assert(ops@ =~= frequency_ops(freq));
            Ok(ops)
        },
    }
}

/// The call that starts the converter, in the inverted direction or not.
pub fn zmc_converter_run(manager: &ZmcManager, inverted: bool) -> (call: Result<
    ControllerOp,
    SessionError,
>)
    ensures
        call == match manager@.access() {
            Err(e) => Err::<ControllerOp, SessionError>(e),
            Ok(_) => Ok::<ControllerOp, SessionError>(
                ControllerOp::Execute { command: run_command(inverted) },
            ),
        },
{
    match manager.with_controller() {
        Err(e) => Err(e),
        Ok(_) => Ok(
            ControllerOp::Execute {
                command: if inverted {
                    ConverterCommand::RunInverted
                } else {
                    ConverterCommand::RunForward
                },
            },
        ),
    }
}

/// The call that stops the converter.
pub fn zmc_converter_stop(manager: &ZmcManager) -> (call: Result<ControllerOp, SessionError>)
    ensures
        call == match manager@.access() {
            Err(e) => Err::<ControllerOp, SessionError>(e),
            Ok(_) => Ok::<ControllerOp, SessionError>(
                ControllerOp::Execute { command: ConverterCommand::Stop },
            ),
        },
{
    match manager.with_controller() {
        Err(e) => Err(e),
        Ok(_) => Ok(ControllerOp::Execute { command: ConverterCommand::Stop }),
    }
}

/// The call that sets whether an input reads inverted.
pub fn zmc_set_in_inverted(manager: &ZmcManager, in_num: u16, inverted: bool) -> (call: Result<
    ControllerOp,
    SessionError,
>)
    ensures
        call == match manager@.access() {
            Err(e) => Err::<ControllerOp, SessionError>(e),
            Ok(_) => Ok::<ControllerOp, SessionError>(
                ControllerOp::SetInvertIn { io: in_num, inverted },
            ),
        },
{
    match manager.with_controller() {
        Err(e) => Err(e),
        Ok(_) => Ok(ControllerOp::SetInvertIn { io: in_num, inverted }),
    }
}

/// The call that jogs an axis in a direction.
pub fn zmc_manual_move(manager: &ZmcManager, axis: u8, direction: i8) -> (call: Result<
    ControllerOp,
    SessionError,
>)
    ensures
        call == match manager@.access() {
            Err(e) => Err::<ControllerOp, SessionError>(e),
            Ok(_) => Ok::<ControllerOp, SessionError>(ControllerOp::Jog { axis, direction }),
        },
{
    match manager.with_controller() {
        Err(e) => Err(e),
        Ok(_) => Ok(ControllerOp::Jog { axis, direction }),
    }
}

/// The call that ends the jog of an axis.
pub fn zmc_manual_stop(manager: &ZmcManager, axis: u8) -> (call: Result<ControllerOp, SessionError>)
    ensures
        call == match manager@.access() {
            Err(e) => Err::<ControllerOp, SessionError>(e),
            Ok(_) => Ok::<ControllerOp, SessionError>(
                ControllerOp::Cancel { axis, mode: CANCEL_MODE },
            ),
        },
{
    match manager.with_controller() {
        Err(e) => Err(e),
        Ok(_) => Ok(ControllerOp::Cancel { axis, mode: CANCEL_MODE }),
    }
}

/// The call that reads the demand position of an axis.
pub fn zmc_get_axis_position(manager: &ZmcManager, axis: u8) -> (call: Result<
    ControllerOp,
    SessionError,
>)
    ensures
        call == match manager@.access() {
            Err(e) => Err::<ControllerOp, SessionError>(e),
            Ok(_) => Ok::<ControllerOp, SessionError>(ControllerOp::ReadDemandPosition { axis }),
        },
{
    match manager.with_controller() {
        Err(e) => Err(e),
        Ok(_) => Ok(ControllerOp::ReadDemandPosition { axis }),
    }
}

/// The call that sends an axis to seek its datum, given the demand position
/// that was read from it: an axis above zero seeks it from above, any other
/// from below.
pub fn zmc_datum(manager: &ZmcManager, axis: u8, position: i64) -> (call: Result<
    ControllerOp,
    SessionError,
>)
    ensures
        call == match manager@.access() {
            Err(e) => Err::<ControllerOp, SessionError>(e),
            Ok(_) => Ok::<ControllerOp, SessionError>(
                ControllerOp::Jog { axis, direction: datum_direction(position) },
            ),
        },
{
    match manager.with_controller() {
        Err(e) => Err(e),
        Ok(_) => Ok(
            ControllerOp::Jog {
                axis,
                direction: if position > 0 {
                    DATUM_FROM_ABOVE
                } else {
                    DATUM_FROM_BELOW
                },
            },
        ),
    }
}

/// The calls that make the present position of each listed axis its zero.
pub fn zmc_set_zero(manager: &ZmcManager, axis_list: &Vec<u8>) -> (calls: Result<
    Vec<ControllerOp>,
    SessionError,
>)
    ensures
        match manager@.access() {
            Err(e) => calls == Err::<Vec<ControllerOp>, SessionError>(e),
            Ok(_) => (calls matches Ok(ops) && ops@ == zeroing_ops(axis_list@)),
        },
{
    match manager.with_controller() {
        Err(e) => {
            return Err(e);
        },
        Ok(_) => {},
    }
    let mut ops: Vec<ControllerOp> = Vec::new();
    let mut k: usize = 0;
    while k < axis_list.len()
        invariant
            k <= axis_list.len(),
            ops@ == zeroing_ops(axis_list@.take(k as int)),
        decreases axis_list.len() - k,
    {
        proof {
            let next = axis_list@.take(k + 1);
            assert(next.drop_last() =~= axis_list@.take(k as int));
            assert(next.last() == axis_list@[k as int]);
        }
        let ghost before = ops@;
        let axis = axis_list[k];
        ops.push(
            ControllerOp::SetAxisValue { axis, setting: AxisSetting::DemandPosition, value: 0 },
        );
        ops.push(
            ControllerOp::SetAxisValue { axis, setting: AxisSetting::MeasuredPosition, value: 0 },
        );
        assert(ops@ =~= before + seq![
            ControllerOp::SetAxisValue { axis, setting: AxisSetting::DemandPosition, value: 0 },
            ControllerOp::SetAxisValue { axis, setting: AxisSetting::MeasuredPosition, value: 0 },
        ]);
        k += 1;
    }
    proof {
        assert(axis_list@.take(k as int) =~= axis_list@);
    }
    Ok(ops)
}

/// The driver call at this stage of an operation of the interpreter.
///
/// A speed below zero is refused. Every other operation is refused only
/// when the controller is not open.
pub fn operation_call(
    manager: &ZmcManager,
    operation: Operation,
    stage: usize,
    datum: i64,
) -> (call: Result<ControllerOp, SessionError>)
    ensures
        refused(operation) ==> call == Err::<ControllerOp, SessionError>(
            SessionError::NegativeSpeed,
        ),
        !refused(operation) ==> match manager@.access() {
            Err(e) => call == Err::<ControllerOp, SessionError>(e),
            Ok(_) => (call matches Ok(op) && is_call_of(op, operation, stage as nat, datum)),
        },
{
    match operation {
        Operation::MoveAbs { axis, position } => {
            let mut axes: Vec<u8> = Vec::new();
            axes.push(axis);
            let mut positions: Vec<i64> = Vec::new();
            positions.push(position);
            proof {
                assert(axes@ =~= seq![axis]);
                assert(positions@ =~= seq![position]);
            }
            zmc_move_abs(manager, axes, positions)
        },
        Operation::SetSpeed { axis, speed } => zmc_set_speed(manager, axis, speed),
        Operation::ConverterRun { inverted } => zmc_converter_run(manager, inverted),
        Operation::ConverterSetFreq { freq } => match manager.with_controller() {
            Err(e) => Err(e),
            Ok(_) => if stage == 0 {
                Ok(
                    ControllerOp::WriteRegister {
                        register: FREQUENCY_REGISTER,
                        words: 1,
                        content: #[verifier::truncate]
                        (freq as i32),
                    },
                )
            } else {
                Ok(ControllerOp::Execute { command: ConverterCommand::ApplyFrequency })
            },
        },
        Operation::ConverterStop => zmc_converter_stop(manager),
        Operation::Home { axis } => if stage == 0 {
            zmc_get_axis_position(manager, axis)
        } else {
            zmc_datum(manager, axis, datum)
        },
    }
}

/// Says what the run asks of the driver for the line at the cursor: the next
/// driver call, if one is due and the session allows it.
///
/// Outside a run nothing is due. When every call of the line was made, the
/// line is finished but for the wait for the axes. A call that the session
/// refuses is to be reported as failed, like one on which the driver failed.
pub fn next_call(runner: &GCodeManager, session: &ZmcManager) -> (step: LineStep)
    ensures
        match runner@.line_state() {
            LineState::Idle => step is Idle,
            LineState::Finished => step is Finished,
            LineState::Pending { operation, stage, datum } => if refused(operation) {
                step == LineStep::Refused(SessionError::NegativeSpeed)
            } else {
                match session@.access() {
                    Err(e) => step == LineStep::Refused(e),
                    Ok(_) => (step matches LineStep::Call(call) && is_call_of(
                        call,
                        operation,
                        stage as nat,
                        datum,
                    )),
                }
            },
        },
{
    match runner.line_state() {
        LineState::Idle => LineStep::Idle,
        LineState::Finished => LineStep::Finished,
        LineState::Pending { operation, stage, datum } => match operation_call(
            session,
            operation,
            stage,
            datum,
        ) {
            Ok(call) => LineStep::Call(call),
            Err(e) => LineStep::Refused(e),
        },
    }
}

} // verus!
