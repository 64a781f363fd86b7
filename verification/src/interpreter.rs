//! The command interpreter: what one parsed command asks of the controller
//! session, how it is described, and what it does to the interpreter's
//! context.
//!
//! Interpretation itself touches no hardware. It yields the operations in the
//! order in which they are to be issued; whoever issues them stops at the
//! first one that fails.
use crate::command::{first_value, has_letter, last_value, CommandView, GCodeCommand, MICRO};
use vstd::prelude::*;

verus! {

/// The axis number of X on the controller.
pub const AXIS_X: u8 = 0;

/// The axis number of Y on the controller.
pub const AXIS_Y: u8 = 1;

/// The axis number of Z on the controller.
pub const AXIS_Z: u8 = 2;

/// One request to the controller session.
#[derive(Debug, Clone, Copy, PartialEq, Eq, Structural)]
pub enum Operation {
    /// Move one axis to an absolute position.
    MoveAbs { axis: u8, position: i64 },
    /// Set the speed of one axis.
    SetSpeed { axis: u8, speed: i64 },
    /// Start the converter, in the inverted direction or not.
    ConverterRun { inverted: bool },
    /// Set the converter's frequency.
    ConverterSetFreq { freq: u32 },
    /// Stop the converter.
    ConverterStop,
    /// Send one axis to seek its datum.
    Home { axis: u8 },
}

/// How coordinates of later moves are to be read.
#[derive(Debug, Clone, Copy, PartialEq, Eq, Structural)]
pub enum PositioningMode {
    Absolute,
    Relative,
}

/// What the interpreter last asked of the spindle. Nothing is read back from
/// the converter.
#[derive(Debug, Clone, Copy, PartialEq, Eq, Structural)]
pub struct SpindleState {
    pub running: bool,
    pub inverted: bool,
    pub frequency: u32,
}

/// What the interpreter carries from one command to the next.
#[derive(Debug, Clone, Copy, PartialEq, Eq, Structural)]
pub struct InterpreterContext {
    pub x: i64,
    pub y: i64,
    pub z: i64,
    pub positioning: PositioningMode,
    pub spindle: SpindleState,
    pub paused: bool,
}

/// The description of a command, for the execution trace.
#[derive(Debug, Clone, Copy, PartialEq, Eq, Structural)]
pub enum Movement {
    RapidMove,
    LinearMove,
    Arc { clockwise: bool, center_offsets: bool, radius: Option<i64> },
    Dwell { duration: i64 },
    Home { x: bool, y: bool, z: bool },
    /// The line is no command: it was passed over.
    NoCommand,
    AbsolutePositioning,
    RelativePositioning,
    SetPosition,
    UnknownG { number: i32 },
    EmergencyStop,
    Pause,
    SpindleOn { counterclockwise: bool, speed: Option<i64> },
    SpindleStop,
    StopIdleHold,
    ExtruderTemperature { degrees: i64, wait: bool },
    BedTemperature { degrees: i64, wait: bool },
    OtherState { number: i32 },
    NonMovement,
}

/// What interpreting one command yields.
#[derive(Debug)]
pub struct Interpretation {
    pub operations: Vec<Operation>,
    pub movement: Movement,
}

/// The frequency that a spindle speed word asks for: its whole part, held to
/// the range of the converter's register.
pub open spec fn spindle_frequency(value: i64) -> u32 {
    if value < 0 {
        0u32
    } else if value / MICRO > u32::MAX {
        u32::MAX
    } else {
        (value / MICRO) as u32
    }
}

/// The operations of one parameter word of a move.
pub open spec fn word_operations(word: (char, i64)) -> Seq<Operation> {
    if word.0 == 'X' {
        seq![Operation::MoveAbs { axis: AXIS_X, position: word.1 }]
    } else if word.0 == 'Y' {
        seq![Operation::MoveAbs { axis: AXIS_Y, position: word.1 }]
    } else if word.0 == 'Z' {
        seq![Operation::MoveAbs { axis: AXIS_Z, position: word.1 }]
    } else if word.0 == 'F' {
        seq![
            Operation::SetSpeed { axis: AXIS_X, speed: word.1 },
            Operation::SetSpeed { axis: AXIS_Y, speed: word.1 },
            Operation::SetSpeed { axis: AXIS_Z, speed: word.1 },
        ]
    } else {
        Seq::empty()
    }
}

/// The operations of a move: those of its words, in the order of the words.
pub open spec fn move_operations(parameters: Seq<(char, i64)>) -> Seq<Operation>
    decreases parameters.len(),
{
    if parameters.len() == 0 {
        Seq::empty()
    } else {
        move_operations(parameters.drop_last()) + word_operations(parameters.last())
    }
}

/// The letter of the axis with this number.
pub open spec fn axis_letter(axis: u8) -> char {
    if axis == AXIS_X {
        'X'
    } else if axis == AXIS_Y {
        'Y'
    } else {
        'Z'
    }
}

/// Whether the words hold this letter with this value.
pub open spec fn has_word(parameters: Seq<(char, i64)>, letter: char, value: i64) -> bool {
    exists|i: int| 0 <= i < parameters.len() && #[trigger] parameters[i] == (letter, value)
}

/// A move asks nothing that its words do not name: it commands an axis only
/// to a position that a word with the letter of the axis gives, and sets a
/// speed only to what a feed word gives.
pub proof fn lemma_moves_are_named(parameters: Seq<(char, i64)>, k: int)
    requires
        0 <= k < move_operations(parameters).len(),
    ensures
        match move_operations(parameters)[k] {
            Operation::MoveAbs { axis, position } => axis <= AXIS_Z && has_word(
                parameters,
                axis_letter(axis),
                position,
            ),
            Operation::SetSpeed { axis, speed } => axis <= AXIS_Z && has_word(
                parameters,
                'F',
                speed,
            ),
            _ => false,
        },
    decreases parameters.len(),
{
    if parameters.len() > 0 {
        let before = move_operations(parameters.drop_last());
        let last = parameters.len() - 1;
        if k < before.len() {
            lemma_moves_are_named(parameters.drop_last(), k);
            match before[k] {
                Operation::MoveAbs { axis, position } => {
                    let word = (axis_letter(axis), position);
                    let i = choose|i: int|
                        0 <= i < parameters.drop_last().len()
                            && #[trigger] parameters.drop_last()[i] == word;
                    assert(parameters[i] == word);
                },
                Operation::SetSpeed { axis, speed } => {
                    let i = choose|i: int|
                        0 <= i < parameters.drop_last().len()
                            && #[trigger] parameters.drop_last()[i] == ('F', speed);
                    assert(parameters[i] == ('F', speed));
                },
                _ => {},
            }
        } else {
            assert(move_operations(parameters)[k] == word_operations(parameters.last())[k
                - before.len()]);
            assert(parameters[last] == parameters.last());
        }
    }
}

/// A move asks all that its words name: every word for an axis commands that
/// axis to its value, and every feed word sets the speed of each of the three
/// axes.
pub proof fn lemma_named_words_move(parameters: Seq<(char, i64)>, i: int, axis: u8)
    requires
        0 <= i < parameters.len(),
        axis <= AXIS_Z,
    ensures
        parameters[i].0 == axis_letter(axis) ==> move_operations(parameters).contains(
            Operation::MoveAbs { axis, position: parameters[i].1 },
        ),
        parameters[i].0 == 'F' ==> move_operations(parameters).contains(
            Operation::SetSpeed { axis, speed: parameters[i].1 },
        ),
    decreases parameters.len(),
{
    let all = move_operations(parameters);
    let before = move_operations(parameters.drop_last());
    let own = word_operations(parameters.last());
    let value = parameters[i].1;
    if i < parameters.len() - 1 {
        lemma_named_words_move(parameters.drop_last(), i, axis);
        assert(parameters.drop_last()[i] == parameters[i]);
        assert forall|op: Operation| before.contains(op) implies all.contains(op) by {
            let k = choose|k: int| 0 <= k < before.len() && before[k] == op;
            assert(all[k] == op);
        }
    } else {
        assert forall|n: int| 0 <= n < own.len() implies all.contains(#[trigger] own[n]) by {
            assert(all[before.len() + n] == own[n]);
        }
        if parameters[i].0 == 'F' {
            assert(own[axis as int] == Operation::SetSpeed { axis, speed: value });
        } else if parameters[i].0 == axis_letter(axis) {
            assert(own[0] == Operation::MoveAbs { axis, position: value });
        }
    }
}

/// The operations that switch the spindle on.
pub open spec fn spindle_operations(inverted: bool, parameters: Seq<(char, i64)>) -> Seq<
    Operation,
> {
    match first_value(parameters, 'S') {
        Some(speed) => seq![
            Operation::ConverterRun { inverted },
            Operation::ConverterSetFreq { freq: spindle_frequency(speed) },
        ],
        None => seq![Operation::ConverterRun { inverted }],
    }
}

/// Whether a homing command sends this axis home: it does if a word names
/// the axis, or if no word names any axis.
pub open spec fn homes(parameters: Seq<(char, i64)>, axis: u8) -> bool {
    has_letter(parameters, axis_letter(axis)) || !(has_letter(parameters, 'X') || has_letter(
        parameters,
        'Y',
    ) || has_letter(parameters, 'Z'))
}

/// The operation that sends this axis home, if the command does.
pub open spec fn home_operation(parameters: Seq<(char, i64)>, axis: u8) -> Seq<Operation> {
    if homes(parameters, axis) {
        seq![Operation::Home { axis }]
    } else {
        Seq::empty()
    }
}

/// The operations of a homing command: one for each axis that it sends home,
/// X before Y before Z.
pub open spec fn home_operations(parameters: Seq<(char, i64)>) -> Seq<Operation> {
    home_operation(parameters, AXIS_X) + home_operation(parameters, AXIS_Y) + home_operation(
        parameters,
        AXIS_Z,
    )
}

/// A homing command sends home exactly the axes that it names, or all three
/// where it names none, and asks nothing else.
pub proof fn lemma_homing_homes_named_axes(parameters: Seq<(char, i64)>, operation: Operation)
    ensures
        home_operations(parameters).contains(operation) <==> (operation matches Operation::Home {
            axis,
        } && axis <= AXIS_Z && homes(parameters, axis)),
{
    let x = home_operation(parameters, AXIS_X);
    let y = home_operation(parameters, AXIS_Y);
    let z = home_operation(parameters, AXIS_Z);
    let all = home_operations(parameters);
    if all.contains(operation) {
        let k = choose|k: int| 0 <= k < all.len() && all[k] == operation;
        if k < x.len() {
            assert(all[k] == x[k]);
        } else if k < x.len() + y.len() {
            assert(all[k] == y[k - x.len()]);
        } else {
            assert(all[k] == z[k - x.len() - y.len()]);
        }
    }
    match operation {
        Operation::Home { axis } => {
            if axis <= AXIS_Z && homes(parameters, axis) {
                if axis == AXIS_X {
                    assert(all[0] == operation);
                } else if axis == AXIS_Y {
                    assert(all[x.len() as int] == operation);
                } else {
                    assert(all[(x.len() + y.len()) as int] == operation);
                }
            }
        },
        _ => {},
    }
}

/// The operations that a command asks of the controller session.
pub open spec fn operations_of(command: CommandView) -> Seq<Operation> {
    if command.kind == 'G' {
        if command.number == 0 || command.number == 1 {
            move_operations(command.parameters)
        } else if command.number == 28 {
            home_operations(command.parameters)
        } else {
            Seq::empty()
        }
    } else if command.kind == 'M' {
        if command.number == 0 || command.number == 1 || command.number == 5 {
            seq![Operation::ConverterStop]
        } else if command.number == 3 {
            spindle_operations(false, command.parameters)
        } else if command.number == 4 {
            spindle_operations(true, command.parameters)
        } else {
            Seq::empty()
        }
    } else {
        Seq::empty()
    }
}

/// The value of the first word named `letter`, or zero.
pub open spec fn first_or_zero(parameters: Seq<(char, i64)>, letter: char) -> i64 {
    match first_value(parameters, letter) {
        Some(value) => value,
        None => 0,
    }
}

/// Which axes a homing command names: those whose letter it carries, or all
/// three if it carries none of them.
pub open spec fn homed_axes(parameters: Seq<(char, i64)>) -> Movement {
    let x = has_letter(parameters, 'X');
    let y = has_letter(parameters, 'Y');
    let z = has_letter(parameters, 'Z');
    if x || y || z {
        Movement::Home { x, y, z }
    } else {
        Movement::Home { x: true, y: true, z: true }
    }
}

/// The description of a command.
pub open spec fn movement_of(command: CommandView) -> Movement {
    let p = command.parameters;
    if command.kind == 'G' {
        if command.number == 0 {
            Movement::RapidMove
        } else if command.number == 1 {
            Movement::LinearMove
        } else if command.number == 2 || command.number == 3 {
            Movement::Arc {
                clockwise: command.number == 2,
                center_offsets: has_letter(p, 'I') || has_letter(p, 'J'),
                radius: last_value(p, 'R'),
            }
        } else if command.number == 4 {
            Movement::Dwell { duration: first_or_zero(p, 'P') }
        } else if command.number == 28 {
            homed_axes(p)
        } else if command.number == 90 {
            Movement::AbsolutePositioning
        } else if command.number == 91 {
            Movement::RelativePositioning
        } else if command.number == 92 {
            Movement::SetPosition
        } else {
            Movement::UnknownG { number: command.number as i32 }
        }
    } else if command.kind == 'M' {
        if command.number == 0 {
            Movement::EmergencyStop
        } else if command.number == 1 {
            Movement::Pause
        } else if command.number == 3 || command.number == 4 {
            Movement::SpindleOn {
                counterclockwise: command.number == 4,
                speed: first_value(p, 'S'),
            }
        } else if command.number == 5 {
            Movement::SpindleStop
        } else if command.number == 84 {
            Movement::StopIdleHold
        } else if command.number == 104 || command.number == 109 {
            Movement::ExtruderTemperature {
                degrees: first_or_zero(p, 'S'),
                wait: command.number == 109,
            }
        } else if command.number == 140 || command.number == 190 {
            Movement::BedTemperature {
                degrees: first_or_zero(p, 'S'),
                wait: command.number == 190,
            }
        } else {
            Movement::OtherState { number: command.number as i32 }
        }
    } else {
        Movement::NonMovement
    }
}

/// A coordinate after a command that may name it: the value of the last word
/// with that letter, or the coordinate as it was.
pub open spec fn coordinate_after(before: i64, parameters: Seq<(char, i64)>, letter: char) -> i64 {
    match last_value(parameters, letter) {
        Some(value) => value,
        None => before,
    }
}

/// The spindle after it was switched on.
pub open spec fn spindle_after_start(
    before: SpindleState,
    inverted: bool,
    parameters: Seq<(char, i64)>,
) -> SpindleState {
    SpindleState {
        running: true,
        inverted,
        frequency: match first_value(parameters, 'S') {
            Some(speed) => spindle_frequency(speed),
            None => before.frequency,
        },
    }
}

/// The context after a command.
///
/// Moves and origin settings record the coordinates they name, where a letter
/// that occurs twice counts with its last value. The positioning commands
/// record the mode. Stopping and starting the spindle is recorded, and the
/// two stop commands of the program flow raise the pause flag.
pub open spec fn context_after(
    before: InterpreterContext,
    command: CommandView,
) -> InterpreterContext {
    let p = command.parameters;
    if command.kind == 'G' {
        if command.number == 0 || command.number == 1 || command.number == 92 {
            InterpreterContext {
                x: coordinate_after(before.x, p, 'X'),
                y: coordinate_after(before.y, p, 'Y'),
                z: coordinate_after(before.z, p, 'Z'),
                ..before
            }
        } else if command.number == 90 {
            InterpreterContext { positioning: PositioningMode::Absolute, ..before }
        } else if command.number == 91 {
            InterpreterContext { positioning: PositioningMode::Relative, ..before }
        } else {
            before
        }
    } else if command.kind == 'M' {
        if command.number == 0 || command.number == 1 {
            InterpreterContext {
                spindle: SpindleState { running: false, ..before.spindle },
                paused: true,
                ..before
            }
        } else if command.number == 3 {
            InterpreterContext { spindle: spindle_after_start(before.spindle, false, p), ..before }
        } else if command.number == 4 {
            InterpreterContext { spindle: spindle_after_start(before.spindle, true, p), ..before }
        } else if command.number == 5 {
            InterpreterContext {
                spindle: SpindleState { running: false, ..before.spindle },
                ..before
            }
        } else {
            before
        }
    } else {
        before
    }
}

impl InterpreterContext {
    /// The context at the start of a program: at the origin, absolute
    /// positioning, spindle off.
    pub fn new() -> (context: Self)
        ensures
            context == Self::initial(),
    {
        InterpreterContext {
            x: 0,
            y: 0,
            z: 0,
            positioning: PositioningMode::Absolute,
            spindle: SpindleState { running: false, inverted: false, frequency: 0 },
            paused: false,
        }
    }

    /// See [`InterpreterContext::new`].
    pub open spec fn initial() -> Self {
        InterpreterContext {
            x: 0,
            y: 0,
            z: 0,
            positioning: PositioningMode::Absolute,
            spindle: SpindleState { running: false, inverted: false, frequency: 0 },
            paused: false,
        }
    }
}

/// Computes [`spindle_frequency`].
pub fn frequency_from_speed(value: i64) -> (freq: u32)
    ensures
        freq == spindle_frequency(value),
{
    if value < 0 {
        0
    } else if value / MICRO > 0xffff_ffff {
        u32::MAX
    } else {
        (value / MICRO) as u32
    }
}

/// Whether the command carries a word named `letter`.
fn names_letter(command: &GCodeCommand, letter: char) -> (found: bool)
    ensures
        found == has_letter(command.parameters@, letter),
{
    let mut i: usize = 0;
    while i < command.parameters.len()
        invariant
            i <= command.parameters.len(),
            forall|k: int| 0 <= k < i ==> (#[trigger] command.parameters@[k]).0 != letter,
        decreases command.parameters.len() - i,
    {
        if command.parameters[i].0 == letter {
            return true;
        }
        i += 1;
    }
    false
}

/// The operations of a move, word by word.
fn move_words(command: &GCodeCommand) -> (operations: Vec<Operation>)
    ensures
        operations@ == move_operations(command.parameters@),
{
    let mut operations: Vec<Operation> = Vec::new();
    let mut i: usize = 0;
    while i < command.parameters.len()
        invariant
            i <= command.parameters.len(),
            operations@ == move_operations(command.parameters@.take(i as int)),
        decreases command.parameters.len() - i,
    {
        proof {
            let next = command.parameters@.take(i + 1);
            assert(next.drop_last() =~= command.parameters@.take(i as int));
            assert(next.last() == command.parameters@[i as int]);
        }
        let letter = command.parameters[i].0;
        let value = command.parameters[i].1;
        if letter == 'X' {
            operations.push(Operation::MoveAbs { axis: AXIS_X, position: value });
        } else if letter == 'Y' {
            operations.push(Operation::MoveAbs { axis: AXIS_Y, position: value });
        } else if letter == 'Z' {
            operations.push(Operation::MoveAbs { axis: AXIS_Z, position: value });
        } else if letter == 'F' {
            operations.push(Operation::SetSpeed { axis: AXIS_X, speed: value });
            operations.push(Operation::SetSpeed { axis: AXIS_Y, speed: value });
            operations.push(Operation::SetSpeed { axis: AXIS_Z, speed: value });
        }
        proof {
            let before = move_operations(command.parameters@.take(i as int));
            let word = command.parameters@[i as int];
            assert(operations@ =~= before + word_operations(word));
        }
        i += 1;
    }
    proof {
        assert(command.parameters@.take(i as int) =~= command.parameters@);
    }
    operations
}

/// The coordinate that a command leaves behind for `letter`.
fn coordinate(command: &GCodeCommand, before: i64, letter: char) -> (after: i64)
    ensures
        after == coordinate_after(before, command.parameters@, letter),
{
    match command.last_parameter(letter) {
        Some(value) => value,
        None => before,
    }
}

/// Interprets one command: the operations to issue, the description for the
/// trace, and the context as the command leaves it.
///
/// Moves command each axis that a word names, in the order of the words, and a
/// feed word sets the speed of all three axes. Homing sends home each axis
/// that a word names, or all three. The spindle commands start and stop the
/// converter. Arcs, dwells, the positioning commands and the temperature
/// commands ask nothing of the controller, and neither does a command that is
/// not known: none of them is an error.
pub fn interpret_gcode_movement(command: &GCodeCommand, context: &mut InterpreterContext) -> (out:
    Interpretation)
    ensures
        out.operations@ == operations_of(command@),
        out.movement == movement_of(command@),
        *final(context) == context_after(*old(context), command@),
{
    let number = command.command_number;
    let mut operations: Vec<Operation> = Vec::new();
    let movement: Movement;
    if command.command_type == 'G' {
        if number == 0 || number == 1 || number == 92 {
            if number == 92 {
                movement = Movement::SetPosition;
            } else {
                operations = move_words(command);
                movement = if number == 0 {
                    Movement::RapidMove
                } else {
                    Movement::LinearMove
                };
            }
            context.x = coordinate(command, context.x, 'X');
            context.y = coordinate(command, context.y, 'Y');
            context.z = coordinate(command, context.z, 'Z');
        } else if number == 2 || number == 3 {
            let with_i = names_letter(command, 'I');
            let with_j = names_letter(command, 'J');
            movement = Movement::Arc {
                clockwise: number == 2,
                center_offsets: with_i || with_j,
                radius: command.last_parameter('R'),
            };
        } else if number == 4 {
            let duration = match command.first_parameter('P') {
                Some(value) => value,
                None => 0,
            };
            movement = Movement::Dwell { duration };
        } else if number == 28 {
            let x = names_letter(command, 'X');
            let y = names_letter(command, 'Y');
            let z = names_letter(command, 'Z');
            let all = !(x || y || z);
            if x || all {
                operations.push(Operation::Home { axis: AXIS_X });
            }
            if y || all {
                operations.push(Operation::Home { axis: AXIS_Y });
            }
            if z || all {
                operations.push(Operation::Home { axis: AXIS_Z });
            }
            movement = if all {
                Movement::Home { x: true, y: true, z: true }
            } else {
                Movement::Home { x, y, z }
            };
        } else if number == 90 {
            context.positioning = PositioningMode::Absolute;
            movement = Movement::AbsolutePositioning;
        } else if number == 91 {
            context.positioning = PositioningMode::Relative;
            movement = Movement::RelativePositioning;
        } else {
            movement = Movement::UnknownG { number };
        }
    } else if command.command_type == 'M' {
        if number == 0 || number == 1 {
            operations.push(Operation::ConverterStop);
            context.spindle.running = false;
            context.paused = true;
            movement = if number == 0 {
                Movement::EmergencyStop
            } else {
                Movement::Pause
            };
        } else if number == 3 || number == 4 {
            let inverted = number == 4;
            let speed = command.first_parameter('S');
            operations.push(Operation::ConverterRun { inverted });
            context.spindle.running = true;
            context.spindle.inverted = inverted;
            match speed {
                Some(value) => {
                    let freq = frequency_from_speed(value);
                    operations.push(Operation::ConverterSetFreq { freq });
                    context.spindle.frequency = freq;
                },
                None => {},
            }
            movement = Movement::SpindleOn { counterclockwise: inverted, speed };
        } else if number == 5 {
            operations.push(Operation::ConverterStop);
            context.spindle.running = false;
            movement = Movement::SpindleStop;
        } else if number == 84 {
            movement = Movement::StopIdleHold;
        } else if number == 104 || number == 109 || number == 140 || number == 190 {
            let degrees = match command.first_parameter('S') {
                Some(value) => value,
                None => 0,
            };
            movement = if number == 104 || number == 109 {
                Movement::ExtruderTemperature { degrees, wait: number == 109 }
            } else {
                Movement::BedTemperature { degrees, wait: number == 190 }
            };
        } else {
            movement = Movement::OtherState { number };
        }
    } else {
        movement = Movement::NonMovement;
    }
    assert(operations@ =~= operations_of(command@));
    Interpretation { operations, movement }
}

} // verus!
