//! The preview of a program: its moves replayed onto a raster from a
//! simulated tool position, without the machine.
use crate::arc::{arc_points, draw_arc};
use crate::bitmap::{Bitmap, Raster};
use crate::command::{
    last_value, lemma_looked_up_in_reach, words_in_reach, CommandView, GCodeCommand,
};
use crate::interpreter::coordinate_after;
use crate::parser::{parse_gcode_line, parse_line};
use crate::path::{draw_line, line_points, plotted, Point};
use crate::program::texts_of;
use vstd::prelude::*;

verus! {

/// Whether the command is a straight move that names an axis.
pub open spec fn draws_line(command: CommandView) -> bool {
    let p = command.parameters;
    command.kind == 'G' && (command.number == 0 || command.number == 1) && (last_value(p, 'X')
        is Some || last_value(p, 'Y') is Some || last_value(p, 'Z') is Some)
}

/// Whether the command is an arc that names an axis of its plane.
pub open spec fn draws_arc(command: CommandView) -> bool {
    let p = command.parameters;
    command.kind == 'G' && (command.number == 2 || command.number == 3) && (last_value(p, 'X')
        is Some || last_value(p, 'Y') is Some)
}

/// Where a move ends: at the coordinates that it names, each letter with its
/// last value, and otherwise where it started.
pub open spec fn target_of(position: Point, command: CommandView) -> Point {
    let p = command.parameters;
    Point {
        x: coordinate_after(position.x, p, 'X'),
        y: coordinate_after(position.y, p, 'Y'),
        z: coordinate_after(position.z, p, 'Z'),
    }
}

/// The offset to the centre along one axis: the last value of the letter, or
/// zero.
pub open spec fn centre_offset(command: CommandView, letter: char) -> i64 {
    coordinate_after(0, command.parameters, letter)
}

/// The simulated tool position after a command.
pub open spec fn position_after(position: Point, command: CommandView) -> Point {
    if draws_line(command) || draws_arc(command) {
        target_of(position, command)
    } else {
        position
    }
}

/// The raster after a command: with the line or the arc of a move that names
/// an axis, and as it was after any other command.
pub open spec fn raster_after(raster: Raster, position: Point, command: CommandView) -> Raster {
    if draws_line(command) {
        plotted(raster, line_points(position, target_of(position, command)))
    } else if draws_arc(command) {
        plotted(
            raster,
            arc_points(
                position,
                target_of(position, command),
                centre_offset(command, 'I'),
                centre_offset(command, 'J'),
                command.number == 2,
            ),
        )
    } else {
        raster
    }
}

/// The state of a replay: the raster and the simulated tool position.
pub struct Replay {
    pub raster: Raster,
    pub position: Point,
}

/// The replay after the lines of a program, one after the other. A line that
/// is no command changes nothing.
pub open spec fn replayed(start: Replay, lines: Seq<Seq<char>>) -> Replay
    decreases lines.len(),
{
    if lines.len() == 0 {
        start
    } else {
        let before = replayed(start, lines.drop_last());
        match parse_line(lines.last()) {
            Some(command) => Replay {
                raster: raster_after(before.raster, before.position, command),
                position: position_after(before.position, command),
            },
            None => before,
        }
    }
}

/// Plotting keeps the dimensions, the scale and the origin of a raster.
pub proof fn lemma_plotted_keeps_geometry(raster: Raster, points: Seq<Point>)
    ensures
        plotted(raster, points).width == raster.width,
        plotted(raster, points).height == raster.height,
        plotted(raster, points).scale == raster.scale,
        plotted(raster, points).origin_x == raster.origin_x,
        plotted(raster, points).origin_y == raster.origin_y,
    decreases points.len(),
{
    if points.len() > 0 {
        lemma_plotted_keeps_geometry(raster, points.drop_last());
    }
}

/// Replaying a command keeps the dimensions, the scale and the origin of the
/// raster.
pub proof fn lemma_raster_after_keeps_geometry(
    raster: Raster,
    position: Point,
    command: CommandView,
)
    ensures
        raster_after(raster, position, command).width == raster.width,
        raster_after(raster, position, command).height == raster.height,
        raster_after(raster, position, command).scale == raster.scale,
        raster_after(raster, position, command).origin_x == raster.origin_x,
        raster_after(raster, position, command).origin_y == raster.origin_y,
{
    if draws_line(command) {
        lemma_plotted_keeps_geometry(raster, line_points(position, target_of(position, command)));
    } else if draws_arc(command) {
        lemma_plotted_keeps_geometry(
            raster,
            arc_points(
                position,
                target_of(position, command),
                centre_offset(command, 'I'),
                centre_offset(command, 'J'),
                command.number == 2,
            ),
        );
    }
}

/// Replaying keeps the dimensions, the scale and the origin of the raster.
pub proof fn lemma_replay_keeps_geometry(start: Replay, lines: Seq<Seq<char>>)
    ensures
        replayed(start, lines).raster.width == start.raster.width,
        replayed(start, lines).raster.height == start.raster.height,
        replayed(start, lines).raster.scale == start.raster.scale,
        replayed(start, lines).raster.origin_x == start.raster.origin_x,
        replayed(start, lines).raster.origin_y == start.raster.origin_y,
    decreases lines.len(),
{
    if lines.len() > 0 {
        lemma_replay_keeps_geometry(start, lines.drop_last());
        let before = replayed(start, lines.drop_last());
        match parse_line(lines.last()) {
            Some(command) => {
                lemma_raster_after_keeps_geometry(
                    before.raster,
                    before.position,
                    command,
                );
            },
            None => {},
        }
    }
}

/// The coordinate that a command names for `letter`, or `before`.
fn named(command: &GCodeCommand, before: i64, letter: char) -> (after: (i64, bool))
    requires
        words_in_reach(command.parameters@),
        crate::command::in_reach(before),
    ensures
        after.0 == coordinate_after(before, command.parameters@, letter),
        after.1 == (last_value(command.parameters@, letter) is Some),
        crate::command::in_reach(after.0),
{
    proof {
        lemma_looked_up_in_reach(command.parameters@, letter);
    }
    match command.last_parameter(letter) {
        Some(value) => (value, true),
        None => (before, false),
    }
}

/// Replays one command: draws the line of a straight move or the arc of an
/// arc move from the simulated position to the target, and moves the
/// position there. Any other command is passed over.
pub fn preview_gcode_movement(command: &GCodeCommand, bitmap: &mut Bitmap, position: &mut Point)
    requires
        old(bitmap).wf(),
        old(position).in_reach(),
        words_in_reach(command.parameters@),
    ensures
        final(bitmap).wf(),
        final(position).in_reach(),
        final(bitmap)@ == raster_after(old(bitmap)@, *old(position), command@),
        *final(position) == position_after(*old(position), command@),
{
    if command.command_type != 'G' {
        return ;
    }
    let number = command.command_number;
    if number == 0 || number == 1 {
        let (x, has_x) = named(command, position.x, 'X');
        let (y, has_y) = named(command, position.y, 'Y');
        let (z, has_z) = named(command, position.z, 'Z');
        if has_x || has_y || has_z {
            let target = Point { x, y, z };
            draw_line(bitmap, *position, target);
            *position = target;
        }
    } else if number == 2 || number == 3 {
        let (x, has_x) = named(command, position.x, 'X');
        let (y, has_y) = named(command, position.y, 'Y');
        let (z, _) = named(command, position.z, 'Z');
        let (i, _) = named(command, 0, 'I');
        let (j, _) = named(command, 0, 'J');
        if has_x || has_y {
            let target = Point { x, y, z };
            draw_arc(bitmap, *position, target, i, j, number == 2);
            *position = target;
        }
    }
}

/// Replays the lines of a program from `position` on.
pub fn preview_lines(lines: &Vec<String>, bitmap: &mut Bitmap, position: &mut Point)
    requires
        old(bitmap).wf(),
        old(position).in_reach(),
    ensures
        final(bitmap).wf(),
        final(position).in_reach(),
        (Replay { raster: final(bitmap)@, position: *final(position) }) == replayed(
            Replay { raster: old(bitmap)@, position: *old(position) },
            texts_of(lines@),
        ),
{
    let ghost texts = texts_of(lines@);
    let ghost start = Replay { raster: bitmap@, position: *position };
    let mut k: usize = 0;
    while k < lines.len()
        invariant
            k <= lines.len(),
            texts == texts_of(lines@),
            bitmap.wf(),
            position.in_reach(),
            (Replay { raster: bitmap@, position: *position }) == replayed(
                start,
                texts.take(k as int),
            ),
        decreases lines.len() - k,
    {
        proof {
            let next = texts.take(k + 1);
            assert(next.drop_last() =~= texts.take(k as int));
            assert(next.last() == lines@[k as int]@);
        }
        match parse_gcode_line(lines[k].as_str()) {
            Some(command) => {
                preview_gcode_movement(&command, bitmap, position);
            },
            None => {},
        }
        k += 1;
    }
    proof {
        assert(texts.take(k as int) =~= texts);
    }
}

} // verus!
