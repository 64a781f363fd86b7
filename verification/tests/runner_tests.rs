use zmc_core::bitmap::Rgba;
use zmc_core::interpreter::{InterpreterContext, Movement, Operation};
use zmc_core::program::split_lines;
use zmc_core::runner::{
    awaited_axes, execute_one_line, zmc_wait_idle, GCodeError, GCodeManager, LineState, RunError,
    RunStep,
};
use zmc_core::zmc::Reading;

const CLEAR: Rgba = Rgba { r: 255, g: 255, b: 255, a: 0 };

fn drawn(runner: &GCodeManager) -> Vec<(usize, usize, Rgba)> {
    let bitmap = runner.bitmap();
    let mut all = Vec::new();
    for row in 0..bitmap.height() {
        for column in 0..bitmap.width() {
            let color = bitmap.pixel(column, row).unwrap();
            if color != CLEAR {
                all.push((column, row, color));
            }
        }
    }
    all
}

/// Reports every call of the line at the cursor as made, and says how many
/// there were.
fn carry_out(runner: &mut GCodeManager) -> usize {
    let mut calls = 0;
    while let LineState::Pending { .. } = runner.line_state() {
        runner.call_done(Ok(Reading::Nothing)).unwrap();
        calls += 1;
    }
    calls
}

#[test]
fn new_runner_is_at_rest() {
    let runner = GCodeManager::new();
    assert_eq!(runner.line_count(), 0);
    assert_eq!(runner.current_line(), 0);
    assert!(!runner.is_running());
    assert_eq!(runner.context(), InterpreterContext::new());
    assert_eq!(runner.bitmap().width(), 800);
    assert_eq!(runner.bitmap().height(), 800);
    assert_eq!(runner.bitmap().scale(), 4_000_000);
}

#[test]
fn text_is_cut_into_lines() {
    assert_eq!(split_lines("G1 X1\nG1 X2\n"), vec!["G1 X1", "G1 X2"]);
    assert_eq!(split_lines("G1 X1\r\nG1 X2"), vec!["G1 X1", "G1 X2"]);
    assert_eq!(split_lines("a\n\nb\n\n"), vec!["a", "", "b", ""]);
    assert_eq!(split_lines(""), Vec::<String>::new());
    assert_eq!(split_lines("\n"), vec![""]);
    assert_eq!(split_lines("a\rb\r"), vec!["a\rb\r"]);
    assert_eq!(split_lines("a\r\r\nb"), vec!["a\r", "b"]);
    assert_eq!(split_lines("\u{e9}\u{4e2d}\n\u{1f600}"), vec!["\u{e9}\u{4e2d}", "\u{1f600}"]);
}

#[test]
fn lines_agree_with_the_standard_library() {
    for text in ["", "\n", "a", "a\n", "a\nb", "a\r\nb\r\n", "\r\n\r\n", "x\n\ny", "a\r\r\nb"] {
        let expected: Vec<String> = text.lines().map(|line| line.to_string()).collect();
        assert_eq!(split_lines(text), expected, "{:?}", text);
    }
}

#[test]
fn load_replaces_program_and_resets_cursor() {
    let mut runner = GCodeManager::new();
    runner.load_gcode("G1 X1\nG1 X2\nG1 X3");
    assert_eq!(runner.line_count(), 3);
    runner.start().unwrap();
    runner.next_step();
    carry_out(&mut runner);
    runner.line_done(Ok(())).unwrap();
    assert_eq!(runner.current_line(), 1);
    assert_eq!(runner.context().x, 1_000_000);
    runner.load_gcode("M5");
    assert_eq!(runner.line_count(), 1);
    assert_eq!(runner.current_line(), 0);
    assert_eq!(runner.context(), InterpreterContext::new());
    assert!(runner.is_running());
}

#[test]
fn run_advances_cursor_once_per_line() {
    let mut runner = GCodeManager::new();
    runner.load_gcode("G0 X1\nG1 Y2 F100\nM3 S50\nG1 Z-1\nM5\n");
    let count = runner.line_count();
    assert_eq!(count, 5);
    runner.start().unwrap();
    let mut cursors = Vec::new();
    let mut issued = 0;
    loop {
        cursors.push(runner.current_line());
        match runner.next_step() {
            RunStep::Line(_) => {
                issued += carry_out(&mut runner);
                runner.line_done(Ok(())).unwrap();
            }
            RunStep::Completed => break,
            other => panic!("{:?}", other),
        }
    }
    assert_eq!(cursors, vec![0, 1, 2, 3, 4, 5]);
    assert_eq!(issued, 1 + 4 + 3 + 1 + 1);
    assert_eq!(runner.current_line(), count);
    assert!(!runner.is_running());
    assert!(matches!(runner.next_step(), RunStep::Idle));
}

#[test]
fn start_while_running_is_refused() {
    let mut runner = GCodeManager::new();
    runner.load_gcode("G1 X1\nG1 X2");
    assert_eq!(runner.start(), Ok(()));
    runner.next_step();
    carry_out(&mut runner);
    runner.line_done(Ok(())).unwrap();
    assert_eq!(runner.start(), Err(RunError::AlreadyRunning));
    assert!(runner.is_running());
    assert_eq!(runner.current_line(), 1);
    assert_eq!(runner.line_count(), 2);
}

#[test]
fn hardware_failure_halts_cursor_at_the_line() {
    let mut runner = GCodeManager::new();
    runner.load_gcode("G1 X1\nG1 X2\nG1 X3\nG1 X4");
    runner.start().unwrap();
    for _ in 0..2 {
        runner.next_step();
        carry_out(&mut runner);
        runner.line_done(Ok(())).unwrap();
    }
    assert!(matches!(runner.next_step(), RunStep::Line(Movement::LinearMove)));
    let reported = runner.line_done(Err("axis fault".to_string()));
    match reported {
        Err(GCodeError::ExecutionError(message)) => assert_eq!(message, "axis fault"),
        other => panic!("{:?}", other),
    }
    assert_eq!(runner.current_line(), 2);
    assert!(!runner.is_running());
    assert!(matches!(runner.next_step(), RunStep::Idle));
    runner.line_done(Ok(())).unwrap();
    assert_eq!(runner.current_line(), 2);
    assert_eq!(runner.line_count(), 4);
    assert_eq!(runner.start(), Ok(()));
    assert!(matches!(runner.next_step(), RunStep::Line(Movement::LinearMove)));
    assert_eq!(runner.current_line(), 2);
}

#[test]
fn unparsable_lines_are_passed_over() {
    let mut runner = GCodeManager::new();
    runner.load_gcode("; header\n\nnot a command\nG1 X1");
    runner.start().unwrap();
    for _ in 0..3 {
        assert_eq!(runner.next_step(), RunStep::Line(Movement::NoCommand));
        assert_eq!(runner.line_state(), LineState::Finished);
        runner.line_done(Ok(())).unwrap();
    }
    assert_eq!(runner.current_line(), 3);
    assert_eq!(runner.next_step(), RunStep::Line(Movement::LinearMove));
    assert_eq!(
        runner.line_state(),
        LineState::Pending {
            operation: Operation::MoveAbs { axis: 0, position: 1_000_000 },
            stage: 0,
            datum: 0,
        }
    );
    assert_eq!(carry_out(&mut runner), 1);
    runner.line_done(Ok(())).unwrap();
    assert!(matches!(runner.next_step(), RunStep::Completed));
    assert_eq!(runner.current_line(), 4);
}

#[test]
fn a_line_is_not_done_while_calls_are_due() {
    let mut runner = GCodeManager::new();
    runner.load_gcode("G1 X1 Y1\nG1 X2");
    runner.start().unwrap();
    runner.line_done(Ok(())).unwrap();
    assert_eq!(runner.current_line(), 0);
    runner.next_step();
    runner.line_done(Ok(())).unwrap();
    assert_eq!(runner.current_line(), 0);
    runner.call_done(Ok(Reading::Nothing)).unwrap();
    runner.line_done(Ok(())).unwrap();
    assert_eq!(runner.current_line(), 0);
    runner.call_done(Ok(Reading::Nothing)).unwrap();
    assert_eq!(runner.line_state(), LineState::Finished);
    runner.line_done(Ok(())).unwrap();
    assert_eq!(runner.current_line(), 1);
    assert_eq!(runner.line_state(), LineState::Idle);
    runner.line_done(Ok(())).unwrap();
    assert_eq!(runner.current_line(), 1);
}

#[test]
fn calls_with_two_stages_keep_what_the_first_read() {
    let mut runner = GCodeManager::new();
    runner.load_gcode("G28 Y0");
    runner.start().unwrap();
    runner.next_step();
    assert_eq!(
        runner.line_state(),
        LineState::Pending { operation: Operation::Home { axis: 1 }, stage: 0, datum: 0 }
    );
    runner.call_done(Ok(Reading::Quantity(-7))).unwrap();
    assert_eq!(
        runner.line_state(),
        LineState::Pending { operation: Operation::Home { axis: 1 }, stage: 1, datum: -7 }
    );
    runner.call_done(Ok(Reading::Nothing)).unwrap();
    assert_eq!(runner.line_state(), LineState::Finished);
}

#[test]
fn empty_program_completes_at_once() {
    let mut runner = GCodeManager::new();
    runner.start().unwrap();
    assert!(matches!(runner.next_step(), RunStep::Completed));
    assert!(!runner.is_running());
    assert_eq!(runner.current_line(), 0);
}

#[test]
fn stop_ends_the_run_and_keeps_the_cursor() {
    let mut runner = GCodeManager::new();
    runner.load_gcode("G1 X1\nG1 X2");
    runner.start().unwrap();
    runner.next_step();
    carry_out(&mut runner);
    runner.line_done(Ok(())).unwrap();
    runner.stop();
    assert!(!runner.is_running());
    assert_eq!(runner.current_line(), 1);
    assert!(matches!(runner.next_step(), RunStep::Idle));
    runner.stop();
    assert!(!runner.is_running());
}

#[test]
fn reset_moves_cursor_to_start_without_ending_the_run() {
    let mut runner = GCodeManager::new();
    runner.load_gcode("G1 X1\nG1 X2");
    runner.start().unwrap();
    runner.next_step();
    carry_out(&mut runner);
    runner.line_done(Ok(())).unwrap();
    runner.reset();
    assert_eq!(runner.current_line(), 0);
    assert!(runner.is_running());
    assert_eq!(runner.line_count(), 2);
    assert_eq!(runner.context().x, 1_000_000);
}

#[test]
fn report_outside_a_run_changes_nothing() {
    let mut runner = GCodeManager::new();
    runner.load_gcode("G1 X1");
    runner.line_done(Ok(())).unwrap();
    assert_eq!(runner.current_line(), 0);
    assert!(runner.line_done(Err("late".to_string())).is_err());
    assert_eq!(runner.current_line(), 0);
    assert!(!runner.is_running());
}

#[test]
fn one_line_is_interpreted_and_no_line_is_an_error() {
    let mut context = InterpreterContext::new();
    let done = execute_one_line("M4 S10", &mut context).unwrap();
    assert_eq!(
        done.operations,
        vec![Operation::ConverterRun { inverted: true }, Operation::ConverterSetFreq { freq: 10 }]
    );
    assert!(context.spindle.running);
    for line in ["  ; nothing", "", "hello", "   "] {
        let passed = execute_one_line(line, &mut context).unwrap();
        assert!(passed.operations.is_empty());
        assert_eq!(passed.movement, Movement::NoCommand);
    }
    assert!(context.spindle.running);
}

#[test]
fn wait_is_over_when_all_axes_are_at_rest() {
    assert_eq!(awaited_axes(), vec![0, 1, 2]);
    assert!(zmc_wait_idle(&vec![true, true, true]));
    assert!(!zmc_wait_idle(&vec![true, false, true]));
    assert!(!zmc_wait_idle(&vec![false]));
    assert!(zmc_wait_idle(&Vec::new()));
}

#[test]
fn preview_draws_the_moves_of_the_program() {
    let mut runner = GCodeManager::new();
    runner.load_gcode("G0 X1\nM3 S100\nG1 X2 Y0\nT1\n; done");
    let image = runner.generate_path_preview().unwrap();
    assert!(image.starts_with("data:image/png;base64,"));
    let pixels = drawn(&runner);
    let expected: Vec<(usize, usize, Rgba)> =
        (400..=408).map(|column| (column, 400, Rgba { r: 216, g: 38, b: 38, a: 255 })).collect();
    assert_eq!(pixels, expected);
    assert_eq!(runner.current_line(), 0);
    assert!(!runner.is_running());
    assert_eq!(runner.context(), InterpreterContext::new());
}

#[test]
fn preview_twice_gives_identical_rasters() {
    let mut runner = GCodeManager::new();
    runner.load_gcode("G0 X10 Y0\nG2 X0 Y10 I-10 J0\nG1 X-5 Y-5 Z-2\nG3 X5 Y-5 I5 J0 Z-4\n");
    let first = runner.generate_path_preview().unwrap();
    let first_pixels = drawn(&runner);
    let second = runner.generate_path_preview().unwrap();
    assert_eq!(first, second);
    assert_eq!(first_pixels, drawn(&runner));
    assert!(first_pixels.len() > 100);
    let mut other = GCodeManager::new();
    other.load_gcode("G1 X50 Y50\n");
    other.generate_path_preview().unwrap();
    other.load_gcode("G0 X10 Y0\nG2 X0 Y10 I-10 J0\nG1 X-5 Y-5 Z-2\nG3 X5 Y-5 I5 J0 Z-4\n");
    assert_eq!(other.generate_path_preview().unwrap(), first);
}

#[test]
fn preview_starts_from_the_origin_every_time() {
    let mut runner = GCodeManager::new();
    runner.load_gcode("G1 Y1");
    runner.generate_path_preview().unwrap();
    let pixels: Vec<(usize, usize)> = drawn(&runner).iter().map(|p| (p.0, p.1)).collect();
    assert_eq!(pixels, vec![(400, 396), (400, 397), (400, 398), (400, 399), (400, 400)]);
    runner.generate_path_preview().unwrap();
    let again: Vec<(usize, usize)> = drawn(&runner).iter().map(|p| (p.0, p.1)).collect();
    assert_eq!(again, pixels);
}

#[test]
fn preview_ignores_moves_without_axes_and_arcs_in_z_only() {
    let mut runner = GCodeManager::new();
    runner.load_gcode("G1 F100\nG2 Z5 I1\nG4 P100\nG28\nM0");
    runner.generate_path_preview().unwrap();
    assert!(drawn(&runner).is_empty());
}

#[test]
fn preview_of_arc_command_matches_the_arc() {
    let mut runner = GCodeManager::new();
    runner.load_gcode("G0 X10\nG3 X0 Y10 I-10");
    runner.generate_path_preview().unwrap();
    let pixels = drawn(&runner);
    assert!(pixels.iter().any(|p| (p.0, p.1) == (440, 400)));
    assert!(pixels.iter().any(|p| (p.0 as i64 - 400).abs() <= 1 && (p.1 as i64 - 360).abs() <= 1));
    for (column, row, _) in pixels {
        if row < 399 {
            let x = (column as f64 + 0.5 - 400.0) / 4.0;
            let y = (400.0 - (row as f64 + 0.5)) / 4.0;
            assert!(((x * x + y * y).sqrt() - 10.0).abs() <= 0.25);
        }
    }
}

#[test]
fn errors_have_messages_of_their_kind() {
    assert_eq!(
        GCodeError::ParseError("bad line".to_string()).message(),
        "Invalid G-code command: bad line"
    );
    assert_eq!(
        GCodeError::ExecutionError("axis fault".to_string()).message(),
        "Failed to execute G-code command: axis fault"
    );
    assert_eq!(RunError::AlreadyRunning.message(), "G-code execution already in progress");
    assert_eq!(RunError::ControllerNotOpen.message(), "Controller is not open");
}
