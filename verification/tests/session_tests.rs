use zmc_core::bitmap::Rgba;
use zmc_core::image::ImageError;
use zmc_core::interpreter::Operation;
use zmc_core::model::{
    AxisMoveStatus, AxisParameters, InvertedStatus, LimitStatus, ManualControl, MoveStatus,
    Parameters, PidParameters, SpeedParameters,
};
use zmc_core::runner::{GCodeManager, RunError};
use zmc_core::zmc::{
    next_call, operation_call, start_gcode_execution, zmc_close, zmc_converter_run,
    zmc_converter_set_freq,
    zmc_converter_stop, zmc_datum, zmc_get_axis_position, zmc_get_idle, zmc_manual_move,
    zmc_manual_stop, zmc_move, zmc_move_abs, zmc_set_in_inverted, zmc_set_parameters,
    zmc_set_speed, zmc_set_zero, AxisInput, AxisSetting, ControllerOp, ControllerType,
    ConverterCommand, LineStep, PollStep, Reading, SessionError, SessionEvent, SessionState,
    ZmcManager,
};

fn open_manager() -> ZmcManager {
    let mut manager = ZmcManager::new();
    assert_eq!(manager.init(ControllerType::Fake), Ok(ControllerType::Fake));
    manager.handle_event(SessionEvent::Opened);
    manager
}

fn sample_parameters() -> Parameters {
    Parameters {
        pid: PidParameters { p: 1, i: 2, d: 3 },
        x: AxisParameters {
            axis_num: 0,
            pulse_equivalent: 100_000_000,
            software_positive_limit: 40_000_000,
            software_negative_limit: -40_000_000,
            positive_limit_io: 10,
            negative_limit_io: 11,
            zero_point_io: 12,
        },
        y: AxisParameters {
            axis_num: 1,
            pulse_equivalent: 200_000_000,
            software_positive_limit: 50_000_000,
            software_negative_limit: -50_000_000,
            positive_limit_io: 20,
            negative_limit_io: 21,
            zero_point_io: 22,
        },
        z: AxisParameters {
            axis_num: 2,
            pulse_equivalent: 300_000_000,
            software_positive_limit: 60_000_000,
            software_negative_limit: -60_000_000,
            positive_limit_io: 30,
            negative_limit_io: 31,
            zero_point_io: 32,
        },
        emergency_stop_io: 1,
        speed: SpeedParameters {
            processing_speed: 5_000_000,
            max_speed: 9_000_000,
            acceleration: 7_000_000,
            deceleration: 8_000_000,
            transition_time: 0,
            crawling_speed: 0,
        },
        door_switch_io: 2,
        inverted_status: InvertedStatus {
            emergency_stop_level_inverted: true,
            door_switch_level_inverted: false,
            limit_io_level_inverted: true,
        },
    }
}

fn axis_setup(axis: u8, own: &AxisParameters) -> Vec<ControllerOp> {
    vec![
        ControllerOp::SetAxisType { axis, kind: 65 },
        ControllerOp::SetAxisValue { axis, setting: AxisSetting::Speed, value: 5_000_000 },
        ControllerOp::SetAxisValue { axis, setting: AxisSetting::StartSpeed, value: 0 },
        ControllerOp::SetAxisValue { axis, setting: AxisSetting::Acceleration, value: 7_000_000 },
        ControllerOp::SetAxisValue { axis, setting: AxisSetting::Deceleration, value: 8_000_000 },
        ControllerOp::SetAxisValue { axis, setting: AxisSetting::SRamp, value: 20_000_000 },
        ControllerOp::SetAxisValue { axis, setting: AxisSetting::Units, value: own.pulse_equivalent },
        ControllerOp::SetAxisValue {
            axis,
            setting: AxisSetting::ForwardLimit,
            value: own.software_positive_limit,
        },
        ControllerOp::SetAxisValue {
            axis,
            setting: AxisSetting::ReverseLimit,
            value: own.software_negative_limit,
        },
        ControllerOp::SetAxisInput { axis, input: AxisInput::ForwardLimit, io: own.positive_limit_io },
        ControllerOp::SetAxisInput { axis, input: AxisInput::ReverseLimit, io: own.negative_limit_io },
        ControllerOp::SetAxisInput { axis, input: AxisInput::Alarm, io: 1 },
    ]
}

#[test]
fn new_manager_has_no_controller() {
    let manager = ZmcManager::new();
    assert_eq!(manager.state(), SessionState::Uninitialized);
    assert_eq!(manager.parameters(), Parameters::default());
    assert_eq!(manager.limit_status(), LimitStatus::default());
    assert_eq!(manager.move_status(), MoveStatus::default());
    assert!(!manager.is_polling());
    assert_eq!(manager.path_img(), "");
    assert_eq!(manager.bitmap().width(), 500);
    assert_eq!(manager.bitmap().height(), 500);
    assert_eq!(manager.bitmap().scale(), 4_000_000);
    assert_eq!(manager.with_controller(), Err(SessionError::NotInitialized));
}

#[test]
fn session_goes_from_open_to_closed_and_back() {
    let mut manager = ZmcManager::new();
    assert_eq!(
        manager.init(ControllerType::Zmc("192.168.0.11".to_string())),
        Ok(ControllerType::Zmc("192.168.0.11".to_string()))
    );
    assert_eq!(manager.state(), SessionState::Uninitialized);
    manager.handle_event(SessionEvent::Opened);
    assert_eq!(manager.state(), SessionState::Open);
    assert_eq!(manager.with_controller(), Ok(()));
    assert_eq!(manager.init(ControllerType::Fake), Err(SessionError::AlreadyOpen));
    assert_eq!(manager.state(), SessionState::Open);
    manager.handle_event(SessionEvent::Closed);
    assert_eq!(manager.state(), SessionState::Closed);
    assert_eq!(manager.with_controller(), Err(SessionError::NotOpen));
    assert_eq!(manager.init(ControllerType::Fake), Ok(ControllerType::Fake));
    manager.handle_event(SessionEvent::Opened);
    assert_eq!(manager.state(), SessionState::Open);
}

#[test]
fn deinit_closes_an_open_controller_first() {
    let mut manager = open_manager();
    assert_eq!(manager.deinit(), Some(ControllerOp::Close));
    assert_eq!(manager.state(), SessionState::Open);
    manager.handle_event(SessionEvent::Released);
    assert_eq!(manager.state(), SessionState::Uninitialized);
    assert_eq!(manager.deinit(), None);
    assert_eq!(manager.state(), SessionState::Uninitialized);
    let mut manager = open_manager();
    manager.handle_event(SessionEvent::Closed);
    assert_eq!(manager.deinit(), None);
    assert_eq!(manager.state(), SessionState::Uninitialized);
}

#[test]
fn close_report_without_open_controller_changes_nothing() {
    let mut manager = ZmcManager::new();
    manager.handle_event(SessionEvent::Closed);
    assert_eq!(manager.state(), SessionState::Uninitialized);
}

#[test]
fn requests_need_an_open_controller() {
    let mut manager = ZmcManager::new();
    assert_eq!(zmc_get_idle(&manager, 0), Err(SessionError::NotInitialized));
    assert_eq!(zmc_move_abs(&manager, vec![0], vec![1]), Err(SessionError::NotInitialized));
    assert_eq!(zmc_converter_stop(&manager), Err(SessionError::NotInitialized));
    assert_eq!(zmc_set_zero(&manager, &vec![0]), Err(SessionError::NotInitialized));
    manager.handle_event(SessionEvent::Opened);
    manager.handle_event(SessionEvent::Closed);
    assert_eq!(zmc_get_idle(&manager, 0), Err(SessionError::NotOpen));
    assert_eq!(zmc_manual_move(&manager, 0, 1), Err(SessionError::NotOpen));
    assert_eq!(zmc_converter_set_freq(&manager, 50), Err(SessionError::NotOpen));
    assert_eq!(zmc_datum(&manager, 0, 5), Err(SessionError::NotOpen));
}

#[test]
fn simple_requests_become_one_call() {
    let manager = open_manager();
    assert_eq!(zmc_get_idle(&manager, 2), Ok(ControllerOp::ReadIdle { axis: 2 }));
    assert_eq!(
        zmc_get_axis_position(&manager, 1),
        Ok(ControllerOp::ReadDemandPosition { axis: 1 })
    );
    assert_eq!(
        zmc_set_in_inverted(&manager, 7, true),
        Ok(ControllerOp::SetInvertIn { io: 7, inverted: true })
    );
    assert_eq!(zmc_manual_move(&manager, 1, -1), Ok(ControllerOp::Jog { axis: 1, direction: -1 }));
    assert_eq!(zmc_manual_stop(&manager, 1), Ok(ControllerOp::Cancel { axis: 1, mode: 2 }));
}

#[test]
fn converter_requests() {
    let manager = open_manager();
    assert_eq!(
        zmc_converter_run(&manager, false),
        Ok(ControllerOp::Execute { command: ConverterCommand::RunForward })
    );
    assert_eq!(
        zmc_converter_run(&manager, true),
        Ok(ControllerOp::Execute { command: ConverterCommand::RunInverted })
    );
    assert_eq!(
        zmc_converter_stop(&manager),
        Ok(ControllerOp::Execute { command: ConverterCommand::Stop })
    );
    assert_eq!(
        zmc_converter_set_freq(&manager, 400),
        Ok(vec![
            ControllerOp::WriteRegister { register: 3, words: 1, content: 400 },
            ControllerOp::Execute { command: ConverterCommand::ApplyFrequency },
        ])
    );
    assert_eq!(
        zmc_converter_set_freq(&manager, u32::MAX).unwrap()[0],
        ControllerOp::WriteRegister { register: 3, words: 1, content: -1 }
    );
    assert_eq!(ConverterCommand::RunForward.text(), "MODBUSM_REGSET(99,1,2)");
    assert_eq!(ConverterCommand::RunInverted.text(), "MODBUSM_REGSET(99,1,0)");
    assert_eq!(ConverterCommand::Stop.text(), "MODBUSM_REGSET(99,1,1)");
    assert_eq!(ConverterCommand::ApplyFrequency.text(), "MODBUSM_REGSET(100,1,3)");
}

#[test]
fn moves_carry_their_lists() {
    let manager = open_manager();
    assert_eq!(
        zmc_move_abs(&manager, vec![0, 2], vec![1_000_000, -2_000_000]),
        Ok(ControllerOp::Move {
            absolute: true,
            count: 2,
            axes: vec![0, 2],
            positions: vec![1_000_000, -2_000_000],
        })
    );
    assert_eq!(
        zmc_move_abs(&manager, Vec::new(), vec![5]),
        Ok(ControllerOp::Move { absolute: true, count: 0, axes: Vec::new(), positions: vec![5] })
    );
    assert_eq!(
        zmc_move(&manager, vec![1], vec![500_000]),
        Ok(ControllerOp::Move { absolute: false, count: 1, axes: vec![1], positions: vec![500_000] })
    );
    let long: Vec<u8> = (0..300).map(|n| (n % 3) as u8).collect();
    match zmc_move_abs(&manager, long, Vec::new()) {
        Ok(ControllerOp::Move { count, axes, .. }) => {
            assert_eq!(count, 44);
            assert_eq!(axes.len(), 300);
        }
        other => panic!("{:?}", other),
    }
}

#[test]
fn relative_move_checks_its_lists_first() {
    let closed = ZmcManager::new();
    assert_eq!(zmc_move(&closed, vec![0, 1], vec![1]), Err(SessionError::LengthMismatch));
    assert_eq!(zmc_move(&closed, Vec::new(), Vec::new()), Err(SessionError::EmptyAxisList));
    assert_eq!(zmc_move(&closed, vec![0], vec![1]), Err(SessionError::NotInitialized));
    let manager = open_manager();
    assert_eq!(zmc_move(&manager, vec![0], Vec::new()), Err(SessionError::LengthMismatch));
    assert_eq!(zmc_move(&manager, Vec::new(), Vec::new()), Err(SessionError::EmptyAxisList));
}

#[test]
fn negative_speed_is_refused() {
    let manager = open_manager();
    assert_eq!(zmc_set_speed(&manager, 0, -1), Err(SessionError::NegativeSpeed));
    assert_eq!(
        zmc_set_speed(&manager, 0, 0),
        Ok(ControllerOp::SetAxisValue { axis: 0, setting: AxisSetting::Speed, value: 0 })
    );
    assert_eq!(
        zmc_set_speed(&manager, 2, 1_500_000),
        Ok(ControllerOp::SetAxisValue { axis: 2, setting: AxisSetting::Speed, value: 1_500_000 })
    );
    assert_eq!(zmc_set_speed(&ZmcManager::new(), 0, -1), Err(SessionError::NegativeSpeed));
    assert_eq!(zmc_set_speed(&ZmcManager::new(), 0, 1), Err(SessionError::NotInitialized));
}

#[test]
fn datum_direction_follows_the_sign_of_the_position() {
    let manager = open_manager();
    assert_eq!(zmc_datum(&manager, 1, 1), Ok(ControllerOp::Jog { axis: 1, direction: 19 }));
    assert_eq!(zmc_datum(&manager, 1, 0), Ok(ControllerOp::Jog { axis: 1, direction: 18 }));
    assert_eq!(zmc_datum(&manager, 1, -7), Ok(ControllerOp::Jog { axis: 1, direction: 18 }));
}

#[test]
fn zeroing_sets_both_positions_of_each_axis() {
    let manager = open_manager();
    assert_eq!(
        zmc_set_zero(&manager, &vec![2, 0]),
        Ok(vec![
            ControllerOp::SetAxisValue { axis: 2, setting: AxisSetting::DemandPosition, value: 0 },
            ControllerOp::SetAxisValue { axis: 2, setting: AxisSetting::MeasuredPosition, value: 0 },
            ControllerOp::SetAxisValue { axis: 0, setting: AxisSetting::DemandPosition, value: 0 },
            ControllerOp::SetAxisValue { axis: 0, setting: AxisSetting::MeasuredPosition, value: 0 },
        ])
    );
    assert_eq!(zmc_set_zero(&manager, &Vec::new()), Ok(Vec::new()));
}

#[test]
fn parameters_become_the_setup_calls() {
    let mut manager = open_manager();
    let params = sample_parameters();
    let calls = zmc_set_parameters(&mut manager, params).unwrap();
    let mut expected = vec![
        ControllerOp::SetInvertIn { io: 1, inverted: true },
        ControllerOp::SetInvertIn { io: 2, inverted: false },
        ControllerOp::SetInvertIn { io: 10, inverted: true },
        ControllerOp::SetInvertIn { io: 20, inverted: true },
        ControllerOp::SetInvertIn { io: 30, inverted: true },
        ControllerOp::SetInvertIn { io: 11, inverted: true },
        ControllerOp::SetInvertIn { io: 21, inverted: true },
        ControllerOp::SetInvertIn { io: 31, inverted: true },
    ];
    expected.extend(axis_setup(0, &params.x));
    expected.extend(axis_setup(1, &params.y));
    expected.extend(axis_setup(2, &params.z));
    assert_eq!(calls, expected);
    assert_eq!(calls.len(), 44);
    assert_eq!(manager.parameters(), params);
}

#[test]
fn axis_settings_are_taken_by_axis_number() {
    let mut manager = open_manager();
    let mut params = sample_parameters();
    params.x.axis_num = 2;
    params.z.axis_num = 0;
    let calls = zmc_set_parameters(&mut manager, params).unwrap();
    let mut expected = calls[..8].to_vec();
    expected.extend(axis_setup(2, &params.z));
    expected.extend(axis_setup(1, &params.y));
    expected.extend(axis_setup(0, &params.x));
    assert_eq!(calls, expected);
}

#[test]
fn parameters_are_kept_even_when_refused() {
    let mut manager = ZmcManager::new();
    let params = sample_parameters();
    assert_eq!(zmc_set_parameters(&mut manager, params), Err(SessionError::NotInitialized));
    assert_eq!(manager.parameters(), params);
    let mut manager = open_manager();
    let mut odd = sample_parameters();
    odd.y.axis_num = 3;
    assert_eq!(zmc_set_parameters(&mut manager, odd), Err(SessionError::UnknownAxis));
    assert_eq!(manager.parameters(), odd);
}

#[test]
fn interpreter_operations_become_driver_calls() {
    let manager = open_manager();
    assert_eq!(
        operation_call(&manager, Operation::MoveAbs { axis: 1, position: 2_500_000 }, 0, 0),
        Ok(ControllerOp::Move {
            absolute: true,
            count: 1,
            axes: vec![1],
            positions: vec![2_500_000],
        })
    );
    assert_eq!(
        operation_call(&manager, Operation::SetSpeed { axis: 2, speed: 100_000_000 }, 0, 0),
        Ok(ControllerOp::SetAxisValue { axis: 2, setting: AxisSetting::Speed, value: 100_000_000 })
    );
    assert_eq!(
        operation_call(&manager, Operation::SetSpeed { axis: 2, speed: -1 }, 0, 0),
        Err(SessionError::NegativeSpeed)
    );
    assert_eq!(
        operation_call(&manager, Operation::ConverterRun { inverted: true }, 0, 0),
        Ok(ControllerOp::Execute { command: ConverterCommand::RunInverted })
    );
    assert_eq!(
        operation_call(&manager, Operation::ConverterSetFreq { freq: 50 }, 0, 0),
        Ok(ControllerOp::WriteRegister { register: 3, words: 1, content: 50 })
    );
    assert_eq!(
        operation_call(&manager, Operation::ConverterSetFreq { freq: 50 }, 1, 0),
        Ok(ControllerOp::Execute { command: ConverterCommand::ApplyFrequency })
    );
    assert_eq!(
        operation_call(&manager, Operation::ConverterStop, 0, 0),
        Ok(ControllerOp::Execute { command: ConverterCommand::Stop })
    );
    let closed = ZmcManager::new();
    assert_eq!(
        operation_call(&closed, Operation::ConverterStop, 0, 0),
        Err(SessionError::NotInitialized)
    );
    assert_eq!(
        operation_call(&closed, Operation::SetSpeed { axis: 0, speed: -1 }, 0, 0),
        Err(SessionError::NegativeSpeed)
    );
}

#[test]
fn homing_reads_the_position_and_seeks_the_datum_from_its_side() {
    let manager = open_manager();
    assert_eq!(
        operation_call(&manager, Operation::Home { axis: 2 }, 0, 0),
        Ok(ControllerOp::ReadDemandPosition { axis: 2 })
    );
    assert_eq!(
        operation_call(&manager, Operation::Home { axis: 2 }, 1, 5_000_000),
        Ok(ControllerOp::Jog { axis: 2, direction: 19 })
    );
    assert_eq!(
        operation_call(&manager, Operation::Home { axis: 2 }, 1, 0),
        Ok(ControllerOp::Jog { axis: 2, direction: 18 })
    );
    assert_eq!(
        operation_call(&manager, Operation::Home { axis: 2 }, 1, -1),
        Ok(ControllerOp::Jog { axis: 2, direction: 18 })
    );
    assert_eq!(
        operation_call(&ZmcManager::new(), Operation::Home { axis: 0 }, 0, 0),
        Err(SessionError::NotInitialized)
    );
}

fn calls_of_line(runner: &mut GCodeManager, session: &ZmcManager, readings: &[i64]) -> Vec<ControllerOp> {
    let mut calls = Vec::new();
    let mut readings = readings.iter();
    loop {
        match next_call(runner, session) {
            LineStep::Call(call) => {
                let reading = match call {
                    ControllerOp::ReadDemandPosition { .. } => {
                        Reading::Quantity(*readings.next().unwrap())
                    }
                    _ => Reading::Nothing,
                };
                calls.push(call);
                runner.call_done(Ok(reading)).unwrap();
            }
            LineStep::Finished => return calls,
            other => panic!("{:?}", other),
        }
    }
}

#[test]
fn a_line_is_carried_out_call_by_call() {
    let session = open_manager();
    let mut runner = GCodeManager::new();
    runner.load_gcode("M3 S50\nG28 X0 Z0\nG1 X1 F10");
    assert!(matches!(next_call(&runner, &session), LineStep::Idle));
    runner.start().unwrap();
    assert!(matches!(next_call(&runner, &session), LineStep::Idle));
    runner.next_step();
    assert_eq!(
        calls_of_line(&mut runner, &session, &[]),
        vec![
            ControllerOp::Execute { command: ConverterCommand::RunForward },
            ControllerOp::WriteRegister { register: 3, words: 1, content: 50 },
            ControllerOp::Execute { command: ConverterCommand::ApplyFrequency },
        ]
    );
    runner.line_done(Ok(())).unwrap();
    assert_eq!(runner.current_line(), 1);
    runner.next_step();
    assert_eq!(
        calls_of_line(&mut runner, &session, &[2_000_000, -3_000_000]),
        vec![
            ControllerOp::ReadDemandPosition { axis: 0 },
            ControllerOp::Jog { axis: 0, direction: 19 },
            ControllerOp::ReadDemandPosition { axis: 2 },
            ControllerOp::Jog { axis: 2, direction: 18 },
        ]
    );
    runner.line_done(Ok(())).unwrap();
    runner.next_step();
    assert_eq!(calls_of_line(&mut runner, &session, &[]).len(), 4);
    runner.line_done(Ok(())).unwrap();
    assert_eq!(runner.current_line(), 3);
}

#[test]
fn after_a_failed_call_no_further_call_is_due() {
    let session = open_manager();
    let mut runner = GCodeManager::new();
    runner.load_gcode("G1 X1 Y2 Z3\nG1 X5");
    runner.start().unwrap();
    runner.next_step();
    assert!(matches!(next_call(&runner, &session), LineStep::Call(_)));
    runner.call_done(Ok(Reading::Nothing)).unwrap();
    assert!(matches!(next_call(&runner, &session), LineStep::Call(_)));
    let reported = runner.call_done(Err("axis fault".to_string()));
    assert_eq!(reported.unwrap_err().message(), "Failed to execute G-code command: axis fault");
    assert!(matches!(next_call(&runner, &session), LineStep::Idle));
    assert!(!runner.is_running());
    assert_eq!(runner.current_line(), 0);
    runner.call_done(Ok(Reading::Nothing)).unwrap();
    runner.line_done(Ok(())).unwrap();
    assert!(matches!(next_call(&runner, &session), LineStep::Idle));
    assert_eq!(runner.current_line(), 0);
}

#[test]
fn a_refused_call_is_reported_as_failed() {
    let mut session = open_manager();
    let mut runner = GCodeManager::new();
    runner.load_gcode("G1 F-5\nM5");
    runner.start().unwrap();
    runner.next_step();
    assert!(matches!(
        next_call(&runner, &session),
        LineStep::Refused(SessionError::NegativeSpeed)
    ));
    runner.call_done(Err(SessionError::NegativeSpeed.message().to_string())).unwrap_err();
    assert!(!runner.is_running());
    runner.start().unwrap();
    runner.load_gcode("M5");
    runner.next_step();
    session.handle_event(SessionEvent::Closed);
    assert!(matches!(next_call(&runner, &session), LineStep::Refused(SessionError::NotOpen)));
}

#[test]
fn run_needs_an_open_controller() {
    let mut runner = GCodeManager::new();
    runner.load_gcode("G1 X1");
    let mut session = ZmcManager::new();
    assert_eq!(start_gcode_execution(&mut runner, &session), Err(RunError::ControllerNotOpen));
    assert!(!runner.is_running());
    session.handle_event(SessionEvent::Opened);
    assert_eq!(start_gcode_execution(&mut runner, &session), Ok(()));
    assert!(runner.is_running());
    assert_eq!(start_gcode_execution(&mut runner, &session), Err(RunError::AlreadyRunning));
    session.handle_event(SessionEvent::Closed);
    assert_eq!(start_gcode_execution(&mut runner, &session), Err(RunError::ControllerNotOpen));
    assert!(runner.is_running());
}

#[test]
fn polling_samples_twenty_one_times_then_publishes() {
    let mut manager = open_manager();
    assert!(matches!(manager.poll_tick(), PollStep::Stopped));
    manager.start_polling();
    assert!(manager.is_polling());
    for round in 0..3 {
        for tick in 0..21 {
            assert!(matches!(manager.poll_tick(), PollStep::Sample), "{} {}", round, tick);
        }
        match manager.poll_tick() {
            PollStep::Publish { image, move_status } => {
                assert!(image.unwrap().starts_with("data:image/png;base64,"));
                assert_eq!(move_status, manager.move_status());
            }
            other => panic!("{:?}", other),
        }
    }
    manager.stop_polling();
    assert!(!manager.is_polling());
    assert!(matches!(manager.poll_tick(), PollStep::Stopped));
}

#[test]
fn polling_ends_without_an_open_controller() {
    let mut manager = ZmcManager::new();
    manager.start_polling();
    assert!(matches!(manager.poll_tick(), PollStep::Lost(SessionError::NotInitialized)));
    assert!(!manager.is_polling());
    assert!(matches!(manager.poll_tick(), PollStep::Stopped));
    let mut manager = open_manager();
    manager.start_polling();
    assert!(matches!(manager.poll_tick(), PollStep::Sample));
    manager.handle_event(SessionEvent::Closed);
    assert!(matches!(manager.poll_tick(), PollStep::Lost(SessionError::NotOpen)));
    assert!(!manager.is_polling());
}

#[test]
fn publishing_keeps_the_image() {
    let mut manager = open_manager();
    manager.start_polling();
    manager.update_move_status(MoveStatus {
        x: AxisMoveStatus { is_idle: true, speed: 0, pos: 1_000_000 },
        y: AxisMoveStatus { is_idle: true, speed: 0, pos: 0 },
        z: AxisMoveStatus { is_idle: true, speed: 0, pos: 0 },
    });
    for _ in 0..21 {
        manager.poll_tick();
    }
    let published = match manager.poll_tick() {
        PollStep::Publish { image, .. } => image.unwrap(),
        other => panic!("{:?}", other),
    };
    assert_eq!(manager.path_img(), published);
    assert_eq!(manager.bitmap().to_data_url(), Ok::<String, ImageError>(published));
    manager.clear_path();
    assert_eq!(manager.path_img(), "");
    assert_eq!(manager.bitmap().pixel(254, 250), Some(Rgba { r: 255, g: 255, b: 255, a: 0 }));
}

#[test]
fn sampling_records_motion_and_plots_the_tool() {
    let mut manager = open_manager();
    manager.clear_path();
    let status = MoveStatus {
        x: AxisMoveStatus { is_idle: false, speed: 2_000_000, pos: 10_000_000 },
        y: AxisMoveStatus { is_idle: true, speed: 0, pos: -5_000_000 },
        z: AxisMoveStatus { is_idle: true, speed: 0, pos: 13_334 },
    };
    manager.update_move_status(status);
    assert_eq!(manager.move_status(), status);
    assert_eq!(manager.bitmap().pixel(290, 270), Some(Rgba { r: 127, g: 216, b: 38, a: 255 }));
    manager.update_move_status(MoveStatus {
        x: AxisMoveStatus { is_idle: true, speed: 0, pos: 0 },
        y: AxisMoveStatus { is_idle: true, speed: 0, pos: 0 },
        z: AxisMoveStatus { is_idle: true, speed: 0, pos: i64::MIN },
    });
    assert_eq!(manager.bitmap().pixel(250, 250), Some(Rgba { r: 216, g: 38, b: 38, a: 255 }));
    manager.update_move_status(MoveStatus {
        x: AxisMoveStatus { is_idle: true, speed: 0, pos: 1_000_000 },
        y: AxisMoveStatus { is_idle: true, speed: 0, pos: 0 },
        z: AxisMoveStatus { is_idle: true, speed: 0, pos: i64::MAX },
    });
    assert_eq!(manager.bitmap().pixel(254, 250), Some(Rgba { r: 216, g: 38, b: 38, a: 255 }));
}

#[test]
fn limit_status_is_read_in_the_order_of_its_inputs() {
    let mut manager = open_manager();
    zmc_set_parameters(&mut manager, sample_parameters()).unwrap();
    assert_eq!(manager.limit_inputs(), vec![1, 2, 10, 11, 20, 21, 30, 31]);
    assert_eq!(manager.sampled_axes(), (0, 1, 2));
    let readings = vec![true, false, false, true, false, false, true, false];
    assert_eq!(manager.update_limit_status(&readings), Ok(()));
    assert_eq!(
        manager.limit_status(),
        LimitStatus::new(true, false, false, true, false, false, true, false)
    );
    assert_eq!(
        manager.update_limit_status(&vec![true; 7]),
        Err(SessionError::WrongReadings)
    );
    assert_eq!(
        manager.update_limit_status(&vec![false; 9]),
        Err(SessionError::WrongReadings)
    );
    assert!(manager.limit_status().emergency_stop);
}

#[test]
fn limit_status_is_made_of_its_eight_inputs() {
    let status = LimitStatus::new(true, false, true, false, true, false, true, false);
    assert!(status.emergency_stop);
    assert!(!status.door_switch);
    assert!(status.x_plus);
    assert!(!status.x_minus);
    assert!(status.y_plus);
    assert!(!status.y_minus);
    assert!(status.z_plus);
    assert!(!status.z_minus);
}

#[test]
fn defaults_are_zero() {
    assert_eq!(ManualControl::default().converter_frequency, 0);
    assert!(!ManualControl::default().converter_enabled);
    assert_eq!(InvertedStatus::default(), InvertedStatus {
        emergency_stop_level_inverted: false,
        door_switch_level_inverted: false,
        limit_io_level_inverted: false,
    });
    assert_eq!(PidParameters::default(), PidParameters { p: 0, i: 0, d: 0 });
    assert_eq!(AxisParameters::default().axis_num, 0);
    assert_eq!(SpeedParameters::default().processing_speed, 0);
    assert_eq!(Parameters::default().x, AxisParameters::default());
    assert_eq!(AxisMoveStatus::default(), AxisMoveStatus { is_idle: false, speed: 0, pos: 0 });
    assert_eq!(MoveStatus::default().z, AxisMoveStatus::default());
    assert_eq!(LimitStatus::default(), LimitStatus::new(false, false, false, false, false, false, false, false));
}

#[test]
fn errors_have_messages() {
    assert_eq!(SessionError::AlreadyOpen.message(), "Controller is already initialized");
    assert_eq!(SessionError::NotInitialized.message(), "Controller is not initialized");
    assert_eq!(SessionError::NotOpen.message(), "Controller is not open");
    assert_eq!(
        SessionError::LengthMismatch.message(),
        "Axis list and position list must have the same length"
    );
    assert_eq!(SessionError::EmptyAxisList.message(), "Axis list cannot be empty");
    assert_eq!(SessionError::NegativeSpeed.message(), "Speed cannot be negative");
    assert!(!SessionError::UnknownAxis.message().is_empty());
    assert!(!SessionError::WrongReadings.message().is_empty());
}

#[test]
fn closing_ends_the_polling_and_asks_for_the_close_call() {
    let mut manager = open_manager();
    manager.start_polling();
    assert_eq!(zmc_close(&mut manager), Ok(ControllerOp::Close));
    assert!(!manager.is_polling());
    assert_eq!(manager.state(), SessionState::Open);
    manager.handle_event(SessionEvent::Closed);
    assert_eq!(zmc_close(&mut manager), Err(SessionError::NotOpen));
    let mut manager = ZmcManager::new();
    manager.start_polling();
    assert_eq!(zmc_close(&mut manager), Err(SessionError::NotInitialized));
    assert!(!manager.is_polling());
}
