//! The plain data that the machine's settings and status are made of.
//!
//! Quantities that the machine measures or is set to (positions, speeds,
//! limits) are fixed-point numbers in millionths of their unit.
use vstd::prelude::*;

verus! {

/// The manual controls of the converter, with the stored tool-setting
/// position.
#[derive(Debug, Clone, Copy, PartialEq, Eq, Structural)]
pub struct ManualControl {
    pub converter_frequency: u16,
    pub converter_inverted: bool,
    pub converter_enabled: bool,
    pub pos_store_x: i64,
    pub pos_store_y: i64,
}

/// Which of the safety inputs read inverted.
#[derive(Debug, Clone, Copy, PartialEq, Eq, Structural)]
pub struct InvertedStatus {
    pub emergency_stop_level_inverted: bool,
    pub door_switch_level_inverted: bool,
    pub limit_io_level_inverted: bool,
}

/// The settings of one axis.
#[derive(Debug, Clone, Copy, PartialEq, Eq, Structural)]
pub struct AxisParameters {
    pub axis_num: u8,
    pub pulse_equivalent: i64,
    pub software_positive_limit: i64,
    pub software_negative_limit: i64,
    pub positive_limit_io: u16,
    pub negative_limit_io: u16,
    pub zero_point_io: u16,
}

/// The gains of the position loop.
#[derive(Debug, Clone, Copy, PartialEq, Eq, Structural)]
pub struct PidParameters {
    pub p: i64,
    pub i: i64,
    pub d: i64,
}

/// The speeds and ramps of the axes.
#[derive(Debug, Clone, Copy, PartialEq, Eq, Structural)]
pub struct SpeedParameters {
    pub processing_speed: i64,
    pub max_speed: i64,
    pub acceleration: i64,
    pub deceleration: i64,
    pub transition_time: i64,
    pub crawling_speed: i64,
}

/// All the settings of the machine.
#[derive(Debug, Clone, Copy, PartialEq, Eq, Structural)]
pub struct Parameters {
    pub pid: PidParameters,
    pub x: AxisParameters,
    pub y: AxisParameters,
    pub z: AxisParameters,
    pub emergency_stop_io: u16,
    pub speed: SpeedParameters,
    pub door_switch_io: u16,
    pub inverted_status: InvertedStatus,
}

/// The limit switches and safety inputs of the machine, one flag per input.
#[derive(Debug, Clone, Copy, PartialEq, Eq, Structural)]
pub struct LimitStatus {
    pub emergency_stop: bool,
    pub door_switch: bool,
    pub x_plus: bool,
    pub x_minus: bool,
    pub y_plus: bool,
    pub y_minus: bool,
    pub z_plus: bool,
    pub z_minus: bool,
}

/// What one axis reports of its motion.
#[derive(Debug, Clone, Copy, PartialEq, Eq, Structural)]
pub struct AxisMoveStatus {
    pub is_idle: bool,
    pub speed: i64,
    pub pos: i64,
}

/// What the three axes report of their motion.
#[derive(Debug, Clone, Copy, PartialEq, Eq, Structural)]
pub struct MoveStatus {
    pub x: AxisMoveStatus,
    pub y: AxisMoveStatus,
    pub z: AxisMoveStatus,
}

impl ManualControl {
    /// Everything off and at zero.
    pub open spec fn zero() -> Self {
        ManualControl {
            converter_frequency: 0,
            converter_inverted: false,
            converter_enabled: false,
            pos_store_x: 0,
            pos_store_y: 0,
        }
    }
}

impl Default for ManualControl {
    fn default() -> (value: Self)
        ensures
            value == Self::zero(),
    {
        ManualControl {
            converter_frequency: 0,
            converter_inverted: false,
            converter_enabled: false,
            pos_store_x: 0,
            pos_store_y: 0,
        }
    }
}

impl InvertedStatus {
    /// No input inverted.
    pub open spec fn zero() -> Self {
        InvertedStatus {
            emergency_stop_level_inverted: false,
            door_switch_level_inverted: false,
            limit_io_level_inverted: false,
        }
    }
}

impl Default for InvertedStatus {
    fn default() -> (value: Self)
        ensures
            value == Self::zero(),
    {
        InvertedStatus {
            emergency_stop_level_inverted: false,
            door_switch_level_inverted: false,
            limit_io_level_inverted: false,
        }
    }
}

impl AxisParameters {
    /// Axis zero with every setting at zero.
    pub open spec fn zero() -> Self {
        AxisParameters {
            axis_num: 0,
            pulse_equivalent: 0,
            software_positive_limit: 0,
            software_negative_limit: 0,
            positive_limit_io: 0,
            negative_limit_io: 0,
            zero_point_io: 0,
        }
    }
}

impl Default for AxisParameters {
    fn default() -> (value: Self)
        ensures
            value == Self::zero(),
    {
        AxisParameters {
            axis_num: 0,
            pulse_equivalent: 0,
            software_positive_limit: 0,
            software_negative_limit: 0,
            positive_limit_io: 0,
            negative_limit_io: 0,
            zero_point_io: 0,
        }
    }
}

impl PidParameters {
    /// Every gain at zero.
    pub open spec fn zero() -> Self {
        PidParameters { p: 0, i: 0, d: 0 }
    }
}

impl Default for PidParameters {
    fn default() -> (value: Self)
        ensures
            value == Self::zero(),
    {
        PidParameters { p: 0, i: 0, d: 0 }
    }
}

impl SpeedParameters {
    /// Every speed at zero.
    pub open spec fn zero() -> Self {
        SpeedParameters {
            processing_speed: 0,
            max_speed: 0,
            acceleration: 0,
            deceleration: 0,
            transition_time: 0,
            crawling_speed: 0,
        }
    }
}

impl Default for SpeedParameters {
    fn default() -> (value: Self)
        ensures
            value == Self::zero(),
    {
        SpeedParameters {
            processing_speed: 0,
            max_speed: 0,
            acceleration: 0,
            deceleration: 0,
            transition_time: 0,
            crawling_speed: 0,
        }
    }
}

impl Parameters {
    /// Every setting at zero.
    pub open spec fn zero() -> Self {
        Parameters {
            pid: PidParameters::zero(),
            x: AxisParameters::zero(),
            y: AxisParameters::zero(),
            z: AxisParameters::zero(),
            emergency_stop_io: 0,
            speed: SpeedParameters::zero(),
            door_switch_io: 0,
            inverted_status: InvertedStatus::zero(),
        }
    }
}

impl Default for Parameters {
    fn default() -> (value: Self)
        ensures
            value == Self::zero(),
    {
        Parameters {
            pid: PidParameters::default(),
            x: AxisParameters::default(),
            y: AxisParameters::default(),
            z: AxisParameters::default(),
            emergency_stop_io: 0,
            speed: SpeedParameters::default(),
            door_switch_io: 0,
            inverted_status: InvertedStatus::default(),
        }
    }
}

impl LimitStatus {
    /// No input set.
    pub open spec fn zero() -> Self {
        LimitStatus {
            emergency_stop: false,
            door_switch: false,
            x_plus: false,
            x_minus: false,
            y_plus: false,
            y_minus: false,
            z_plus: false,
            z_minus: false,
        }
    }

    /// The status made of the eight inputs.
    pub fn new(
        emergency_stop: bool,
        door_switch: bool,
        x_plus: bool,
        x_minus: bool,
        y_plus: bool,
        y_minus: bool,
        z_plus: bool,
        z_minus: bool,
    ) -> (status: Self)
        ensures
            status == (LimitStatus {
                emergency_stop,
                door_switch,
                x_plus,
                x_minus,
                y_plus,
                y_minus,
                z_plus,
                z_minus,
            }),
    {
        LimitStatus {
            emergency_stop,
            door_switch,
            x_plus,
            x_minus,
            y_plus,
            y_minus,
            z_plus,
            z_minus,
        }
    }
}

impl Default for LimitStatus {
    fn default() -> (value: Self)
        ensures
            value == Self::zero(),
    {
        LimitStatus::new(false, false, false, false, false, false, false, false)
    }
}

impl AxisMoveStatus {
    /// In motion at zero: not idle, speed and position zero.
    pub open spec fn zero() -> Self {
        AxisMoveStatus { is_idle: false, speed: 0, pos: 0 }
    }
}

impl Default for AxisMoveStatus {
    fn default() -> (value: Self)
        ensures
            value == Self::zero(),
    {
        AxisMoveStatus { is_idle: false, speed: 0, pos: 0 }
    }
}

impl MoveStatus {
    /// All three axes as [`AxisMoveStatus::zero`].
    pub open spec fn zero() -> Self {
        MoveStatus {
            x: AxisMoveStatus::zero(),
            y: AxisMoveStatus::zero(),
            z: AxisMoveStatus::zero(),
        }
    }
}

impl Default for MoveStatus {
    fn default() -> (value: Self)
        ensures
            value == Self::zero(),
    {
        MoveStatus {
            x: AxisMoveStatus::default(),
            y: AxisMoveStatus::default(),
            z: AxisMoveStatus::default(),
        }
    }
}

} // verus!
