//! Execution core of a three-axis machine tool: a G-code line parser, the
//! interpreter that turns commands into controller operations, the program
//! runner and controller session state machines, and the raster that shows the
//! tool path.
//!
//! Every numeric quantity of the machine (positions, speeds, scales) is a
//! signed fixed-point number counted in millionths of a unit, so that all of
//! the arithmetic is exact and can be stated in contracts.
//!
//! Nothing here touches the hardware or waits. The runner and the session
//! manager say what is to be done next, step by step; a driver does it and
//! reports back.
//!
//! - [`parser`] reads one line into a [`command::GCodeCommand`].
//! - [`interpreter`] turns a command into operations and keeps the context.
//! - [`runner`] owns the program, the cursor and the preview.
//! - [`zmc`] is the controller session: access, polling, driver calls.
//! - [`bitmap`], [`path`], [`arc`] and [`preview`] draw the tool path;
//!   [`arc_laws`] says what holds of arcs; [`image`] encodes the raster.
//! - [`model`] holds the settings and status records, [`program`] cuts a
//!   text into lines, [`text`] and [`fixed`] are the ground they stand on.
use vstd::prelude::*;

pub mod arc;
pub mod arc_laws;
pub mod bitmap;
pub mod command;
pub mod fixed;
pub mod image;
pub mod interpreter;
pub mod model;
pub mod parser;
pub mod path;
pub mod preview;
pub mod program;
pub mod runner;
pub mod text;
pub mod zmc;
