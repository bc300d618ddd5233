//! The verified core of a terminal dashboard for the telemetry of an NVIDIA
//! GPU.
//!
//! The dashboard samples the device once per frame, keeps a bounded history of
//! each metric, shows the histories as scrolling charts, and quits on `q`.
//! This crate holds everything that is decided or computed on the way:
//!
//! - `ring`: the bounded history of one metric;
//! - `metric`: the metrics, the snapshot of one frame, and how each metric is
//!   shown;
//! - `chart`: the projection of a history onto chart space;
//! - `layout`: cell rectangles and the grid of panels;
//! - `frame`: what one frame shows, as plain values;
//! - `input`: the keyboard events that the dashboard reads;
//! - `status`: error kinds and outcomes;
//! - `control`: the protocol between the loop and its driver;
//! - `app`: the application state and the loop itself.
//!
//! The terminal and the device are reached by a driver outside this crate,
//! which performs the actions that the loop asks for and reports back.

pub mod app;
pub mod chart;
pub mod control;
pub mod frame;
pub mod input;
pub mod layout;
pub mod metric;
pub mod ring;
pub mod status;
