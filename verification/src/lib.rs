//! The decision core of an autonomous plant-care controller.
//!
//! Once per cycle the device samples a soil-moisture channel and a light
//! channel, normalizes both counts, runs two small inference models (one for
//! watering, one for shading), and drives a water relay and a shading servo.
//! This crate holds everything of that loop that is pure decision logic:
//! sensor normalization, feature-vector assembly and the actuation
//! thresholds, the timed shade state machine, the days-since-watered
//! counter, the servo angle-to-duty mapping with its stepped sweep, and the
//! fault-recovery policy. The peripherals, the blocking delays and the
//! models themselves stay with the unverified driver, which hands plain
//! values in and carries the returned actions out.

pub mod controller;
pub mod decision;
pub mod fault;
pub mod normalize;
pub mod ratio;
pub mod servo;
pub mod shade;
