//! An exercise runner: it decides from an exercise's source text whether the
//! exercise is finished, plans and judges the toolchain runs that check it,
//! and keeps the books of a pass through the exercises. Nothing here starts a
//! process, touches a file or waits: the program around the library carries
//! out what the library asks for and tells it how that went.
//!
//! The solutions of the exercises that the runner is shipped with are in
//! [`exercises`].

pub mod batch;
pub mod catalog;
pub mod exercise;
pub mod exercises;
pub mod letters;
pub mod marker;
pub mod numbers;
pub mod project;
pub mod quick;
pub mod report;
pub mod run;
pub mod shell;
pub mod text;
pub mod toolchain;
pub mod verify;
pub mod watch;
pub mod wording;
