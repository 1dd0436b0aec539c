//! A modal overlay engine for panes of a terminal multiplexer.
//!
//! An overlay temporarily replaces the content of a pane with a small
//! interactive program, such as a tab picker. The program itself blocks on a
//! terminal handle and therefore runs on a worker thread; this crate holds
//! everything such a program decides, written as state machines that perform
//! no input or output themselves. A driver owns the terminal handle and the
//! threads: it performs each action a machine asks for and reports back what
//! happened.
//!
//! * [`change`] is the vocabulary of render instructions, and reads a
//!   change-set back into the lines it highlights.
//! * [`frame`] is what the tab picker draws.
//! * [`input`] is the vocabulary of input events.
//! * [`label`] builds the text of the lines of a list.
//! * [`navigator`] is the tab picker.
//! * [`request`] is what a worker may ask of the interface thread.
//! * [`session`] is the life of one overlay, from launch to teardown.

pub mod change;
pub mod frame;
pub mod input;
pub mod label;
pub mod navigator;
pub mod request;
pub mod session;
