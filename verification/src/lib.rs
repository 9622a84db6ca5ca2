//! A small verified weather library: it selects a weather emoji from a
//! temperature, a terminal color from a condition description, formats a
//! weather report as text, extracts a report from a provider's JSON body,
//! and drives an interactive query session as a state machine.
pub mod color;
pub mod display;
pub mod fetch;
pub mod numfmt;
pub mod numparse;
pub mod report;
pub mod session;
pub mod temp;
pub mod text;
