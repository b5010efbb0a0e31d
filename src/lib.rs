//! Scanner control: device and option lookup, option negotiation plans,
//! image reconstruction from raw samples, and the state of the interactive
//! front end.

pub mod cli;
pub mod device;
pub mod error;
pub mod frame;
pub mod registry;
pub mod text;
pub mod tui;
