//! A structured logging facade: one registry through which every component
//! emits events, whichever backend ends up consuming them.

pub mod error;
pub mod event;
pub mod laws;
pub mod logger;
pub mod sink;
