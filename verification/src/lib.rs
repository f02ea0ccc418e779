//! Date and time functions of the Guard rule language, over the values
//! that rule queries resolve to.

pub mod date_time;
pub mod civil;
pub mod decimal;
pub mod error;
pub mod path_value;
