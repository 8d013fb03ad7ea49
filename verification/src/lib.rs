pub mod convert;
pub mod time;
pub mod tz;
