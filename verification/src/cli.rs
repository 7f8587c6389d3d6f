//! What each command decides, apart from what it reads and writes.

pub mod configure;
pub mod forecast;
pub mod places;
