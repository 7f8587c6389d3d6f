//! Weather forecasts from several providers behind one model, and a registry
//! of named places.
//!
//! Every measurement and coordinate is a [`decimal::Decimal`], a whole number
//! of millionths, so that ranges, conversions and the text of a number are
//! exact. The library makes no call over the network and reads neither a
//! file nor the clock: it says what is to be asked of a provider, reads the
//! forecast from the answer as of a moment that it is given, and says what
//! is to be shown and stored.

pub mod cli;
pub mod config;
pub mod decimal;
pub mod errors;
pub mod providers;
pub mod registry;
pub mod timing;
pub mod weather;
