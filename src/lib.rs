pub mod bus;
pub mod datetime;
pub mod ds3231;
pub mod lcd;
pub mod mhz19;
