// Real-time fall detection over a stream of accelerometer samples.
//
// All quantities are fixed-point integers: accelerations in thousandths of
// m/s^2, g-force in thousandths of standard gravity, variance in
// millionths of (m/s^2)^2, time in milliseconds.
pub mod model;
pub mod magnitude;
pub mod variance;
pub mod clock;
pub mod logic;
pub mod session;
pub mod fhir;
pub mod laws;
