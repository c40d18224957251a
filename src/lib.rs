//! Coordination and estimation core of a small motion-and-clock firmware:
//! latest-value channels, a quadrature encoder decoder, a field-cycling edit
//! mode, a calendar clock, sensor calibration and the text shown on screen.

pub mod channel;
pub mod encoder;
pub mod edit_mode;
pub mod calendar;
pub mod clock;
pub mod estimator;
pub mod display;
pub mod hardware;
