//! The verified core of a webcam workspace: device selection, the camera
//! viewer's state, the camera worker's decisions, frame differencing and the
//! chi-square test of byte uniformity that runs over frame differences.

pub mod chi_square;
pub mod decimal;
pub mod tracker;
pub mod frames;
pub mod devices;
pub mod messages;
pub mod viewer;
pub mod worker;
