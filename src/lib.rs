//! A hysteresis state machine that turns a noisy per-frame gesture signal (a
//! label and a confidence) into a stable interaction state.

pub mod gesture;
pub mod laws;
pub mod machine;
pub mod model;

pub use gesture::Gesture;
pub use machine::GestureFsmRs;
pub use model::FsmStateType;
