//! The filter core: the shared belief representation, the system-model
//! capability interface, and the predict/update recursion.

pub mod gaussian_state;
pub mod kalman_filter;
pub mod systems;
