//! Decision logic of a task handler for a robotic manipulator: which remote
//! steps run for a pick or place request, in what order, and how each step's
//! result moves the request towards its outcome.

pub mod request;
pub mod workflow;
pub mod sensor;
pub mod dispatcher;
