//! State-transition orchestration: deciding which transition a request causes,
//! in which order the steps of a cycle run, and which schedules a transition
//! dispatches.

pub mod states;
pub mod event;
pub mod apply;
pub mod request;
pub mod steps;
pub mod labels;
pub mod dispatch;
pub mod setup;
