//! TimberWolf - the execution core of a real-time interactive application:
//! a dual-rate frame scheduler with lag compensation, and a layered
//! state-machine stack that decides, on every tick, which active layers
//! participate in rendering and simulation.

pub mod context;
pub mod dispatch;
pub mod event;
pub mod graphics;
pub mod lifecycle;
pub mod log;
pub mod timing;
