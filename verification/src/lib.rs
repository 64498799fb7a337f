//! Core logic of a leak-monitoring node: a three-level system status derived
//! from sensor facts, the frame that shows it, a monotonic timer queue, a
//! priority scheduler with ceiling locks, and the periodic tasks built on them.

pub mod status;
pub mod task;
pub mod timer;
pub mod scheduler;
pub mod lock;
pub mod display;
pub mod tasks;
pub mod logger;
pub mod can;
pub mod singleton;
