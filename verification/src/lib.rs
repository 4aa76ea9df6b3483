//! A CPU-budgeted task dispatcher: the workload model, the dispatch queue with its
//! two scheduling policies, the decisions of the worker and collector loops, the
//! run statistics, and a few small exercises that came with the same project.

pub mod task;
pub mod rng;
pub mod queue;
pub mod dispatch;
pub mod metrics;
pub mod monitor;
pub mod numbers;
pub mod guess;
pub mod colors;
pub mod items;
pub mod menu;
pub mod fileops;
