//! Polling and aggregation engine of a status line for tiling window-manager
//! bars: a smoothing filter for noisy readings, the tick schedule of periodic
//! monitors, the rendering of segments, the sensors' readings and texts (the
//! battery's estimate of the time left among them), and the fan-in aggregator
//! that merges every sensor's latest segment into one ordered output line.

pub mod aggregator;
pub mod battery;
pub mod block;
pub mod ema;
pub mod monitor;
pub mod text;
pub mod usage;
