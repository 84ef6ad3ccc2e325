pub mod cutter;
pub mod gpio;
pub mod job;
pub mod scripted;
pub mod turtle;
pub mod units;
