pub mod benchmark;
pub mod collector;
pub mod director;
pub mod executor;
pub mod icinga;
pub mod metrics;
pub mod parallel;
pub mod satellite;
pub mod text;
pub mod value;
