pub mod coalescer;
pub mod error;
pub mod feed;
pub mod laws;
pub mod model;
pub mod stages;
