pub mod report;
pub mod scan;
pub mod stats;
