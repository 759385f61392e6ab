pub mod path;
pub mod scanner;
pub mod classifier;
pub mod store;
pub mod scheduler;
pub mod worker;
