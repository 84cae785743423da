pub mod handler;
pub mod latch;
pub mod maybe;
pub mod monadio;
pub mod queue;
