pub mod cli;
pub mod clock;
pub mod failure;
pub mod period;
pub mod store;
pub mod text;
pub mod zone;
