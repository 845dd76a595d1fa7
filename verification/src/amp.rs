pub mod cab;
pub mod gain;
