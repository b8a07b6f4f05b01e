pub mod notes;
pub mod tone;
pub mod tracker;
