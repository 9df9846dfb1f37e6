pub mod administration;
pub mod audio;
pub mod shared;
