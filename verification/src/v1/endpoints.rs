pub mod administration;
