//! The two instructions of the program, each as a transition on the records
//! that it is handed.

pub mod initialize_creator;
pub mod tip;
