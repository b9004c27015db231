//! Start-up decisions of a desktop application shell: which capability
//! plugins it registers and in what order, where it registers its deep-link
//! URL schemes with the operating system, what it prints when a second
//! instance is launched, and how a failed run loop is reported.
//!
//! The framework calls themselves (building the application, running its
//! event loop, talking to the operating system) are made by the host program,
//! which hands the outcomes to the functions here.

pub mod platform;
pub mod instance;
pub mod plugins;
pub mod startup;
