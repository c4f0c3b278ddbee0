//! The handlers, one module for each provider.

pub mod dog;
pub mod f1;
pub mod openai;
pub mod riot;
pub mod util;
