//! Helpers shared by the detection services.

pub mod prompt_utils;
