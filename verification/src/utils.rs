//! Validation of user-supplied values and password hashing.

pub mod input_validation;
pub mod password_utils;
