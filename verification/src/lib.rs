//! Access control for medical-record data.
//!
//! Three subject roles (administrators, doctors, patients) act on user
//! records, medical folders and medical reports. The decision engine in
//! [`authorization`] evaluates each (subject, action) pair against a fixed
//! rule table and returns an allow/deny verdict; the rule table is stated
//! as a spec function, and the evaluator is proved against it.
//!
//! The supporting modules validate usernames and insured-person identifiers
//! and wrap password hashing, so that only well-formed entities reach the
//! engine.

pub mod authorization;
pub mod models;
pub mod utils;
