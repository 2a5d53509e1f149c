//! ORACLE: the verified core of an Android network forensics platform.
//!
//! The library holds the forensic ontology (identifiers, device and
//! capability descriptions, evidence and audit types), the deterministic
//! confidence scoring model, the artifact acquisition coordinator, the report
//! data model, and the decisions taken by the command-line front end
//! (pre-flight checks, investigation commands).
//!
//! Scores, weights and confidences are fixed-point numbers in ten-thousandths
//! (`SCORE_SCALE` stands for 1.0); instants are seconds and nanoseconds since
//! the Unix epoch.
#![allow(unused_imports)]

pub mod ids;
pub mod time;
pub mod text;
pub mod types;
pub mod model;
pub mod stats;
pub mod scorer;
pub mod acquisition;
pub mod report;
pub mod startup;
pub mod commands;
