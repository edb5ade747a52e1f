//! Compliance engine for vehicle-specification records.
//!
//! A record is a flat field-name -> raw-text mapping exported by a tuning
//! tool.  A regulation variant is a fixed, ordered rule set for one
//! competition class; evaluating a record against a variant returns either
//! acceptance or the first violated rule with a human-readable reason.

pub mod numeric;
pub mod leaderboard;
pub mod record;
pub mod regulations;
pub mod strutil;

pub use record::CarData;
pub use record::from_utf8_string;
