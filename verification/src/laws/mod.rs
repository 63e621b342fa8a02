//! What holds of the token as a whole.

pub mod announcements;
pub mod answers;
pub mod conservation;
pub mod content;
pub mod entries;
pub mod every_state;
pub mod lifecycle;
pub mod moves;
pub mod paying;
pub mod reading;
pub mod reckoning;
pub mod records;
pub mod redeeming;
pub mod redemption;
pub mod rules;
pub mod soundness;
