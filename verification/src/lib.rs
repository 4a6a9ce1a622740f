//! Status afflictions and damage resolution for a turn-based monster battle.
//!
//! A creature carries at most one non-volatile status and any number of
//! volatile ones. Each turn the statuses deal their damage and advance their
//! counters, and a creature left with less than one hit point faints.
//!
//! Fractional quantities are held as integers counted in sixteenths: one hit
//! point is [`statuses::HP_SCALE`] units of damage, and a neutral type
//! multiplier is [`typing::NEUTRAL`]. A maximum hit-point total is a whole
//! number of points, so every status formula (an eighth, a sixteenth, a
//! multiple of a sixteenth of it) is exact in these units.

pub mod moves;
pub mod pokemon;
pub mod statuses;
pub mod typing;
