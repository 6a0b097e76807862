//! The scaled and packed values that the records are built from.
pub mod absorption;
pub mod datetime;
pub mod frequency;
pub mod i14f2;
pub mod profile_min_range;
pub mod profile_range;
pub mod pulse_length;
pub mod real_time_prf;
pub mod sector_size;
pub mod sound_velocity;
pub mod start_gain;
pub mod string;
pub mod train_angle;
pub mod u14;
