//! Orbit-determination and conjunction-screening support: element-set
//! variants and codes, the estimator's control state machine, measurement
//! layouts, all-or-nothing ephemeris assembly, native handle bookkeeping,
//! reference-frame routes, constellations and pairwise screening schedules.

pub mod constellation;
pub mod enums;
pub mod ephemeris;
pub mod estimation;
pub mod frames;
pub mod handles;
pub mod saal;
pub mod screening;
pub mod tle;
