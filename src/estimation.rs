pub mod measurement;
pub mod solver;
