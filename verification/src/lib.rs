//! Verified presentation and planning logic of a life-long financial
//! strategy simulator: number formatting in Taiwanese currency units,
//! the set of return-rate trajectories that a chart shows, the age
//! timeline of a simulation, and the texts that describe it.

pub mod text;
pub mod number;
pub mod twd;
pub mod labels;
pub mod routes;
pub mod plot;
pub mod settings;
pub mod summary;
pub mod simulation;
