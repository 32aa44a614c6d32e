//! The controller: child resources, job building and the lifecycle state machine.

pub mod child_resources;
pub mod course_laws;
pub mod detail_laws;
pub mod effect_laws;
pub mod helpers;
pub mod lifecycle_laws;
pub mod made;
pub mod missing_database;
pub mod object_laws;
pub mod patches;
pub mod phase_laws;
pub mod provision_laws;
pub mod reading;
pub mod refresh_laws;
pub mod restore_laws;
pub mod snapshot;
pub mod state_machine;
pub mod states;
pub mod transitions;
pub mod watch_laws;
pub mod words;
pub mod work_laws;
