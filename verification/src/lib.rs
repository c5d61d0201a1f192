//! Rules of a football club simulation: how players settle after a transfer,
//! train, age out of contracts, talk to their manager, fall out with each
//! other and look for a club when they have none.

pub mod adaptation;
pub mod arrival;
pub mod club;
pub mod date;
pub mod decisions;
pub mod environment;
pub mod environment_laws;
mod fxmap;
pub mod happiness;
pub mod interaction;
pub mod language;
pub mod ledger;
pub mod market;
pub mod measure;
pub mod noise;
pub mod plan;
pub mod player;
pub mod rapport;
pub mod relations;
pub mod settling;
pub mod status;
pub mod talks;
pub mod text;
pub mod training;
pub mod training_laws;
