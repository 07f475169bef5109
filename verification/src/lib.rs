//! Rules of the durian-orchard planning service that can be stated and proved:
//! reading the environment, the rate gate in front of the account doors, mail
//! configuration and links, the checks applied to what an owner types, and
//! the plan form read into the plan the calculation works from and back.

pub mod amount;
pub mod analysis_ui;
pub mod assets;
pub mod auth;
pub mod gate;
pub mod limiter;
pub mod limiter_history;
pub mod mail;
pub mod plan_facts;
pub mod plan_form;
pub mod plan_round_trip;
pub mod plan_ui;
pub mod plans;
pub mod settings;
pub mod text;
