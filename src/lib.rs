//! Break-reminder core.
//!
//! The application alternates between working and breaking.  Everything it
//! decides lives here and is verified: the settings and their ranges
//! (`config`), the phase state machine and its deadlines (`machine`), the
//! countdown shown during a break and its hidden skip phrase (`countdown`),
//! the single entry point for host events (`events`), and the texts the host
//! displays (`refresh`, `texts`, `timefmt`, `i18n`).  The host reads the
//! clocks, runs the timers, draws and plays sounds: it reports what happened
//! as an [`events::Event`] and carries out the [`machine::Action`]s it gets
//! back.

pub mod text;
pub mod timefmt;
pub mod i18n;
pub mod config;
pub mod machine;
pub mod countdown;
pub mod texts;
pub mod refresh;
pub mod events;
pub mod surface;
pub mod log;
pub mod error;
pub mod wide;
pub mod layout;
