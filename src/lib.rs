//! Request filtering for HTTP services: a rule set of tripwire paths, a shared
//! list of banned client addresses, and the per-request decision that bans an
//! address when it probes a tripwire path. Beside it, the data and rules of
//! API errors, the health report, and the payload shape of notifications.

pub mod addr;
pub mod banlist;
pub mod bouncer;
pub mod errors;
pub mod health;
pub mod laws;
pub mod notifier;
pub mod response;
pub mod routes;
pub mod rules;

pub use addr::{pick_address, ClientAddr};
pub use banlist::BanList;
pub use bouncer::{decide_step, BouncerConfig, BouncerLayer, Decision, LogLevel, StoreOp, Verdict};
pub use errors::{ErrorCode, ErrorFormat, ErrorType, SerializableValidationErrors, ValidationFieldError};
pub use health::{health_report, HealthCheck};
pub use notifier::NotifierKind;
pub use response::{wrapping_key, ResponseKey, WrappedJson};
pub use routes::cache_control_for;
pub use rules::{from_custom_rules, from_preset_rules, from_rules, preset_rules, RuleSet};
