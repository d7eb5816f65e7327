//! Join-time challenge gate: a store of outstanding challenges keyed by
//! member, the decisions taken on a join and on a private reply, and the
//! filling of the user-facing message templates.

mod captcha_builder;
mod gatekeeper;
mod messages;
mod store;

pub use captcha_builder::{build_captcha, Challenge};
pub use gatekeeper::{
    after_delivery, create_captcha, on_join, on_message, DeliveryFollowUp, MessageAction,
};
pub use messages::{get_env_error_message, get_server_message, get_user_send_error};
pub use store::{ChallengeStore, MatchResult};
