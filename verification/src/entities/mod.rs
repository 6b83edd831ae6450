//! The records the service keeps: accounts, their sessions, and the profiles
//! they own.

pub mod active_enums;
pub mod app_user;
pub mod user_info;
pub mod we_chat_session;
