//! Request and response records of the web API's methods, one module per method family.

pub mod api;
pub mod auth;
pub mod bots;
pub mod channels;
pub mod chat;
pub mod dnd;
pub mod emoji;
pub mod files;
pub mod files_comments;
pub mod groups;
pub mod im;
pub mod mpim;
pub mod pins;
pub mod reactions;
pub mod reminders;
pub mod rtm;
pub mod search;
pub mod stars;
pub mod team_profile;
pub mod usergroups;
pub mod usergroups_users;
pub mod users;
pub mod users_profile;
