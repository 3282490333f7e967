//! What the commands of the bot decide, apart from the platform calls that carry them out.

pub mod configuration;
pub mod meta;
pub mod moderation;
pub mod utilities;
