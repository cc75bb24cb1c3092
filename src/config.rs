use std::collections::HashMap;
use vstd::prelude::*;

verus! {

/// The settings read from the process environment: the bot's token and the
/// path of the settings file.
pub struct EnvironmentConfigurations {
    pub bot_token: String,
    pub config_path: String,
}

/// The bot's persistent settings: the watched author, the destination channel
/// of each community, and the path of the message store.
pub struct AppConfig {
    pub observed_user_id: u64,
    pub deleted_message_send_channels: HashMap<u64, u64>,
    pub message_storage_path: String,
}

/// Where the message store lives unless the settings say otherwise.
pub const DEFAULT_MESSAGE_STORAGE_PATH: &'static str = "./message_storage.json";

impl AppConfig {
    /// The settings written when no settings file exists yet: no watched
    /// author, no destinations, the default store path.
    pub fn initial() -> (r: AppConfig)
        ensures
            r.observed_user_id == 0,
            r.deleted_message_send_channels@ == Map::<u64, u64>::empty(),
            r.message_storage_path@ == DEFAULT_MESSAGE_STORAGE_PATH@,
    {
        AppConfig {
            observed_user_id: 0,
            deleted_message_send_channels: HashMap::new(),
            message_storage_path: DEFAULT_MESSAGE_STORAGE_PATH.to_owned(),
        }
    }
}

} // verus!
