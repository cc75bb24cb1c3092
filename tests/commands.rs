use std::collections::HashMap;

use angel_bot::commands::{CommandError, ConfigCommand};
use angel_bot::config::AppConfig;
use angel_bot::handler::Configuration;
use angel_bot::parser::{CommandOption, OptionParser, OptionValue, ParserError};

fn configuration() -> Configuration {
    let mut send_channels = HashMap::new();
    send_channels.insert(1, 10);
    send_channels.insert(2, 20);
    Configuration {
        observed_users: 77,
        send_channels,
        message_storage_path: "./store.json".to_string(),
        file_path: "./settings.json".to_string(),
    }
}

fn channel(id: u64) -> CommandOption {
    CommandOption { resolved: Some(OptionValue::Channel(id)) }
}

#[test]
fn parse_channel_id_reads_channel() {
    let options = vec![channel(5), CommandOption { resolved: Some(OptionValue::Other) }];
    assert!(matches!(OptionParser::parse_channel_id(&options, 0), Ok(5)));
}

#[test]
fn parse_channel_id_errors_name_the_index() {
    let options = vec![channel(5), CommandOption { resolved: Some(OptionValue::Other) }];
    match OptionParser::parse_channel_id(&options, 1) {
        Err(ParserError::ChannelId(text)) => {
            assert_eq!(text, "No ChannelId option was found at index 1!")
        }
        _ => panic!("expected an error"),
    }
    match OptionParser::parse_channel_id(&options, 123) {
        Err(ParserError::ChannelId(text)) => {
            assert_eq!(text, "No ChannelId option was found at index 123!")
        }
        _ => panic!("expected an error"),
    }
    match OptionParser::parse_channel_id(&[], 0) {
        Err(ParserError::ChannelId(text)) => {
            assert_eq!(text, "No ChannelId option was found at index 0!")
        }
        _ => panic!("expected an error"),
    }
    match OptionParser::parse_channel_id(&options, usize::MAX) {
        Err(ParserError::ChannelId(text)) => {
            assert_eq!(text, format!("No ChannelId option was found at index {}!", usize::MAX))
        }
        _ => panic!("expected an error"),
    }
    let unresolved = vec![CommandOption { resolved: None }];
    assert!(OptionParser::parse_channel_id(&unresolved, 0).is_err());
}

#[test]
fn config_command_is_named_config() {
    assert_eq!(ConfigCommand.name(), "config");
}

#[test]
fn config_update_replaces_destination_of_the_guild() {
    let conf = configuration();
    let updated = ConfigCommand::updated_config(&conf, Some(2), &[channel(30)]).unwrap();
    assert_eq!(updated.observed_user_id, 77);
    assert_eq!(updated.message_storage_path, "./store.json");
    assert_eq!(updated.deleted_message_send_channels.len(), 2);
    assert_eq!(updated.deleted_message_send_channels.get(&1), Some(&10));
    assert_eq!(updated.deleted_message_send_channels.get(&2), Some(&30));
    let added = ConfigCommand::updated_config(&conf, Some(3), &[channel(40)]).unwrap();
    assert_eq!(added.deleted_message_send_channels.len(), 3);
    assert_eq!(added.deleted_message_send_channels.get(&3), Some(&40));
}

#[test]
fn config_update_errors() {
    let conf = configuration();
    assert!(matches!(
        ConfigCommand::updated_config(&conf, None, &[channel(30)]),
        Err(CommandError::NoGuildId)
    ));
    assert!(matches!(
        ConfigCommand::updated_config(&conf, Some(1), &[]),
        Err(CommandError::Parser(ParserError::ChannelId(_)))
    ));
}

#[test]
fn initial_config_is_empty() {
    let c = AppConfig::initial();
    assert_eq!(c.observed_user_id, 0);
    assert!(c.deleted_message_send_channels.is_empty());
    assert_eq!(c.message_storage_path, "./message_storage.json");
}
