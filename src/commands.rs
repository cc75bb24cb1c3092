use vstd::prelude::*;
use crate::config::AppConfig;
use crate::handler::Configuration;
use crate::parser::{channel_at, missing_channel_text, CommandOption, OptionParser, ParserError};

verus! {

/// serenity's error type, carried opaquely in `CommandError`.
#[verifier::external_type_specification]
#[verifier::external_body]
pub struct ExSerenityError(serenity::Error);

/// std's I/O error type, carried opaquely in `CommandError`.
#[verifier::external_type_specification]
#[verifier::external_body]
pub struct ExIoError(std::io::Error);

/// serde_json's error type, returned by the store's JSON wrappers and carried
/// opaquely in `CommandError`.
#[verifier::external_type_specification]
#[verifier::external_body]
pub struct ExJsonError(serde_json::Error);

/// What a command or a store operation can fail with.
#[derive(Debug)]
pub enum CommandError {
    Parser(ParserError),
    Serenity(serenity::Error),
    IO(std::io::Error),
    Serialization(serde_json::Error),
    NoGuildId,
}

impl From<ParserError> for CommandError {
    fn from(value: ParserError) -> (r: CommandError)
        ensures
            r == CommandError::Parser(value),
    {
        CommandError::Parser(value)
    }
}

impl vstd::std_specs::convert::FromSpecImpl<ParserError> for CommandError {
    open spec fn obeys_from_spec() -> bool {
        true
    }

    open spec fn from_spec(v: ParserError) -> CommandError {
        CommandError::Parser(v)
    }
}

impl From<serenity::Error> for CommandError {
    fn from(value: serenity::Error) -> (r: CommandError)
        ensures
            r == CommandError::Serenity(value),
    {
        CommandError::Serenity(value)
    }
}

impl vstd::std_specs::convert::FromSpecImpl<serenity::Error> for CommandError {
    open spec fn obeys_from_spec() -> bool {
        true
    }

    open spec fn from_spec(v: serenity::Error) -> CommandError {
        CommandError::Serenity(v)
    }
}

impl From<std::io::Error> for CommandError {
    fn from(value: std::io::Error) -> (r: CommandError)
        ensures
            r == CommandError::IO(value),
    {
        CommandError::IO(value)
    }
}

impl vstd::std_specs::convert::FromSpecImpl<std::io::Error> for CommandError {
    open spec fn obeys_from_spec() -> bool {
        true
    }

    open spec fn from_spec(v: std::io::Error) -> CommandError {
        CommandError::IO(v)
    }
}

/// The name under which the configuration command is registered.
pub const COMMAND_NAME: &'static str = "config";

/// The command that sets, for the community it is run in, the channel that
/// deleted messages are relayed to.
pub struct ConfigCommand;

impl ConfigCommand {
    pub fn name(&self) -> (r: String)
        ensures
            r@ == COMMAND_NAME@,
    {
        COMMAND_NAME.to_owned()
    }

    /// The settings after the command was run in `guild_id` with `options`:
    /// the channel of the first option becomes the destination of that
    /// community, replacing any earlier one; all else is kept. Fails with a
    /// parser error when the first option is not a channel, else with
    /// `NoGuildId` outside a community.
    pub fn updated_config(
        configuration: &Configuration,
        guild_id: Option<u64>,
        options: &[CommandOption],
    ) -> (r: Result<AppConfig, CommandError>)
        ensures
            channel_at(options@, 0) is None ==> (r matches Err(
                CommandError::Parser(ParserError::ChannelId(text)),
            ) && text@ == missing_channel_text(0)),
            channel_at(options@, 0) is Some && guild_id is None ==> r matches Err(
                CommandError::NoGuildId,
            ),
            r is Ok <==> channel_at(options@, 0) is Some && guild_id is Some,
            r matches Ok(c) ==> {
                &&& c.observed_user_id == configuration.observed_users
                &&& c.message_storage_path == configuration.message_storage_path
                &&& c.deleted_message_send_channels@ == configuration.send_channels@.insert(
                    guild_id->Some_0,
                    channel_at(options@, 0)->Some_0,
                )
            },
    {
        let channel_id = match OptionParser::parse_channel_id(options, 0) {
            Ok(id) => id,
            Err(e) => return Err(CommandError::Parser(e)),
        };
        let guild = match guild_id {
            Some(g) => g,
            None => return Err(CommandError::NoGuildId),
        };
        let mut channels = configuration.send_channels.clone();
        channels.insert(guild, channel_id);
        Ok(
            AppConfig {
                observed_user_id: configuration.observed_users,
                deleted_message_send_channels: channels,
                message_storage_path: configuration.message_storage_path.clone(),
            },
        )
    }
}

} // verus!
