use vstd::prelude::*;
use vstd::string::StringExecFns;

verus! {

/// Why a command option could not be read.
#[derive(Debug)]
pub enum ParserError {
    ChannelId(String),
}

/// What the bot reads of a resolved command option.
pub enum OptionValue {
    /// A channel, by id.
    Channel(u64),
    /// Any other kind of value.
    Other,
}

/// A command option as the platform delivers it: its resolved value, if the
/// platform resolved one.
pub struct CommandOption {
    pub resolved: Option<OptionValue>,
}

/// Reads typed values out of a command's options.
pub struct OptionParser;

/// The character of a decimal digit.
pub open spec fn digit_char(d: nat) -> char {
    if d == 0 {
        '0'
    } else if d == 1 {
        '1'
    } else if d == 2 {
        '2'
    } else if d == 3 {
        '3'
    } else if d == 4 {
        '4'
    } else if d == 5 {
        '5'
    } else if d == 6 {
        '6'
    } else if d == 7 {
        '7'
    } else if d == 8 {
        '8'
    } else {
        '9'
    }
}

/// `n` written in decimal, without leading zeros.
pub open spec fn decimal_text(n: nat) -> Seq<char>
    decreases n,
{
    if n < 10 {
        seq![digit_char(n)]
    } else {
        decimal_text(n / 10).push(digit_char(n % 10))
    }
}

/// The text of the error for a missing channel option at `index`.
pub open spec fn missing_channel_text(index: nat) -> Seq<char> {
    "No ChannelId option was found at index "@ + decimal_text(index) + "!"@
}

/// The one-character text of the decimal digit `d`.
fn digit_str(d: usize) -> (r: &'static str)
    requires
        d < 10,
    ensures
        r@ == seq![digit_char(d as nat)],
{
    if d == 0 {
        proof {
            reveal_strlit("0");
        }
        "0"
    } else if d == 1 {
        proof {
            reveal_strlit("1");
        }
        "1"
    } else if d == 2 {
        proof {
            reveal_strlit("2");
        }
        "2"
    } else if d == 3 {
        proof {
            reveal_strlit("3");
        }
        "3"
    } else if d == 4 {
        proof {
            reveal_strlit("4");
        }
        "4"
    } else if d == 5 {
        proof {
            reveal_strlit("5");
        }
        "5"
    } else if d == 6 {
        proof {
            reveal_strlit("6");
        }
        "6"
    } else if d == 7 {
        proof {
            reveal_strlit("7");
        }
        "7"
    } else if d == 8 {
        proof {
            reveal_strlit("8");
        }
        "8"
    } else {
        proof {
            reveal_strlit("9");
        }
        "9"
    }
}

/// Appends `n`, written in decimal, to `s`.
fn push_decimal(s: &mut String, n: usize)
    ensures
        final(s)@ == old(s)@ + decimal_text(n as nat),
    decreases n,
{
    if n < 10 {
        s.append(digit_str(n));
    } else {
        let ghost start = s@;
        push_decimal(s, n / 10);
        s.append(digit_str(n % 10));
        assert(s@ =~= start + decimal_text(n as nat));
    }
}

/// The text of the error for a missing channel option at `index`.
fn missing_channel_message(index: usize) -> (r: String)
    ensures
        r@ == missing_channel_text(index as nat),
{
    let mut text = "No ChannelId option was found at index ".to_owned();
    push_decimal(&mut text, index);
    text.append("!");
    text
}

/// Whether `options` holds a resolved channel at `index`, and which.
pub open spec fn channel_at(options: Seq<CommandOption>, index: int) -> Option<u64> {
    if 0 <= index < options.len() {
        match options[index].resolved {
            Some(OptionValue::Channel(id)) => Some(id),
            _ => None,
        }
    } else {
        None
    }
}

impl OptionParser {
    /// The channel id that the option at `index` resolved to; an error naming
    /// the index where there is no such option or it is not a channel.
    pub fn parse_channel_id(options: &[CommandOption], index: usize) -> (r: Result<u64, ParserError>)
        ensures
            match channel_at(options@, index as int) {
                Some(id) => r == Ok::<u64, ParserError>(id),
                None => r matches Err(ParserError::ChannelId(text)) && text@ == missing_channel_text(
                    index as nat,
                ),
            },
    {
        if index < options.len() {
            if let Some(OptionValue::Channel(id)) = &options[index].resolved {
                return Ok(*id);
            }
        }
        Err(ParserError::ChannelId(missing_channel_message(index)))
    }
}

} // verus!
