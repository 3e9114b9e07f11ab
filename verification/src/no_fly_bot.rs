//! NoFlyBot: a bot that hands each command to the program that its
//! configuration names for it.

use crate::bot::{fails, parsed, refuse, spelled, Action, Bot, Command, Job, Outcome};
use crate::config::{field, text_of, ConfigData, ConfigValue};
use crate::entities::{Message, Request, RequestType};
use crate::json::Data;
use crate::session::Session;
use crate::telegram::Telegram;
use crate::text::{
    decimal, decimal_i64, rest_swapped, skip_first, split_spaces, starts_with, texts, trim,
    trimmed,
};
use vstd::prelude::*;
use vstd::string::StringExecFns;

verus! {

/// The command that the bot reads from a message: the one its text spells
/// where the text begins with a slash or a hash; for a message without text
/// that carries a location, the command to set the location, with the
/// longitude and the latitude.
pub open spec fn read(message: Option<Box<Message>>) -> Result<Command, Seq<char>> {
    match message {
        None => Err("Empty message"@),
        Some(msg) => match msg.text {
            Some(txt) => {
                let text = trimmed(txt@);
                if text.len() > 0 && (text[0] == '/' || text[0] == '#') {
                    Ok(spelled(text))
                } else {
                    Err("String \""@ + text + "\" doesn't contains a command"@)
                }
            },
            None => match msg.location {
                Some(loc) => Ok(("set_location"@, seq![loc.longitude@, loc.latitude@])),
                None => Err("Unsupported message type"@),
            },
        },
    }
}

/// The path of the program that a configuration names for a command: the
/// string under the command's name in the table `commands`.
pub open spec fn program_of(config: ConfigData, method: Seq<char>) -> Result<Seq<char>, Seq<char>> {
    match field(config, "commands"@) {
        None => Err("Command "@ + method + " not configured"@),
        Some(table) => match field(table, method) {
            None => Err("Command "@ + method + " not configured"@),
            Some(v) => match text_of(v) {
                None => Err("Command "@ + method + " incorrectly configured"@),
                Some(path) => Ok(path),
            },
        },
    }
}

/// The chat and the sender of a request: those of its message, else those of
/// its edited message.
pub open spec fn parties(request: Request) -> Option<(Seq<char>, Seq<char>)> {
    match request.message {
        Some(msg) => Some((decimal(msg.chat.id as int), decimal(msg.from.id as int))),
        None => match request.edited_message {
            Some(msg) => Some((decimal(msg.chat.id as int), decimal(msg.from.id as int))),
            None => None,
        },
    }
}

/// Whether `result` is the answer to a command: the program of the command
/// is to be run with the chat, the sender and the arguments of the command.
pub open spec fn runs(
    method: Seq<char>,
    args: Seq<Seq<char>>,
    request: Request,
    config: ConfigData,
    result: Result<Outcome, String>,
) -> bool {
    match program_of(config, method) {
        Err(e) => fails(e, result),
        Ok(path) => match parties(request) {
            None => fails("Unsupported message type"@, result),
            Some((chat, user)) => result matches Ok(o) && o.remember is None && (
            o.action matches Action::Run(job) && job.program@ == path && texts(job.args@) == seq![
                chat,
                user,
            ] + args && job.chat_id@ == chat && job.method@ == method),
        },
    }
}

/// The bot.
pub struct NoFlyBot {
    api: Telegram,
}

impl NoFlyBot {
    /// The command of a message and its arguments.
    pub fn get_command_and_arguments(message: &Option<Box<Message>>) -> (r: Result<
        (String, Vec<String>),
        String,
    >)
        ensures
            parsed(r) == read(*message),
    {
        match message {
            Some(msg) => {
                match msg.get_text() {
                    Some(txt) => {
                        let text = trim(txt.as_str());
                        if starts_with(text.as_str(), '/') || starts_with(text.as_str(), '#') {
                            let mut words = split_spaces(text.as_str());
                            let ghost all = texts(words@);
                            //remove first char
                            let method = words.swap_remove(0);
                            proof {
                                assert(texts(words@) =~= rest_swapped(all));
                            }
                            Ok((skip_first(method.as_str()), words))
                        } else {
                            Err(
                                "String \"".to_owned().concat(text.as_str()).concat(
                                    "\" doesn't contains a command",
                                ),
                            )
                        }
                    },
                    None => match msg.get_location() {
                        Some(loc) => {
                            let mut args: Vec<String> = Vec::new();
                            args.push(loc.get_longitude().to_owned());
                            args.push(loc.get_latitude().to_owned());
                            proof {
                                assert(texts(args@) =~= seq![loc.longitude@, loc.latitude@]);
                            }
                            Ok(("set_location".to_owned(), args))
                        },
                        None => Err("Unsupported message type".to_owned()),
                    },
                }
            },
            None => Err("Empty message".to_owned()),
        }
    }

    /// The path of the program that the configuration names for a command.
    pub fn program(config: &ConfigValue, method: &str) -> (r: Result<String, String>)
        ensures
            crate::bot::output_view(r) == program_of(config@, method@),
    {
        let entry = match config.get("commands") {
            None => None,
            Some(table) => table.get(method),
        };
        match entry {
            None => Err("Command ".to_owned().concat(method).concat(" not configured")),
            Some(v) => match v.as_str() {
                None => Err(
                    "Command ".to_owned().concat(method).concat(" incorrectly configured"),
                ),
                Some(path) => Ok(path.to_owned()),
            },
        }
    }
}

impl Bot for NoFlyBot {
    closed spec fn api_token(&self) -> Seq<char> {
        self.api.token()
    }

    open spec fn command(
        &self,
        kind: RequestType,
        request: Request,
        store: Map<Seq<char>, Seq<Data>>,
    ) -> Result<Command, Seq<char>> {
        match kind {
            RequestType::Message => read(request.message),
            RequestType::EditedMesage => read(request.edited_message),
            _ => Err(crate::bot::not_managed()),
        }
    }

    open spec fn answers(
        &self,
        method: Seq<char>,
        args: Seq<Seq<char>>,
        request: Request,
        config: ConfigData,
        result: Result<Outcome, String>,
    ) -> bool {
        runs(method, args, request, config, result)
    }

    fn new(api: Telegram) -> (r: NoFlyBot) {
        NoFlyBot { api: api }
    }

    fn parse_message(&self, request: &Request, session: &Session) -> (r: Result<
        (String, Vec<String>),
        String,
    >) {
        NoFlyBot::get_command_and_arguments(request.get_message())
    }

    fn parse_edited_message(&self, request: &Request, session: &Session) -> (r: Result<
        (String, Vec<String>),
        String,
    >) {
        NoFlyBot::get_command_and_arguments(request.get_edited_message())
    }

    fn parse_inline_query(&self, request: &Request, session: &Session) -> (r: Result<
        (String, Vec<String>),
        String,
    >) {
        refuse()
    }

    fn parse_chosen_inline_result(&self, request: &Request, session: &Session) -> (r: Result<
        (String, Vec<String>),
        String,
    >) {
        refuse()
    }

    fn parse_callback_query(&self, request: &Request, session: &Session) -> (r: Result<
        (String, Vec<String>),
        String,
    >) {
        refuse()
    }

    fn dispatch(&self, method: &str, args: Vec<String>, request: &Request, config: &ConfigValue) -> (r:
        Result<Outcome, String>) {
        let path = match NoFlyBot::program(config, method) {
            Ok(path) => path,
            Err(e) => {
                return Err(e);
            },
        };
        let (chat_id, user_id) = match request.get_message() {
            Some(msg) => (
                decimal_i64(msg.get_chat().get_id()),
                decimal_i64(msg.get_from().get_id()),
            ),
            None => match request.get_edited_message() {
                Some(msg) => (
                    decimal_i64(msg.get_chat().get_id()),
                    decimal_i64(msg.get_from().get_id()),
                ),
                None => {
                    return Err("Unsupported message type".to_owned());
                },
            },
        };
        let mut new_args: Vec<String> = Vec::new();
        new_args.push(chat_id.clone());
        new_args.push(user_id);
        let ghost head = texts(new_args@);
        let mut i: usize = 0;
        assert(texts(args@).take(0) =~= Seq::<Seq<char>>::empty());
        assert(head + texts(args@).take(0) =~= head);
        while i < args.len()
            invariant
                i <= args@.len(),
                texts(new_args@) == head + texts(args@).take(i as int),
            decreases args@.len() - i,
        {
            let ghost before = texts(new_args@);
            new_args.push(args[i].clone());
            proof {
                assert(texts(new_args@) =~= before.push(args@[i as int]@));
                assert(head + texts(args@).take(i as int + 1) =~= (head + texts(args@).take(
                    i as int,
                )).push(args@[i as int]@));
            }
            i = i + 1;
        }
        proof {
            assert(texts(args@).take(i as int) =~= texts(args@));
            assert(head =~= seq![chat_id@, texts(new_args@)[1]]);
        }
        Ok(
            Outcome {
                remember: None,
                action: Action::Run(
                    Job { program: path, args: new_args, chat_id, method: method.to_owned() },
                ),
            },
        )
    }
}

} // verus!
