//! BlasphemyBot: a bot that swears with words drawn from its configuration.

use crate::bot::{fails, refuse, spelled, Action, Bot, Command, Outcome};
use crate::config::{config_list, field, items_of, ConfigData, ConfigValue};
use crate::entities::{ForceReply, Message, ReplyMarkup, Request, RequestType};
use crate::json::{Data, Json};
use crate::session::{effective, Session};
use crate::telegram::{Fields, ParamView, Telegram};
use crate::text::{
    decimal, decimal_i64, decimal_u64, pieces, rest_swapped, skip_first, split_spaces,
    starts_with, texts, trim, trimmed,
};
use vstd::prelude::*;
use vstd::string::StringExecFns;

verus! {

/// What the bot says of itself.
pub const ABOUT: &'static str =
    "This bot can help you when you need to swear but you're out of words.\n\nDeveloped by @Nappa85 under GPLv4\nSource code: https://github.com/nappa85/Rustegram";

/// What the bot says of its commands.
pub const HELP: &'static str =
    "/swear - A generic swear\n\n/swearto - Swear about your favourite subject\nYou can pass an inline argument, or call the command and insert the subject when asked.\nFor example:\n/swearto the developer of @BlasphemyBot\n\n/blackhumor - Some good old black humor\n\n/suggest - Suggest an improvement to the developer\nYou can pass an inline argument, or call the command and insert the subject when asked.\nFor example:\n/suggest I have a new blackhumor line for you!";

/// What the bot asks for when `swearto` came without a subject.
pub const ASK_SUBJECT: &'static str = "Now insert a Subject for the swear";

/// The key of the session of a message: the sender, a dot, the chat.
pub open spec fn session_key(msg: Message) -> Seq<char> {
    decimal(msg.from.id as int) + "."@ + decimal(msg.chat.id as int)
}

/// The command that the bot reads from a message: the one its text spells
/// where the text begins with a slash; else the one that the session of the
/// message holds, with the words of the text as arguments.
pub open spec fn read_message(request: Request, store: Map<Seq<char>, Seq<Data>>) -> Result<
    Command,
    Seq<char>,
> {
    match request.message {
        None => Err("Empty message"@),
        Some(msg) => match msg.text {
            None => Err("Unsupported message type"@),
            Some(txt) => {
                let text = trimmed(txt@);
                if text.len() > 0 && text[0] == '/' {
                    Ok(spelled(text))
                } else {
                    match effective(store, session_key(*msg)) {
                        None => Err("String \""@ + text + "\" doesn't contains a command"@),
                        Some(Data::Text(method)) => Ok((method, pieces(text))),
                        Some(_) => Err("Session value mismatch"@),
                    }
                }
            },
        },
    }
}

/// The values that a configuration has under `key`, where it has an array
/// there.
pub open spec fn words(config: ConfigData, key: Seq<char>) -> Option<Seq<ConfigData>> {
    match field(config, key) {
        Some(v) => items_of(v),
        None => None,
    }
}

/// What the value at the position `i` of the array under `key` gives: its
/// text, or the complaint that it is no string.
pub open spec fn picked(items: Seq<ConfigData>, key: Seq<char>, i: int) -> Result<
    Seq<char>,
    Seq<char>,
> {
    match items[i] {
        ConfigData::Text(s) => Ok(s),
        _ => Err(key + "["@ + decimal(i) + "] is not a string"@),
    }
}

/// Whether `result` can come of drawing a word from the array under `key`:
/// the value at some position before the last one. An array of fewer than
/// two values has no such position.
pub open spec fn draws(config: ConfigData, key: Seq<char>, result: Result<Seq<char>, Seq<char>>) -> bool {
    match words(config, key) {
        None => result == Err::<Seq<char>, Seq<char>>(key + " is not an array"@),
        Some(items) => if items.len() < 2 {
            result == Err::<Seq<char>, Seq<char>>(key + " has too few values"@)
        } else {
            exists|i: int| 0 <= i < items.len() - 1 && result == #[trigger] picked(items, key, i)
        },
    }
}

/// The texts of the result of a draw.
pub open spec fn drawn(r: Result<String, String>) -> Result<Seq<char>, Seq<char>> {
    match r {
        Ok(s) => Ok(s@),
        Err(s) => Err(s@),
    }
}

/// The parameters of a plain message to a chat.
pub open spec fn plain(chat: Seq<char>, text: Seq<char>) -> Fields {
    seq![
        ("chat_id"@, ParamView::Value(chat)),
        ("text"@, ParamView::Value(text)),
        ("disable_web_page_preview"@, ParamView::Flag(true)),
    ]
}

/// The parameters of the question for the subject, as a forced reply to the
/// message `reply`.
pub open spec fn question(chat: Seq<char>, reply: Seq<char>) -> Fields {
    seq![
        ("chat_id"@, ParamView::Value(chat)),
        ("text"@, ParamView::Value(ASK_SUBJECT@)),
        ("reply_to_message_id"@, ParamView::Value(reply)),
        ("disable_web_page_preview"@, ParamView::Flag(true)),
        (
            "reply_markup"@,
            ParamView::ReplyMarkup(
                ReplyMarkup::ForceReply(ForceReply { force_reply: true, selective: Some(true) }),
            ),
        ),
    ]
}

/// Whether `result` is the plain message `text` to the chat of the request's
/// message, or the complaint that the request has no message.
pub open spec fn says(request: Request, text: Seq<char>, result: Result<Outcome, String>) -> bool {
    match request.message {
        None => result matches Err(m) && m@ == "Empty message"@,
        Some(msg) => result matches Ok(o) && o.remember is None && (o.action matches Action::Call(
            call,
        ) && call.is("sendMessage"@, plain(decimal(msg.chat.id as int), text))),
    }
}

/// The arguments of a command, each after a space.
pub open spec fn joined(args: Seq<Seq<char>>) -> Seq<char>
    decreases args.len(),
{
    if args.len() == 0 {
        Seq::empty()
    } else {
        joined(args.drop_last()) + " "@ + args.last()
    }
}

/// Whether `result` is the swear made of the three draws, or the failure of
/// the first draw that failed.
pub open spec fn swear_of(
    request: Request,
    a: Result<Seq<char>, Seq<char>>,
    b: Result<Seq<char>, Seq<char>>,
    c: Result<Seq<char>, Seq<char>>,
    result: Result<Outcome, String>,
) -> bool {
    match (a, b, c) {
        (Ok(a), Ok(b), Ok(c)) => says(request, a + " "@ + b + " "@ + c, result),
        (Err(e), _, _) => fails(e, result),
        (_, Err(e), _) => fails(e, result),
        (_, _, Err(e)) => fails(e, result),
    }
}

/// Whether `result` is an answer to `swear`: a swear of one word of each of
/// the three arrays.
pub open spec fn swears(request: Request, config: ConfigData, result: Result<Outcome, String>) -> bool {
    if request.message is None {
        fails("Empty message"@, result)
    } else {
        exists|
            a: Result<Seq<char>, Seq<char>>,
            b: Result<Seq<char>, Seq<char>>,
            c: Result<Seq<char>, Seq<char>>,
        |
            draws(config, "WordsA"@, a) && draws(config, "WordsB"@, b) && draws(
                config,
                "WordsC"@,
                c,
            ) && #[trigger] swear_of(request, a, b, c, result)
    }
}

/// Whether `result` is the swear about a subject made of the two draws, or
/// the failure of the first draw that failed.
pub open spec fn swear_about(
    request: Request,
    subject: Seq<char>,
    a: Result<Seq<char>, Seq<char>>,
    c: Result<Seq<char>, Seq<char>>,
    result: Result<Outcome, String>,
) -> bool {
    match (a, c) {
        (Ok(a), Ok(c)) => says(request, a + subject + " "@ + c, result),
        (Err(e), _) => fails(e, result),
        (_, Err(e)) => fails(e, result),
    }
}

/// Whether `result` is an answer to `swearto`. Without arguments the bot
/// remembers the command under the key of the message's session and asks for
/// the subject; with arguments it swears about them.
pub open spec fn swears_to(
    request: Request,
    args: Seq<Seq<char>>,
    config: ConfigData,
    result: Result<Outcome, String>,
) -> bool {
    match request.message {
        None => fails("Empty message"@, result),
        Some(msg) => if args.len() == 0 {
            result matches Ok(o) && (o.remember matches Some((key, value)) && key@ == session_key(
                *msg,
            ) && value@ == Data::Text("swearto"@)) && (o.action matches Action::Call(call)
                && call.is(
                "sendMessage"@,
                question(decimal(msg.chat.id as int), decimal(msg.message_id as int)),
            ))
        } else {
            exists|a: Result<Seq<char>, Seq<char>>, c: Result<Seq<char>, Seq<char>>|
                draws(config, "WordsA"@, a) && draws(config, "WordsC"@, c)
                    && #[trigger] swear_about(request, joined(args), a, c, result)
        },
    }
}

/// Whether `result` is an answer to `blackhumor`: one line of the array of
/// black humor.
pub open spec fn jokes(request: Request, config: ConfigData, result: Result<Outcome, String>) -> bool {
    if request.message is None {
        fails("Empty message"@, result)
    } else {
        exists|line: Result<Seq<char>, Seq<char>>|
            draws(config, "BlacHumor"@, line) && #[trigger] joke_of(request, line, result)
    }
}

/// Whether `result` is the line that was drawn, or the failure of the draw.
pub open spec fn joke_of(
    request: Request,
    line: Result<Seq<char>, Seq<char>>,
    result: Result<Outcome, String>,
) -> bool {
    match line {
        Ok(text) => says(request, text, result),
        Err(e) => fails(e, result),
    }
}

/// Calls `thread_rng` and `Rng::gen_range` of the `rand` crate for the range
/// from 0 up to `bound`, without `bound`. Only the range is claimed of what
/// comes back.
#[verifier::external_body]
fn random_below(bound: usize) -> (r: usize)
    requires
        bound > 0,
    ensures
        r < bound,
{
    rand::Rng::gen_range(&mut rand::thread_rng(), 0..bound)
}

/// The bot.
pub struct BlasphemyBot {
    api: Telegram,
}

impl BlasphemyBot {
    /// The key of the session of a message.
    pub fn get_session_key(msg: &Message) -> (r: String)
        ensures
            r@ == session_key(*msg),
    {
        decimal_i64(msg.get_from().get_id()).concat(".").concat(
            decimal_i64(msg.get_chat().get_id()).as_str(),
        )
    }

    /// The plain message `text` to the chat `chat`.
    fn say(&self, chat: &str, text: &str) -> (r: Outcome)
        ensures
            r.remember is None,
            r.action matches Action::Call(call) && call.is("sendMessage"@, plain(chat@, text@)),
    {
        let call = self.api.send_message(chat, text, None, None, None, None);
        assert(call.fields() =~= plain(chat@, text@));
        Outcome::call(call)
    }

    /// The word at the position `index` of the array `items` that the
    /// configuration has under `key`.
    pub fn pick(items: &Vec<ConfigValue>, key: &str, index: usize) -> (r: Result<String, String>)
        requires
            index < items@.len(),
        ensures
            drawn(r) == picked(config_list(items@), key@, index as int),
    {
        match items[index].as_str() {
            Some(s) => Ok(s.to_owned()),
            None => Err(
                key.to_owned().concat("[").concat(decimal_u64(index as u64).as_str()).concat(
                    "] is not a string",
                ),
            ),
        }
    }

    /// Draws a word from the array that the configuration has under `key`.
    pub fn get_random(config: &ConfigValue, key: &str) -> (r: Result<String, String>)
        ensures
            draws(config@, key@, drawn(r)),
    {
        let items = match config.get(key) {
            None => None,
            Some(v) => v.as_array(),
        };
        match items {
            None => Err(key.to_owned().concat(" is not an array")),
            Some(items) => {
                if items.len() < 2 {
                    return Err(key.to_owned().concat(" has too few values"));
                }
                let index = random_below(items.len() - 1);
                BlasphemyBot::pick(items, key, index)
            },
        }
    }

    fn get_random_word_a(config: &ConfigValue) -> (r: Result<String, String>)
        ensures
            draws(config@, "WordsA"@, drawn(r)),
    {
        BlasphemyBot::get_random(config, "WordsA")
    }

    fn get_random_word_b(config: &ConfigValue) -> (r: Result<String, String>)
        ensures
            draws(config@, "WordsB"@, drawn(r)),
    {
        BlasphemyBot::get_random(config, "WordsB")
    }

    fn get_random_word_c(config: &ConfigValue) -> (r: Result<String, String>)
        ensures
            draws(config@, "WordsC"@, drawn(r)),
    {
        BlasphemyBot::get_random(config, "WordsC")
    }

    fn get_random_black_humor(config: &ConfigValue) -> (r: Result<String, String>)
        ensures
            draws(config@, "BlacHumor"@, drawn(r)),
    {
        BlasphemyBot::get_random(config, "BlacHumor")
    }

    /// What the bot says of itself.
    pub fn about(&self, request: &Request) -> (r: Result<Outcome, String>)
        ensures
            says(*request, ABOUT@, r),
    {
        match request.get_message() {
            Some(msg) => Ok(self.say(decimal_i64(msg.get_chat().get_id()).as_str(), ABOUT)),
            None => Err("Empty message".to_owned()),
        }
    }

    /// What the bot says of its commands.
    pub fn help(&self, request: &Request) -> (r: Result<Outcome, String>)
        ensures
            says(*request, HELP@, r),
    {
        match request.get_message() {
            Some(msg) => Ok(self.say(decimal_i64(msg.get_chat().get_id()).as_str(), HELP)),
            None => Err("Empty message".to_owned()),
        }
    }

    /// The swear made of three words that were drawn.
    pub fn swear_with(
        &self,
        request: &Request,
        a: Result<String, String>,
        b: Result<String, String>,
        c: Result<String, String>,
    ) -> (r: Result<Outcome, String>)
        ensures
            swear_of(*request, drawn(a), drawn(b), drawn(c), r),
    {
        let a = match a {
            Ok(a) => a,
            Err(e) => {
                return Err(e);
            },
        };
        let b = match b {
            Ok(b) => b,
            Err(e) => {
                return Err(e);
            },
        };
        let c = match c {
            Ok(c) => c,
            Err(e) => {
                return Err(e);
            },
        };
        let text = a.concat(" ").concat(b.as_str()).concat(" ").concat(c.as_str());
        match request.get_message() {
            Some(msg) => Ok(self.say(decimal_i64(msg.get_chat().get_id()).as_str(), text.as_str())),
            None => Err("Empty message".to_owned()),
        }
    }

    /// A swear of one word of each of the three arrays.
    pub fn swear(&self, request: &Request, config: &ConfigValue) -> (r: Result<Outcome, String>)
        ensures
            swears(*request, config@, r),
    {
        if request.get_message().is_none() {
            return Err("Empty message".to_owned());
        }
        let a = BlasphemyBot::get_random_word_a(config);
        let b = BlasphemyBot::get_random_word_b(config);
        let c = BlasphemyBot::get_random_word_c(config);
        let ghost (da, db, dc) = (drawn(a), drawn(b), drawn(c));
        let r = self.swear_with(request, a, b, c);
        assert(swear_of(*request, da, db, dc, r));
        r
    }

    /// The arguments of a command, each after a space.
    fn join(args: &Vec<String>) -> (r: String)
        ensures
            r@ == joined(texts(args@)),
    {
        let mut text = String::new();
        let mut i: usize = 0;
        assert(texts(args@).take(0) =~= Seq::<Seq<char>>::empty());
        while i < args.len()
            invariant
                i <= args@.len(),
                text@ == joined(texts(args@).take(i as int)),
            decreases args@.len() - i,
        {
            proof {
                assert(texts(args@).take(i as int + 1).drop_last() =~= texts(args@).take(i as int));
            }
            text = text.concat(" ").concat(args[i].as_str());
            i = i + 1;
        }
        assert(texts(args@).take(i as int) =~= texts(args@));
        text
    }

    /// The swear about a subject made of two words that were drawn.
    pub fn swear_about_with(
        &self,
        request: &Request,
        subject: &str,
        a: Result<String, String>,
        c: Result<String, String>,
    ) -> (r: Result<Outcome, String>)
        ensures
            swear_about(*request, subject@, drawn(a), drawn(c), r),
    {
        let a = match a {
            Ok(a) => a,
            Err(e) => {
                return Err(e);
            },
        };
        let c = match c {
            Ok(c) => c,
            Err(e) => {
                return Err(e);
            },
        };
        let text = a.concat(subject).concat(" ").concat(c.as_str());
        match request.get_message() {
            Some(msg) => Ok(self.say(decimal_i64(msg.get_chat().get_id()).as_str(), text.as_str())),
            None => Err("Empty message".to_owned()),
        }
    }

    /// A swear about the subject that the arguments spell; without arguments,
    /// the question for the subject.
    pub fn swearto(&self, request: &Request, args: Vec<String>, config: &ConfigValue) -> (r: Result<
        Outcome,
        String,
    >)
        ensures
            swears_to(*request, texts(args@), config@, r),
    {
        let msg = match request.get_message() {
            Some(msg) => msg,
            None => {
                return Err("Empty message".to_owned());
            },
        };
        if args.len() == 0 {
            let chat = decimal_i64(msg.get_chat().get_id());
            let reply = decimal_u64(msg.get_id());
            let call = self.api.send_message(
                chat.as_str(),
                ASK_SUBJECT,
                Some(reply.as_str()),
                None,
                None,
                Some(ReplyMarkup::force_reply(true, Some(true))),
            );
            assert(call.fields() =~= question(chat@, reply@));
            return Ok(
                Outcome {
                    remember: Some(
                        (BlasphemyBot::get_session_key(msg), Json::Text("swearto".to_owned())),
                    ),
                    action: Action::Call(call),
                },
            );
        }
        let subject = BlasphemyBot::join(&args);
        let a = BlasphemyBot::get_random_word_a(config);
        let c = BlasphemyBot::get_random_word_c(config);
        let ghost (da, dc) = (drawn(a), drawn(c));
        let r = self.swear_about_with(request, subject.as_str(), a, c);
        assert(swear_about(*request, joined(texts(args@)), da, dc, r));
        r
    }

    /// One line of black humor.
    pub fn blackhumor(&self, request: &Request, config: &ConfigValue) -> (r: Result<
        Outcome,
        String,
    >)
        ensures
            jokes(*request, config@, r),
    {
        let msg = match request.get_message() {
            Some(msg) => msg,
            None => {
                return Err("Empty message".to_owned());
            },
        };
        let line = BlasphemyBot::get_random_black_humor(config);
        let ghost drew = drawn(line);
        let r = match line {
            Ok(text) => Ok(self.say(decimal_i64(msg.get_chat().get_id()).as_str(), text.as_str())),
            Err(e) => Err(e),
        };
        assert(joke_of(*request, drew, r));
        r
    }
}

impl Bot for BlasphemyBot {
    closed spec fn api_token(&self) -> Seq<char> {
        self.api.token()
    }

    open spec fn command(
        &self,
        kind: RequestType,
        request: Request,
        store: Map<Seq<char>, Seq<Data>>,
    ) -> Result<Command, Seq<char>> {
        match kind {
            RequestType::Message => read_message(request, store),
            _ => Err(crate::bot::not_managed()),
        }
    }

    open spec fn answers(
        &self,
        method: Seq<char>,
        args: Seq<Seq<char>>,
        request: Request,
        config: ConfigData,
        result: Result<Outcome, String>,
    ) -> bool {
        if method == "about"@ {
            says(request, ABOUT@, result)
        } else if method == "help"@ {
            says(request, HELP@, result)
        } else if method == "swear"@ {
            swears(request, config, result)
        } else if method == "swearto"@ {
            swears_to(request, args, config, result)
        } else if method == "blackhumor"@ {
            jokes(request, config, result)
        } else {
            fails("Method "@ + method + " not found"@, result)
        }
    }

    fn new(api: Telegram) -> (r: BlasphemyBot) {
        BlasphemyBot { api: api }
    }

    fn parse_message(&self, request: &Request, session: &Session) -> (r: Result<
        (String, Vec<String>),
        String,
    >) {
        match request.get_message() {
            Some(msg) => {
                match msg.get_text() {
                    Some(txt) => {
                        let text = trim(txt.as_str());
                        if starts_with(text.as_str(), '/') {
                            let mut words = split_spaces(text.as_str());
                            let ghost all = texts(words@);
                            //remove first char
                            let method = words.swap_remove(0);
                            proof {
                                assert(texts(words@) =~= rest_swapped(all));
                            }
                            Ok((skip_first(method.as_str()), words))
                        } else {
                            match session.get(BlasphemyBot::get_session_key(msg).as_str()) {
                                None => Err(
                                    "String \"".to_owned().concat(text.as_str()).concat(
                                        "\" doesn't contains a command",
                                    ),
                                ),
                                Some(Json::Text(value)) => Ok(
                                    (value, split_spaces(text.as_str())),
                                ),
                                Some(_) => Err("Session value mismatch".to_owned()),
                            }
                        }
                    },
                    None => Err("Unsupported message type".to_owned()),
                }
            },
            None => Err("Empty message".to_owned()),
        }
    }

    fn parse_edited_message(&self, request: &Request, session: &Session) -> (r: Result<
        (String, Vec<String>),
        String,
    >) {
        refuse()
    }

    fn parse_inline_query(&self, request: &Request, session: &Session) -> (r: Result<
        (String, Vec<String>),
        String,
    >) {
        refuse()
    }

    fn parse_chosen_inline_result(&self, request: &Request, session: &Session) -> (r: Result<
        (String, Vec<String>),
        String,
    >) {
        refuse()
    }

    fn parse_callback_query(&self, request: &Request, session: &Session) -> (r: Result<
        (String, Vec<String>),
        String,
    >) {
        refuse()
    }

    fn dispatch(&self, method: &str, args: Vec<String>, request: &Request, config: &ConfigValue) -> (r:
        Result<Outcome, String>) {
        let name: String = method.to_owned();
        if name == "about".to_owned() {
            self.about(request)
        } else if name == "help".to_owned() {
            self.help(request)
        } else if name == "swear".to_owned() {
            self.swear(request, config)
        } else if name == "swearto".to_owned() {
            self.swearto(request, args, config)
        } else if name == "blackhumor".to_owned() {
            self.blackhumor(request, config)
        } else {
            Err("Method ".to_owned().concat(method).concat(" not found"))
        }
    }
}

} // verus!
