//! What a bot is: how a request becomes a command, and a command an answer.

use crate::config::{ConfigData, ConfigValue};
use crate::entities::{request_type, ParseMode, Request, RequestType};
use crate::json::{Data, Json};
use crate::session::{after_set, Session};
use crate::telegram::{checked, ApiCall, InitError, ParamView, Telegram};
use crate::text::{pieces, rest_swapped, tail, texts};
use vstd::prelude::*;
use vstd::string::StringExecFns;

verus! {

/// A program that the host is to run for a bot, and what is needed to report
/// its output.
#[derive(Debug)]
pub struct Job {
    /// The path of the program.
    pub program: String,
    /// The arguments of the program.
    pub args: Vec<String>,
    /// The chat that the output goes to.
    pub chat_id: String,
    /// The command that asked for the program.
    pub method: String,
}

/// What the host is to do for a bot that has decided.
#[derive(Debug)]
pub enum Action {
    /// Make this call to the API, and return its response.
    Call(ApiCall),
    /// Run this program, and hand its output to the bot.
    Run(Job),
}

/// What a bot decided: what to set in the session store, if anything, and
/// what the host is to do.
#[derive(Debug)]
pub struct Outcome {
    /// The key and the value to set in the session store.
    pub remember: Option<(String, Json)>,
    /// What the host is to do.
    pub action: Action,
}

/// A command: the name of a method and its arguments.
pub type Command = (Seq<char>, Seq<Seq<char>>);

/// The command that a text spells: the first of its words without its first
/// character, and the other words, the last of them in the place of the first.
pub open spec fn spelled(text: Seq<char>) -> Command {
    (tail(pieces(text)[0]), rest_swapped(pieces(text)))
}

/// What the parsing of a request gave, as texts.
pub open spec fn parsed(r: Result<(String, Vec<String>), String>) -> Result<Command, Seq<char>> {
    match r {
        Ok((method, args)) => Ok((method@, texts(args@))),
        Err(message) => Err(message@),
    }
}

/// The session store after a bot's decision was settled.
pub open spec fn settled(
    store: Map<Seq<char>, Seq<Data>>,
    remember: Option<(String, Json)>,
) -> Map<Seq<char>, Seq<Data>> {
    match remember {
        Some((key, value)) => after_set(store, key@, value@),
        None => store,
    }
}

impl Outcome {
    /// An outcome that sets nothing and makes one call.
    pub fn call(call: ApiCall) -> (r: Outcome)
        ensures
            r.remember is None,
            r.action == Action::Call(call),
    {
        Outcome { remember: None, action: Action::Call(call) }
    }

    /// Sets in the session store what the bot asked to be set, and gives what
    /// the host is to do.
    pub fn settle(self, session: &mut Session) -> (r: Action)
        ensures
            r == self.action,
            final(session)@ == settled(old(session)@, self.remember),
    {
        match self.remember {
            Some((key, value)) => {
                session.set(key.as_str(), value);
            },
            None => {},
        }
        self.action
    }
}

/// Whether `result` is the failure with the message `text`.
pub open spec fn fails(text: Seq<char>, result: Result<Outcome, String>) -> bool {
    result matches Err(m) && m@ == text
}

/// What became of a program that was run for a bot, as texts.
pub open spec fn output_view(output: Result<String, String>) -> Result<Seq<char>, Seq<char>> {
    match output {
        Ok(s) => Ok(s@),
        Err(s) => Err(s@),
    }
}

/// The call that reports the output of a program to a chat, or the failure
/// to run the program.
pub open spec fn reported(
    job: Job,
    output: Result<Seq<char>, Seq<char>>,
    result: Result<ApiCall, String>,
) -> bool {
    match output {
        Ok(text) => result matches Ok(call) && call.is(
            "sendMessage"@,
            seq![
                ("chat_id"@, ParamView::Value(job.chat_id@)),
                ("text"@, ParamView::Value(text)),
                ("disable_web_page_preview"@, ParamView::Flag(true)),
                ("parse_mode"@, ParamView::ParseMode(ParseMode::Markdown)),
            ],
        ),
        Err(e) => result matches Err(m) && m@ == "Error executing "@ + job.method@ + ": "@ + e,
    }
}

impl Job {
    /// What is sent once the program has run: its output, to the chat that
    /// asked for it; or the failure to run it.
    pub fn report(&self, api: &Telegram, output: Result<String, String>) -> (r: Result<
        ApiCall,
        String,
    >)
        ensures
            reported(*self, output_view(output), r),
    {
        match output {
            Ok(text) => {
                let call = api.send_message(
                    self.chat_id.as_str(),
                    text.as_str(),
                    None,
                    None,
                    Some(ParseMode::Markdown),
                    None,
                );
                assert(call.fields() =~= seq![
                    ("chat_id"@, ParamView::Value(self.chat_id@)),
                    ("text"@, ParamView::Value(text@)),
                    ("disable_web_page_preview"@, ParamView::Flag(true)),
                    ("parse_mode"@, ParamView::ParseMode(ParseMode::Markdown)),
                ]);
                Ok(call)
            },
            Err(e) => Err(
                "Error executing ".to_owned().concat(self.method.as_str()).concat(": ").concat(
                    e.as_str(),
                ),
            ),
        }
    }
}

/// The message of a request of a type that a bot does not manage.
pub open spec fn not_managed() -> Seq<char> {
    "Not managed"@
}

/// base trait for Telegram bots
pub trait Bot: Sized {
    /// The token of the client that the bot was made with.
    spec fn api_token(&self) -> Seq<char>;

    /// The command that the bot reads from a request of the type `kind`, or
    /// the message with which it refuses the request.
    spec fn command(
        &self,
        kind: RequestType,
        request: Request,
        store: Map<Seq<char>, Seq<Data>>,
    ) -> Result<Command, Seq<char>>;

    /// Whether `result` is an answer of the bot to a command.
    spec fn answers(
        &self,
        method: Seq<char>,
        args: Seq<Seq<char>>,
        request: Request,
        config: ConfigData,
        result: Result<Outcome, String>,
    ) -> bool;

    /// creates a new instance of the Bot
    fn new(api: Telegram) -> (r: Self)
        ensures
            r.api_token() == api.token(),
    ;

    /// uses the correct method to retrieve method and arguments from Request, then dispatches it
    fn parse(&self, request: &Request, config: &ConfigValue, session: &Session) -> (r: Result<
        Outcome,
        String,
    >)
        ensures
            match request_type(*request) {
                None => r matches Err(message) && message@ == "Unrecognized request type"@,
                Some(kind) => match self.command(kind, *request, session@) {
                    Err(refusal) => r matches Err(message) && message@ == refusal,
                    Ok((method, args)) => self.answers(method, args, *request, config@, r),
                },
            },
    {
        let kind = match request.get_type() {
            Ok(kind) => kind,
            Err(message) => {
                return Err(message);
            },
        };
        let command = match kind {
            RequestType::Message => self.parse_message(request, session),
            RequestType::EditedMesage => self.parse_edited_message(request, session),
            RequestType::InlineQuery => self.parse_inline_query(request, session),
            RequestType::ChosenInlineResult => self.parse_chosen_inline_result(request, session),
            RequestType::CallbackQuery => self.parse_callback_query(request, session),
        };
        match command {
            Ok((method, args)) => self.dispatch(method.as_str(), args, request, config),
            Err(message) => Err(message),
        }
    }

    /// given a Request of type Message, retrieve method ad arguments
    fn parse_message(&self, request: &Request, session: &Session) -> (r: Result<
        (String, Vec<String>),
        String,
    >)
        ensures
            parsed(r) == self.command(RequestType::Message, *request, session@),
    ;

    /// given a Request of type EditedMessage, retrieve method ad arguments
    fn parse_edited_message(&self, request: &Request, session: &Session) -> (r: Result<
        (String, Vec<String>),
        String,
    >)
        ensures
            parsed(r) == self.command(RequestType::EditedMesage, *request, session@),
    ;

    /// given a Request of type InlineQuery, retrieve method ad arguments
    fn parse_inline_query(&self, request: &Request, session: &Session) -> (r: Result<
        (String, Vec<String>),
        String,
    >)
        ensures
            parsed(r) == self.command(RequestType::InlineQuery, *request, session@),
    ;

    /// given a Request of type InlineResult, retrieve method ad arguments
    fn parse_chosen_inline_result(&self, request: &Request, session: &Session) -> (r: Result<
        (String, Vec<String>),
        String,
    >)
        ensures
            parsed(r) == self.command(RequestType::ChosenInlineResult, *request, session@),
    ;

    /// given a Request of type CallbackQuery, retrieve method ad arguments
    fn parse_callback_query(&self, request: &Request, session: &Session) -> (r: Result<
        (String, Vec<String>),
        String,
    >)
        ensures
            parsed(r) == self.command(RequestType::CallbackQuery, *request, session@),
    ;

    /// given a method and it's arguments, perform the operation on the given Request
    fn dispatch(&self, method: &str, args: Vec<String>, request: &Request, config: &ConfigValue) -> (r:
        Result<Outcome, String>)
        ensures
            self.answers(method@, texts(args@), *request, config@, r),
    ;
}

/// The answer of a bot to a request of a type that it does not manage.
pub fn refuse() -> (r: Result<(String, Vec<String>), String>)
    ensures
        parsed(r) == Err::<Command, Seq<char>>(not_managed()),
{
    Err("Not managed".to_owned())
}

/// The front of the message of a bot that could not be started.
pub open spec fn init_failure() -> Seq<char> {
    "Error during bot init: "@
}

/// Whether `decided` is what `bot` decides of a request: the refusal of a
/// request without a part that it knows, the refusal of the parsing, or an
/// answer to the command that the parsing gave.
pub open spec fn decides<B: Bot>(
    bot: B,
    request: Request,
    config: ConfigData,
    store: Map<Seq<char>, Seq<Data>>,
    decided: Result<Outcome, String>,
) -> bool {
    match request_type(request) {
        None => decided matches Err(message) && message@ == "Unrecognized request type"@,
        Some(kind) => match bot.command(kind, request, store) {
            Err(refusal) => decided matches Err(message) && message@ == refusal,
            Ok((method, args)) => bot.answers(method, args, request, config, decided),
        },
    }
}

/// Whether the result `r` and the session store `after` are what becomes of
/// the decision `decided` of a bot that was made with the token `token`.
pub open spec fn concludes<B: Bot>(
    bot: B,
    token: Seq<char>,
    decided: Result<Outcome, String>,
    before: Map<Seq<char>, Seq<Data>>,
    after: Map<Seq<char>, Seq<Data>>,
    r: Result<Action, String>,
) -> bool {
    &&& bot.api_token() == token
    &&& match decided {
        Ok(outcome) => r == Ok::<Action, String>(outcome.action) && after == settled(
            before,
            outcome.remember,
        ),
        Err(message) => r == Err::<Action, String>(message) && after == before,
    }
}

/// The entry of a module: checks the configuration and the secret, makes the
/// bot, lets it decide of the request, and settles its decision in the
/// session store. A bot that cannot be started touches nothing.
pub fn init_bot<B: Bot>(
    config: &ConfigValue,
    session: &mut Session,
    secret: &str,
    request: &Request,
) -> (r: Result<Action, String>)
    ensures
        match checked(secret@, config@) {
            Err(e) => r matches Err(message) && message@ == init_failure() + e.text()
                && final(session)@ == old(session)@,
            Ok(token) => exists|bot: B, decided: Result<Outcome, String>|
                decides(bot, *request, config@, old(session)@, decided) && #[trigger] concludes(
                    bot,
                    token,
                    decided,
                    old(session)@,
                    final(session)@,
                    r,
                ),
        },
{
    match Telegram::init_bot(secret, config) {
        Err(e) => Err("Error during bot init: ".to_owned().concat(e.message().as_str())),
        Ok(api) => {
            let ghost token = api.token();
            let bot = B::new(api);
            let decided = bot.parse(request, config, session);
            let ghost witness = decided;
            assert(decides(bot, *request, config@, old(session)@, witness));
            let r = match decided {
                Ok(outcome) => Ok(outcome.settle(session)),
                Err(message) => Err(message),
            };
            assert(concludes(bot, token, witness, old(session)@, session@, r));
            assert(checked(secret@, config@) == Ok::<Seq<char>, InitError>(token));
            assert(checked(secret@, config@)->Ok_0 == token);
            assert(concludes(
                bot,
                checked(secret@, config@)->Ok_0,
                witness,
                old(session)@,
                session@,
                r,
            ));
            assert(exists|bot: B, decided: Result<Outcome, String>|
                decides(bot, *request, config@, old(session)@, decided) && #[trigger] concludes(
                    bot,
                    checked(secret@, config@)->Ok_0,
                    decided,
                    old(session)@,
                    session@,
                    r,
                ));
            r
        },
    }
}

} // verus!
