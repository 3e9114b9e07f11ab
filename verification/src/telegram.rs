//! The calls to the Telegram Bot API: which method each one names, and which
//! parameters it carries.

use crate::config::{field, text_of, ConfigData, ConfigValue};
use crate::entities::{ChatAction, InputFile, ParseMode, ReplyMarkup};
use crate::json::{lookup, Data, Json};
use vstd::prelude::*;
use vstd::string::StringExecFns;

verus! {

/// This enum describes all possible call params
#[derive(Debug)]
pub enum Param {
    /// a simple string value
    Value(String),
    /// a file (see InputFile)
    File(InputFile),
    /// a boolean flag
    Flag(bool),
    /// see ParseMode
    ParseMode(ParseMode),
    /// see ReplyMarkup
    ReplyMarkup(ReplyMarkup),
    /// see ChatAction
    ChatAction(ChatAction),
}

/// What a [`Param`] holds.
pub enum ParamView {
    Value(Seq<char>),
    File(InputFile),
    Flag(bool),
    ParseMode(ParseMode),
    ReplyMarkup(ReplyMarkup),
    ChatAction(ChatAction),
}

impl View for Param {
    type V = ParamView;

    open spec fn view(&self) -> ParamView {
        match self {
            Param::Value(s) => ParamView::Value(s@),
            Param::File(f) => ParamView::File(*f),
            Param::Flag(b) => ParamView::Flag(*b),
            Param::ParseMode(m) => ParamView::ParseMode(*m),
            Param::ReplyMarkup(m) => ParamView::ReplyMarkup(*m),
            Param::ChatAction(a) => ParamView::ChatAction(*a),
        }
    }
}

/// The parameters of a call, by name, in the order in which they were put.
pub type Fields = Seq<(Seq<char>, ParamView)>;

/// What a list of parameters holds.
pub open spec fn fields(params: Seq<(String, Param)>) -> Fields {
    Seq::new(params.len(), |i: int| (params[i].0@, params[i].1@))
}

/// One parameter, where there is one.
pub open spec fn maybe(name: Seq<char>, value: Option<ParamView>) -> Fields {
    match value {
        Some(v) => seq![(name, v)],
        None => Seq::empty(),
    }
}

/// A text parameter, where there is a text.
pub open spec fn maybe_text(name: Seq<char>, value: Option<Seq<char>>) -> Fields {
    match value {
        Some(v) => seq![(name, ParamView::Value(v))],
        None => Seq::empty(),
    }
}

/// The reply markup, where there is one.
pub open spec fn maybe_markup(value: Option<ReplyMarkup>) -> Fields {
    match value {
        Some(v) => seq![("reply_markup"@, ParamView::ReplyMarkup(v))],
        None => Seq::empty(),
    }
}

/// The flag that switches the preview of links off, unless a preview was
/// asked for outright.
pub open spec fn preview_flag(preview: Option<bool>) -> Fields {
    if preview == Some(false) {
        Seq::empty()
    } else {
        seq![("disable_web_page_preview"@, ParamView::Flag(true))]
    }
}

/// The text of an optional string.
pub open spec fn opt_text(value: Option<&str>) -> Option<Seq<char>> {
    match value {
        Some(s) => Some(s@),
        None => None,
    }
}

/// A call to the API: the name of the method and its parameters.
#[derive(Debug)]
pub struct ApiCall {
    /// The name of the method.
    pub method: String,
    /// The parameters, by name.
    pub params: Vec<(String, Param)>,
}

impl ApiCall {
    /// The parameters of the call.
    pub open spec fn fields(&self) -> Fields {
        fields(self.params@)
    }

    /// Whether the call is to `method` with the parameters `wanted`.
    pub open spec fn is(&self, method: Seq<char>, wanted: Fields) -> bool {
        self.method@ == method && self.fields() == wanted
    }
}

/// Puts one parameter at the end of a list.
fn put(params: &mut Vec<(String, Param)>, name: &str, value: Param)
    ensures
        fields(final(params)@) == fields(old(params)@).push((name@, value@)),
{
    params.push((name.to_owned(), value));
    assert(fields(params@) =~= fields(old(params)@).push((name@, value@)));
}

/// Puts a text parameter at the end of a list, where there is a text.
fn put_text(params: &mut Vec<(String, Param)>, name: &str, value: Option<&str>)
    ensures
        fields(final(params)@) == fields(old(params)@) + maybe_text(name@, opt_text(value)),
{
    match value {
        Some(s) => {
            put(params, name, Param::Value(s.to_owned()));
            assert(fields(params@) =~= fields(old(params)@) + maybe_text(name@, opt_text(value)));
        },
        None => {
            assert(fields(params@) =~= fields(old(params)@) + maybe_text(name@, opt_text(value)));
        },
    }
}

/// Puts the reply markup at the end of a list, where there is one.
fn put_markup(params: &mut Vec<(String, Param)>, value: Option<ReplyMarkup>)
    ensures
        fields(final(params)@) == fields(old(params)@) + maybe_markup(value),
{
    match value {
        Some(m) => {
            put(params, "reply_markup", Param::ReplyMarkup(m));
            assert(fields(params@) =~= fields(old(params)@) + maybe_markup(value));
        },
        None => {
            assert(fields(params@) =~= fields(old(params)@) + maybe_markup(value));
        },
    }
}

/// Puts the flag that switches the preview of links off, unless a preview was
/// asked for outright.
fn put_preview(params: &mut Vec<(String, Param)>, preview: Option<bool>)
    ensures
        fields(final(params)@) == fields(old(params)@) + preview_flag(preview),
{
    match preview {
        Some(false) => {
            assert(fields(params@) =~= fields(old(params)@) + preview_flag(preview));
        },
        _ => {
            put(params, "disable_web_page_preview", Param::Flag(true));
            assert(fields(params@) =~= fields(old(params)@) + preview_flag(preview));
        },
    }
}

/// What a form carries for one parameter.
#[derive(Debug)]
pub enum Part {
    /// This text.
    Text(String),
    /// The file at this path.
    Upload(String),
    /// This markup, serialized as JSON.
    Markup(ReplyMarkup),
}

/// What a [`Part`] holds.
pub enum PartView {
    Text(Seq<char>),
    Upload(Seq<char>),
    Markup(ReplyMarkup),
}

impl View for Part {
    type V = PartView;

    open spec fn view(&self) -> PartView {
        match self {
            Part::Text(s) => PartView::Text(s@),
            Part::Upload(s) => PartView::Upload(s@),
            Part::Markup(m) => PartView::Markup(*m),
        }
    }
}

/// What the form of a call carries for a parameter: a local file is
/// uploaded, a markup is serialized, and everything else is sent as its text.
pub open spec fn part_of(param: ParamView) -> PartView {
    match param {
        ParamView::Value(s) => PartView::Text(s),
        ParamView::File(InputFile::File(path)) => PartView::Upload(path@),
        ParamView::File(InputFile::FileId(id)) => PartView::Text(id@),
        ParamView::File(InputFile::Url(url)) => PartView::Text(url@),
        ParamView::Flag(flag) => PartView::Text(
            if flag {
                "true"@
            } else {
                "false"@
            },
        ),
        ParamView::ParseMode(mode) => PartView::Text(mode.name()),
        ParamView::ReplyMarkup(markup) => PartView::Markup(markup),
        ParamView::ChatAction(action) => PartView::Text(action.name()),
    }
}

impl Param {
    /// What the form of a call carries for this parameter.
    pub fn part(self) -> (r: Part)
        ensures
            r@ == part_of(self@),
    {
        match self {
            Param::Value(s) => Part::Text(s),
            Param::File(InputFile::File(path)) => Part::Upload(path),
            Param::File(InputFile::FileId(id)) => Part::Text(id),
            Param::File(InputFile::Url(url)) => Part::Text(url),
            Param::Flag(flag) => Part::Text(
                if flag {
                    "true".to_owned()
                } else {
                    "false".to_owned()
                },
            ),
            Param::ParseMode(mode) => Part::Text(mode.to_string()),
            Param::ReplyMarkup(markup) => Part::Markup(markup),
            Param::ChatAction(action) => Part::Text(action.to_string()),
        }
    }
}

/// What the parts of a form hold.
pub open spec fn parts(form: Seq<(String, Part)>) -> Seq<(Seq<char>, PartView)> {
    Seq::new(form.len(), |i: int| (form[i].0@, form[i].1@))
}

/// The parts of the form of a call with the parameters `fields`.
pub open spec fn body_of(fields: Fields) -> Seq<(Seq<char>, PartView)> {
    Seq::new(fields.len(), |i: int| (fields[i].0, part_of(fields[i].1)))
}

/// The front of the address of every call.
pub open spec fn api_root() -> Seq<char> {
    "https://api.telegram.org/bot"@
}

/// The value that a response has under `key`: null where it is no table or has
/// no such key.
pub open spec fn member(value: Data, key: Seq<char>) -> Data {
    match value {
        Data::Table(m) => if m.contains_key(key) {
            m[key]
        } else {
            Data::Null
        },
        _ => Data::Null,
    }
}

/// The path of the file that a response to `getFile` names, where it names
/// one: the string under `result`, then `file_path`.
pub open spec fn file_path_of(response: Data) -> Option<Seq<char>> {
    match member(member(response, "result"@), "file_path"@) {
        Data::Text(path) => Some(path),
        _ => None,
    }
}

/// The value under `key` of a response, where it is a table that has the key.
fn member_of<'a>(value: &'a Json, key: &str) -> (r: Option<&'a Json>)
    ensures
        match r {
            Some(v) => v@ == member(value@, key@),
            None => member(value@, key@) is Null,
        },
{
    match value {
        Json::Object(entries) => match lookup(entries, key) {
            Some(i) => Some(&entries[i].1),
            None => None,
        },
        _ => None,
    }
}

/// Why a bot could not be started from a configuration.
#[derive(Clone, Copy, Debug, PartialEq, Eq, Structural)]
pub enum InitError {
    /// The configuration has no secret.
    SecretMissing,
    /// The secret of the configuration is no string.
    SecretInvalid,
    /// The secret of the request is not that of the configuration.
    SecretMismatch,
    /// The configuration has no token.
    TokenMissing,
    /// The token of the configuration is no string.
    TokenInvalid,
}

impl InitError {
    /// The message of the error, for a person to read.
    pub open spec fn text(self) -> Seq<char> {
        match self {
            InitError::SecretMissing => "secret config value not found"@,
            InitError::SecretInvalid => "Error interpreting secret config value"@,
            InitError::SecretMismatch => "Secret mismatch"@,
            InitError::TokenMissing => "token config value not found"@,
            InitError::TokenInvalid => "Error interpreting token config value"@,
        }
    }

    /// The message of the error, for a person to read.
    pub fn message(&self) -> (r: String)
        ensures
            r@ == self.text(),
    {
        match self {
            InitError::SecretMissing => "secret config value not found".to_owned(),
            InitError::SecretInvalid => "Error interpreting secret config value".to_owned(),
            InitError::SecretMismatch => "Secret mismatch".to_owned(),
            InitError::TokenMissing => "token config value not found".to_owned(),
            InitError::TokenInvalid => "Error interpreting token config value".to_owned(),
        }
    }
}

/// What the checks before a bot is started find in a configuration, for a
/// request that carries `secret`: the first of a missing secret, a secret that
/// is no string, a secret that is not the request's, a missing token and a
/// token that is no string; else the token.
pub open spec fn checked(secret: Seq<char>, config: ConfigData) -> Result<Seq<char>, InitError> {
    match field(config, "secret"@) {
        None => Err(InitError::SecretMissing),
        Some(s) => match text_of(s) {
            None => Err(InitError::SecretInvalid),
            Some(own) => if secret != own {
                Err(InitError::SecretMismatch)
            } else {
                match field(config, "token"@) {
                    None => Err(InitError::TokenMissing),
                    Some(t) => match text_of(t) {
                        None => Err(InitError::TokenInvalid),
                        Some(token) => Ok(token),
                    },
                }
            },
        },
    }
}

/// #Telegram
/// This class defines all possible calls to Telegram bot APIs
#[derive(Debug)]
pub struct Telegram {
    http_token: String,
}

impl Telegram {
    /// The token that the calls are made with.
    pub closed spec fn token(&self) -> Seq<char> {
        self.http_token@
    }

    /// performs all mandatory checks before a Bot is instanced, and gives the
    /// client that the Bot is to be made with
    pub fn init_bot(secret: &str, config: &ConfigValue) -> (r: Result<Telegram, InitError>)
        ensures
            match r {
                Ok(api) => checked(secret@, config@) == Ok::<Seq<char>, InitError>(api.token()),
                Err(e) => checked(secret@, config@) == Err::<Seq<char>, InitError>(e),
            },
    {
        let own = match config.get("secret") {
            None => {
                return Err(InitError::SecretMissing);
            },
            Some(v) => match v.as_str() {
                None => {
                    return Err(InitError::SecretInvalid);
                },
                Some(s) => s,
            },
        };
        if !(secret.to_owned() == own.to_owned()) {
            return Err(InitError::SecretMismatch);
        }
        match config.get("token") {
            None => Err(InitError::TokenMissing),
            Some(v) => match v.as_str() {
                None => Err(InitError::TokenInvalid),
                Some(token) => Ok(Telegram::new(token)),
            },
        }
    }

    /// constructor
    pub fn new(token: &str) -> (r: Telegram)
        ensures
            r.token() == token@,
    {
        Telegram { http_token: token.to_owned() }
    }

    /// The address of the call to `method`.
    pub fn url(&self, method: &str) -> (r: String)
        ensures
            r@ == api_root() + self.token() + "/"@ + method@,
    {
        "https://api.telegram.org/bot".to_owned().concat(self.http_token.as_str()).concat(
            "/",
        ).concat(method)
    }

    /// #sendMessage
    /// Use this method to send text messages. On success, the sent Message is returned.
    pub fn send_message(
        &self,
        chat_id: &str,
        message: &str,
        reply_id: Option<&str>,
        preview: Option<bool>,
        parse_mode: Option<ParseMode>,
        reply_markup: Option<ReplyMarkup>,
    ) -> (r: ApiCall)
        ensures
            r.is(
                "sendMessage"@,
                seq![
                    ("chat_id"@, ParamView::Value(chat_id@)),
                    ("text"@, ParamView::Value(message@)),
                ] + maybe_text("reply_to_message_id"@, opt_text(reply_id)) + preview_flag(preview)
                    + maybe(
                    "parse_mode"@,
                    match parse_mode {
                        Some(m) => Some(ParamView::ParseMode(m)),
                        None => None,
                    },
                ) + maybe_markup(reply_markup),
            ),
    {
        let mut params: Vec<(String, Param)> = Vec::new();
        put(&mut params, "chat_id", Param::Value(chat_id.to_owned()));
        put(&mut params, "text", Param::Value(message.to_owned()));
        assert(fields(params@) =~= seq![
            ("chat_id"@, ParamView::Value(chat_id@)),
            ("text"@, ParamView::Value(message@)),
        ]);
        put_text(&mut params, "reply_to_message_id", reply_id);
        put_preview(&mut params, preview);
        let ghost before = fields(params@);
        match parse_mode {
            Some(value) => {
                put(&mut params, "parse_mode", Param::ParseMode(value));
                assert(fields(params@) =~= before + maybe(
                    "parse_mode"@,
                    Some(ParamView::ParseMode(value)),
                ));
            },
            None => {
                assert(fields(params@) =~= before + maybe("parse_mode"@, None));
            },
        }
        put_markup(&mut params, reply_markup);
        ApiCall { method: "sendMessage".to_owned(), params }
    }

    /// #deleteMessage
    /// Use this method to delete a message, including service messages, with the following limitations:
    /// - A message can only be deleted if it was sent less than 48 hours ago.
    /// - Bots can delete outgoing messages in groups and supergroups.
    /// - Bots granted can_post_messages permissions can delete outgoing messages in channels.
    /// - If the bot is an administrator of a group, it can delete any message there.
    /// - If the bot has can_delete_messages permission in a supergroup or a channel, it can delete any message there.
    /// Returns True on success.
    pub fn delete_message(&self, chat_id: &str, message_id: &str) -> (r: ApiCall)
        ensures
            r.is(
                "deleteMessage"@,
                seq![
                    ("chat_id"@, ParamView::Value(chat_id@)),
                    ("message_id"@, ParamView::Value(message_id@)),
                ],
            ),
    {
        let mut params: Vec<(String, Param)> = Vec::new();
        put(&mut params, "chat_id", Param::Value(chat_id.to_owned()));
        put(&mut params, "message_id", Param::Value(message_id.to_owned()));
        assert(fields(params@) =~= seq![
            ("chat_id"@, ParamView::Value(chat_id@)),
            ("message_id"@, ParamView::Value(message_id@)),
        ]);
        ApiCall { method: "deleteMessage".to_owned(), params }
    }

    /// #getFile
    /// Use this method to get basic info about a file and prepare it for downloading.
    /// For the moment, bots can download files of up to 20MB in size.
    /// On success, a File object is returned.
    /// It is guaranteed that the link will be valid for at least 1 hour.
    /// When the link expires, a new one can be requested by calling getFile again.
    pub fn get_file(&self, file_id: &str) -> (r: ApiCall)
        ensures
            r.is("getFile"@, seq![("file_id"@, ParamView::Value(file_id@))]),
    {
        let mut params: Vec<(String, Param)> = Vec::new();
        put(&mut params, "file_id", Param::Value(file_id.to_owned()));
        assert(fields(params@) =~= seq![("file_id"@, ParamView::Value(file_id@))]);
        ApiCall { method: "getFile".to_owned(), params }
    }

    /// The address from which the file can be had that a response to
    /// `getFile` names.
    pub fn file_url(&self, response: &Json) -> (r: Result<String, String>)
        ensures
            match file_path_of(response@) {
                Some(path) => r matches Ok(url) && url@ == api_root() + self.token() + "/"@ + path,
                None => r matches Err(message) && message@ == "Unable to retrieve file_path"@,
            },
    {
        let path = match member_of(response, "result") {
            None => None,
            Some(result) => match member_of(result, "file_path") {
                Some(Json::Text(path)) => Some(path),
                _ => None,
            },
        };
        match path {
            Some(path) => Ok(self.url(path.as_str())),
            None => Err("Unable to retrieve file_path".to_owned()),
        }
    }

    /// #sendPhoto
    /// Use this method to send photos. On success, the sent Message is returned.
    pub fn send_photo(
        &self,
        chat_id: &str,
        photo: InputFile,
        caption: Option<&str>,
        reply_id: Option<&str>,
        preview: Option<bool>,
        reply_markup: Option<ReplyMarkup>,
    ) -> (r: ApiCall)
        ensures
            r.is(
                "sendPhoto"@,
                seq![("chat_id"@, ParamView::Value(chat_id@)), ("photo"@, ParamView::File(photo))]
                    + maybe_text("caption"@, opt_text(caption)) + maybe_text(
                    "reply_to_message_id"@,
                    opt_text(reply_id),
                ) + preview_flag(preview) + maybe_markup(reply_markup),
            ),
    {
        let mut params: Vec<(String, Param)> = Vec::new();
        put(&mut params, "chat_id", Param::Value(chat_id.to_owned()));
        put(&mut params, "photo", Param::File(photo));
        assert(fields(params@) =~= seq![
            ("chat_id"@, ParamView::Value(chat_id@)),
            ("photo"@, ParamView::File(photo)),
        ]);
        put_text(&mut params, "caption", caption);
        put_text(&mut params, "reply_to_message_id", reply_id);
        put_preview(&mut params, preview);
        put_markup(&mut params, reply_markup);
        ApiCall { method: "sendPhoto".to_owned(), params }
    }

    /// #sendAudio
    /// Use this method to send audio files, if you want Telegram clients to display them in the music player.
    /// Your audio must be in the .mp3 format.
    /// On success, the sent Message is returned.
    /// Bots can currently send audio files of up to 50 MB in size, this limit may be changed in the future.
    /// For sending voice messages, use the sendVoice method instead.
    pub fn send_audio(
        &self,
        chat_id: &str,
        audio: InputFile,
        duration: Option<&str>,
        performer: Option<&str>,
        title: Option<&str>,
        reply_id: Option<&str>,
        reply_markup: Option<ReplyMarkup>,
    ) -> (r: ApiCall)
        ensures
            r.is(
                "sendAudio"@,
                seq![("chat_id"@, ParamView::Value(chat_id@)), ("audio"@, ParamView::File(audio))]
                    + maybe_text("duration"@, opt_text(duration)) + maybe_text(
                    "performer"@,
                    opt_text(performer),
                ) + maybe_text("title"@, opt_text(title)) + maybe_text(
                    "reply_to_message_id"@,
                    opt_text(reply_id),
                ) + maybe_markup(reply_markup),
            ),
    {
        let mut params: Vec<(String, Param)> = Vec::new();
        put(&mut params, "chat_id", Param::Value(chat_id.to_owned()));
        put(&mut params, "audio", Param::File(audio));
        assert(fields(params@) =~= seq![
            ("chat_id"@, ParamView::Value(chat_id@)),
            ("audio"@, ParamView::File(audio)),
        ]);
        put_text(&mut params, "duration", duration);
        put_text(&mut params, "performer", performer);
        put_text(&mut params, "title", title);
        put_text(&mut params, "reply_to_message_id", reply_id);
        put_markup(&mut params, reply_markup);
        ApiCall { method: "sendAudio".to_owned(), params }
    }

    /// #sendVoice
    /// Use this method to send audio files, if you want Telegram clients to display the file as a playable voice message.
    /// For this to work, your audio must be in an .ogg file encoded with OPUS (other formats may be sent as Audio or Document).
    /// On success, the sent Message is returned.
    /// Bots can currently send voice messages of up to 50 MB in size, this limit may be changed in the future.
    pub fn send_voice(
        &self,
        chat_id: &str,
        voice: InputFile,
        duration: Option<&str>,
        reply_id: Option<&str>,
        reply_markup: Option<ReplyMarkup>,
    ) -> (r: ApiCall)
        ensures
            r.is(
                "sendVoice"@,
                seq![("chat_id"@, ParamView::Value(chat_id@)), ("voice"@, ParamView::File(voice))]
                    + maybe_text("duration"@, opt_text(duration)) + maybe_text(
                    "reply_to_message_id"@,
                    opt_text(reply_id),
                ) + maybe_markup(reply_markup),
            ),
    {
        let mut params: Vec<(String, Param)> = Vec::new();
        put(&mut params, "chat_id", Param::Value(chat_id.to_owned()));
        put(&mut params, "voice", Param::File(voice));
        assert(fields(params@) =~= seq![
            ("chat_id"@, ParamView::Value(chat_id@)),
            ("voice"@, ParamView::File(voice)),
        ]);
        put_text(&mut params, "duration", duration);
        put_text(&mut params, "reply_to_message_id", reply_id);
        put_markup(&mut params, reply_markup);
        ApiCall { method: "sendVoice".to_owned(), params }
    }

    /// #sendDocument
    /// Use this method to send general files.
    /// On success, the sent Message is returned.
    /// Bots can currently send files of any type of up to 50 MB in size, this limit may be changed in the future.
    pub fn send_document(
        &self,
        chat_id: &str,
        document: InputFile,
        reply_id: Option<&str>,
        reply_markup: Option<ReplyMarkup>,
    ) -> (r: ApiCall)
        ensures
            r.is(
                "sendDocument"@,
                seq![
                    ("chat_id"@, ParamView::Value(chat_id@)),
                    ("document"@, ParamView::File(document)),
                ] + maybe_text("reply_to_message_id"@, opt_text(reply_id)) + maybe_markup(
                    reply_markup,
                ),
            ),
    {
        let mut params: Vec<(String, Param)> = Vec::new();
        put(&mut params, "chat_id", Param::Value(chat_id.to_owned()));
        put(&mut params, "document", Param::File(document));
        assert(fields(params@) =~= seq![
            ("chat_id"@, ParamView::Value(chat_id@)),
            ("document"@, ParamView::File(document)),
        ]);
        put_text(&mut params, "reply_to_message_id", reply_id);
        put_markup(&mut params, reply_markup);
        ApiCall { method: "sendDocument".to_owned(), params }
    }

    /// #sendChatAction
    /// Use this method when you need to tell the user that something is happening on the bot's side.
    /// The status is set for 5 seconds or less (when a message arrives from your bot, Telegram clients clear its typing status).
    /// Returns True on success.
    pub fn send_chat_action(&self, chat_id: &str, action: ChatAction) -> (r: ApiCall)
        ensures
            r.is(
                "sendChatAction"@,
                seq![
                    ("chat_id"@, ParamView::Value(chat_id@)),
                    ("action"@, ParamView::ChatAction(action)),
                ],
            ),
    {
        let mut params: Vec<(String, Param)> = Vec::new();
        put(&mut params, "chat_id", Param::Value(chat_id.to_owned()));
        put(&mut params, "action", Param::ChatAction(action));
        assert(fields(params@) =~= seq![
            ("chat_id"@, ParamView::Value(chat_id@)),
            ("action"@, ParamView::ChatAction(action)),
        ]);
        ApiCall { method: "sendChatAction".to_owned(), params }
    }

    /// The address of a call and the parts of its form, one for each
    /// parameter, in order.
    pub fn write_body(&self, call: ApiCall) -> (r: (String, Vec<(String, Part)>))
        ensures
            r.0@ == api_root() + self.token() + "/"@ + call.method@,
            parts(r.1@) == body_of(call.fields()),
    {
        let url = self.url(call.method.as_str());
        let mut params = call.params;
        let ghost all = fields(params@);
        let mut form: Vec<(String, Part)> = Vec::new();
        let mut rest: Vec<(String, Param)> = Vec::new();
        // the parameters are taken from the end, so they are turned round first
        while params.len() > 0
            invariant
                fields(params@) + fields(rest@).reverse() == all,
            decreases params@.len(),
        {
            let ghost before = fields(params@);
            let ghost turned = fields(rest@);
            let last = params.pop().unwrap();
            let ghost pair = (last.0@, last.1@);
            rest.push(last);
            proof {
                assert(fields(rest@) =~= turned.push(pair));
                assert(before =~= fields(params@).push(pair));
                assert(fields(params@) + fields(rest@).reverse() =~= before + turned.reverse());
            }
        }
        proof {
            assert(fields(rest@).reverse() =~= all);
        }
        while rest.len() > 0
            invariant
                parts(form@) + body_of(fields(rest@).reverse()) == body_of(all),
            decreases rest@.len(),
        {
            let ghost done = parts(form@);
            let ghost before = fields(rest@);
            let (name, param) = rest.pop().unwrap();
            let ghost item = (name@, part_of(param@));
            form.push((name, param.part()));
            proof {
                assert(parts(form@) =~= done.push(item));
                assert(before =~= fields(rest@).push((item.0, before.last().1)));
                assert(done + body_of(before.reverse()) =~= parts(form@) + body_of(
                    fields(rest@).reverse(),
                ));
            }
        }
        proof {
            assert(parts(form@) + body_of(fields(rest@).reverse()) =~= parts(form@));
        }
        (url, form)
    }
}

} // verus!
