use rustegram::config::ConfigValue;
use rustegram::entities::{ChatAction, InputFile, ParseMode, ReplyMarkup};
use rustegram::json::Json;
use rustegram::telegram::{ApiCall, InitError, Param, Part, Telegram};

fn shown(call: &ApiCall) -> Vec<String> {
    call.params.iter().map(|(name, param)| format!("{}={:?}", name, param)).collect()
}

fn table(entries: Vec<(&str, ConfigValue)>) -> ConfigValue {
    ConfigValue::Table(entries.into_iter().map(|(k, v)| (k.to_string(), v)).collect())
}

fn text(s: &str) -> ConfigValue {
    ConfigValue::Text(s.to_string())
}

#[test]
fn lib_it_works() {
    let client = Telegram::new("test");
    let call = client.send_message("123", "prova", None, None, None, None);
    assert_eq!(call.method, "sendMessage");
    assert_eq!(
        shown(&call),
        vec![
            "chat_id=Value(\"123\")",
            "text=Value(\"prova\")",
            "disable_web_page_preview=Flag(true)"
        ]
    );
    let (url, form) = client.write_body(call);
    assert_eq!(url, "https://api.telegram.org/bottest/sendMessage");
    let parts: Vec<String> = form.iter().map(|(n, p)| format!("{}={:?}", n, p)).collect();
    assert_eq!(
        parts,
        vec![
            "chat_id=Text(\"123\")",
            "text=Text(\"prova\")",
            "disable_web_page_preview=Text(\"true\")"
        ]
    );
}

#[test]
fn send_message_with_everything() {
    let client = Telegram::new("t");
    let call = client.send_message(
        "1",
        "hello",
        Some("42"),
        Some(false),
        Some(ParseMode::HTML),
        Some(ReplyMarkup::force_reply(true, None)),
    );
    let names: Vec<&str> = call.params.iter().map(|(n, _)| n.as_str()).collect();
    assert_eq!(names, vec!["chat_id", "text", "reply_to_message_id", "parse_mode", "reply_markup"]);
    assert!(matches!(&call.params[2].1, Param::Value(v) if v == "42"));
    assert!(matches!(&call.params[3].1, Param::ParseMode(ParseMode::HTML)));
    assert!(matches!(&call.params[4].1, Param::ReplyMarkup(ReplyMarkup::ForceReply(_))));
    // a preview that was not asked for outright is switched off
    let call = client.send_message("1", "hello", None, Some(true), None, None);
    assert!(matches!(&call.params[2], (n, Param::Flag(true)) if n == "disable_web_page_preview"));
}

#[test]
fn delete_get_file_and_chat_action() {
    let client = Telegram::new("t");
    let call = client.delete_message("5", "77");
    assert_eq!(call.method, "deleteMessage");
    assert_eq!(shown(&call), vec!["chat_id=Value(\"5\")", "message_id=Value(\"77\")"]);
    let call = client.get_file("abc");
    assert_eq!(call.method, "getFile");
    assert_eq!(shown(&call), vec!["file_id=Value(\"abc\")"]);
    let call = client.send_chat_action("5", ChatAction::UploadPhoto);
    assert_eq!(call.method, "sendChatAction");
    assert_eq!(shown(&call), vec!["chat_id=Value(\"5\")", "action=ChatAction(UploadPhoto)"]);
    let (url, form) = client.write_body(call);
    assert_eq!(url, "https://api.telegram.org/bott/sendChatAction");
    assert!(matches!(&form[1], (n, Part::Text(t)) if n == "action" && t == "upload_photo"));
}

#[test]
fn send_files() {
    let client = Telegram::new("t");
    let call = client.send_photo(
        "5",
        InputFile::File("/tmp/p.png".to_string()),
        Some("look"),
        None,
        Some(false),
        None,
    );
    assert_eq!(call.method, "sendPhoto");
    assert_eq!(
        shown(&call),
        vec!["chat_id=Value(\"5\")", "photo=File(File(\"/tmp/p.png\"))", "caption=Value(\"look\")"]
    );
    let (_, form) = client.write_body(call);
    assert!(matches!(&form[1], (n, Part::Upload(p)) if n == "photo" && p == "/tmp/p.png"));
    assert!(matches!(&form[2], (n, Part::Text(p)) if n == "caption" && p == "look"));

    let call = client.send_audio(
        "5",
        InputFile::FileId("id9".to_string()),
        Some("3"),
        Some("me"),
        Some("song"),
        Some("8"),
        Some(ReplyMarkup::reply_keyboard_remove(true, None)),
    );
    assert_eq!(call.method, "sendAudio");
    let names: Vec<&str> = call.params.iter().map(|(n, _)| n.as_str()).collect();
    assert_eq!(
        names,
        vec!["chat_id", "audio", "duration", "performer", "title", "reply_to_message_id", "reply_markup"]
    );
    let (_, form) = client.write_body(call);
    assert!(matches!(&form[1], (n, Part::Text(p)) if n == "audio" && p == "id9"));
    assert!(matches!(&form[6], (n, Part::Markup(ReplyMarkup::ReplyKeyboardRemove(_))) if n == "reply_markup"));

    let call = client.send_voice("5", InputFile::Url("http://x/v.ogg".to_string()), None, None, None);
    assert_eq!(call.method, "sendVoice");
    assert_eq!(shown(&call), vec!["chat_id=Value(\"5\")", "voice=File(Url(\"http://x/v.ogg\"))"]);
    let (_, form) = client.write_body(call);
    assert!(matches!(&form[1], (n, Part::Text(p)) if n == "voice" && p == "http://x/v.ogg"));

    let call = client.send_document("5", InputFile::File("d.pdf".to_string()), Some("1"), None);
    assert_eq!(call.method, "sendDocument");
    assert_eq!(
        shown(&call),
        vec![
            "chat_id=Value(\"5\")",
            "document=File(File(\"d.pdf\"))",
            "reply_to_message_id=Value(\"1\")"
        ]
    );
}

#[test]
fn parts_of_flags_and_modes() {
    assert!(matches!(Param::Flag(true).part(), Part::Text(t) if t == "true"));
    assert!(matches!(Param::Flag(false).part(), Part::Text(t) if t == "false"));
    assert!(matches!(Param::ParseMode(ParseMode::Markdown).part(), Part::Text(t) if t == "Markdown"));
    assert!(matches!(Param::ChatAction(ChatAction::Typing).part(), Part::Text(t) if t == "typing"));
    assert!(matches!(Param::Value("v".to_string()).part(), Part::Text(t) if t == "v"));
}

#[test]
fn file_url_reads_the_path_from_the_response() {
    let client = Telegram::new("tok");
    let response = Json::Object(vec![
        ("ok".to_string(), Json::Bool(true)),
        (
            "result".to_string(),
            Json::Object(vec![
                ("file_id".to_string(), Json::Text("abc".to_string())),
                ("file_path".to_string(), Json::Text("photos/file_1.jpg".to_string())),
            ]),
        ),
    ]);
    assert_eq!(
        client.file_url(&response),
        Ok("https://api.telegram.org/bottok/photos/file_1.jpg".to_string())
    );
    let missing = Json::Object(vec![("result".to_string(), Json::Object(vec![]))]);
    assert_eq!(client.file_url(&missing), Err("Unable to retrieve file_path".to_string()));
    let wrong = Json::Object(vec![(
        "result".to_string(),
        Json::Object(vec![("file_path".to_string(), Json::Bool(true))]),
    )]);
    assert_eq!(client.file_url(&wrong), Err("Unable to retrieve file_path".to_string()));
    assert_eq!(client.file_url(&Json::Null), Err("Unable to retrieve file_path".to_string()));
    assert_eq!(
        client.file_url(&Json::Array(vec![])),
        Err("Unable to retrieve file_path".to_string())
    );
}

#[test]
fn init_bot_checks_the_configuration_in_order() {
    let good = table(vec![("secret", text("prova")), ("token", text("test"))]);
    let api = Telegram::init_bot("prova", &good).unwrap();
    assert_eq!(api.url("getMe"), "https://api.telegram.org/bottest/getMe");
    assert_eq!(Telegram::init_bot("wrong", &good).map(|_| ()), Err(InitError::SecretMismatch));
    assert_eq!(
        Telegram::init_bot("prova", &table(vec![("token", text("t"))])).map(|_| ()),
        Err(InitError::SecretMissing)
    );
    assert_eq!(
        Telegram::init_bot("prova", &table(vec![("secret", ConfigValue::Integer(1))]))
            .map(|_| ()),
        Err(InitError::SecretInvalid)
    );
    // a wrong secret is told before a missing token
    assert_eq!(
        Telegram::init_bot("wrong", &table(vec![("secret", text("prova"))])).map(|_| ()),
        Err(InitError::SecretMismatch)
    );
    assert_eq!(
        Telegram::init_bot("prova", &table(vec![("secret", text("prova"))])).map(|_| ()),
        Err(InitError::TokenMissing)
    );
    assert_eq!(
        Telegram::init_bot(
            "prova",
            &table(vec![("secret", text("prova")), ("token", ConfigValue::Boolean(true))])
        )
        .map(|_| ()),
        Err(InitError::TokenInvalid)
    );
    assert_eq!(InitError::SecretMissing.message(), "secret config value not found");
    assert_eq!(InitError::SecretInvalid.message(), "Error interpreting secret config value");
    assert_eq!(InitError::SecretMismatch.message(), "Secret mismatch");
    assert_eq!(InitError::TokenMissing.message(), "token config value not found");
    assert_eq!(InitError::TokenInvalid.message(), "Error interpreting token config value");
}
