use rustegram::blasphemy_bot::{BlasphemyBot, ABOUT, ASK_SUBJECT, HELP};
use rustegram::bot::{init_bot, Action, Bot, Job, Outcome};
use rustegram::config::{ConfigDocument, ConfigValue};
use rustegram::entities::{Chat, Location, Message, Request, User};
use rustegram::json::Json;
use rustegram::no_fly_bot::NoFlyBot;
use rustegram::session::Session;
use rustegram::telegram::{ApiCall, Param, Telegram};

fn user(id: i64) -> User {
    User {
        id,
        is_bot: true,
        first_name: "Test Firstname".to_string(),
        last_name: None,
        username: None,
        language_code: None,
    }
}

fn chat(id: i64) -> Chat {
    Chat {
        id,
        type_: "private".to_string(),
        title: None,
        username: None,
        first_name: None,
        last_name: None,
        photo: None,
        description: None,
        invite_link: None,
        pinned_message: None,
        sticker_set_name: None,
        can_set_sticker_set: None,
    }
}

fn message(text: Option<&str>) -> Message {
    Message {
        message_id: 1365,
        from: user(1111111),
        date: 1441645532,
        chat: chat(2222222),
        forward_from: None,
        forward_fromchat: None,
        forward_from_message_id: None,
        forward_signature: None,
        reply_to_message: None,
        edit_date: None,
        media_group_id: None,
        author_signature: None,
        text: text.map(|s| s.to_string()),
        entities: None,
        caption_entities: None,
        audio: None,
        document: None,
        game: None,
        photo: None,
        sticker: None,
        video_note: None,
        caption: None,
        contact: None,
        location: None,
        venue: None,
        new_chat_members: None,
        left_chat_member: None,
        new_chat_title: None,
        new_chat_photo: None,
        delete_chat_photo: None,
        group_chat_created: None,
        supergroup_chat_created: None,
        channel_chat_created: None,
        migrate_to_chat_id: None,
        migrate_from_chat_id: None,
        pinned_message: None,
        invoice: None,
        successful_payment: None,
        connected_website: None,
    }
}

fn empty_request() -> Request {
    Request {
        update_id: Some(10000),
        message: None,
        edited_message: None,
        inline_query: None,
        chosen_inline_result: None,
        callback_query: None,
    }
}

fn with_message(text: Option<&str>) -> Request {
    let mut request = empty_request();
    request.message = Some(Box::new(message(text)));
    request
}

fn config(source: &str) -> ConfigDocument {
    ConfigDocument::parse(source).unwrap()
}

const WORDS: &str = "secret = \"prova\"\ntoken = \"test\"\nWordsA = [\"a1\", \"a2\", \"a3\"]\nWordsB = [\"b1\", \"never\"]\nWordsC = [\"c1\", \"c2\", \"last\"]\nBlacHumor = [\"joke\", \"unused\"]\nOne = [\"only\"]\nMixed = [1, \"x\"]\n";

fn sent(outcome: Outcome) -> ApiCall {
    assert!(outcome.remember.is_none());
    match outcome.action {
        Action::Call(call) => call,
        other => panic!("got {:?}", other),
    }
}

fn text_of(call: &ApiCall) -> String {
    match &call.params[1] {
        (name, Param::Value(text)) if name == "text" => text.clone(),
        other => panic!("got {:?}", other),
    }
}

fn chat_of(call: &ApiCall) -> String {
    match &call.params[0] {
        (name, Param::Value(text)) if name == "chat_id" => text.clone(),
        other => panic!("got {:?}", other),
    }
}

#[test]
fn blasphemy_reads_a_command_from_the_text() {
    let bot = BlasphemyBot::new(Telegram::new("test"));
    let session = Session::new();
    assert_eq!(
        bot.parse_message(&with_message(Some("/start")), &session),
        Ok(("start".to_string(), vec![]))
    );
    assert_eq!(
        bot.parse_message(&with_message(Some("  /swearto the dev  ")), &session),
        Ok(("swearto".to_string(), vec!["dev".to_string(), "the".to_string()]))
    );
    assert_eq!(
        bot.parse_message(&with_message(Some("/a b c d")), &session),
        Ok(("a".to_string(), vec!["d".to_string(), "b".to_string(), "c".to_string()]))
    );
    assert_eq!(
        bot.parse_message(&with_message(Some("hello there")), &session),
        Err("String \"hello there\" doesn't contains a command".to_string())
    );
    assert_eq!(
        bot.parse_message(&with_message(None), &session),
        Err("Unsupported message type".to_string())
    );
    assert_eq!(bot.parse_message(&empty_request(), &session), Err("Empty message".to_string()));
}

#[test]
fn blasphemy_takes_the_command_from_the_session() {
    let bot = BlasphemyBot::new(Telegram::new("test"));
    let mut session = Session::new();
    let request = with_message(Some("the developer"));
    let key = BlasphemyBot::get_session_key(request.get_message().as_ref().unwrap());
    assert_eq!(key, "1111111.2222222");
    session.set(&key, Json::Text("swearto".to_string()));
    assert_eq!(
        bot.parse_message(&request, &session),
        Ok(("swearto".to_string(), vec!["the".to_string(), "developer".to_string()]))
    );
    session.set(&key, Json::Bool(true));
    assert_eq!(bot.parse_message(&request, &session), Err("Session value mismatch".to_string()));
}

#[test]
fn blasphemy_manages_messages_only() {
    let bot = BlasphemyBot::new(Telegram::new("test"));
    let session = Session::new();
    let request = with_message(Some("/start"));
    assert_eq!(bot.parse_edited_message(&request, &session), Err("Not managed".to_string()));
    assert_eq!(bot.parse_inline_query(&request, &session), Err("Not managed".to_string()));
    assert_eq!(bot.parse_chosen_inline_result(&request, &session), Err("Not managed".to_string()));
    assert_eq!(bot.parse_callback_query(&request, &session), Err("Not managed".to_string()));
    let mut edited = empty_request();
    edited.edited_message = Some(Box::new(message(Some("/start"))));
    let cfg = config(WORDS);
    assert_eq!(
        bot.parse(&edited, cfg.tree(), &session).map(|_| ()),
        Err("Not managed".to_string())
    );
    assert_eq!(
        bot.parse(&empty_request(), cfg.tree(), &session).map(|_| ()),
        Err("Unrecognized request type".to_string())
    );
}

#[test]
fn blasphemy_about_and_help() {
    let bot = BlasphemyBot::new(Telegram::new("test"));
    let cfg = config(WORDS);
    let request = with_message(Some("/about"));
    let call = sent(bot.dispatch("about", vec![], &request, cfg.tree()).unwrap());
    assert_eq!(call.method, "sendMessage");
    assert_eq!(chat_of(&call), "2222222");
    assert_eq!(text_of(&call), ABOUT);
    assert_eq!(call.params.len(), 3);
    let call = sent(bot.dispatch("help", vec![], &request, cfg.tree()).unwrap());
    assert_eq!(text_of(&call), HELP);
    assert_eq!(
        bot.dispatch("about", vec![], &empty_request(), cfg.tree()).map(|_| ()),
        Err("Empty message".to_string())
    );
    assert_eq!(
        bot.dispatch("start", vec![], &request, cfg.tree()).map(|_| ()),
        Err("Method start not found".to_string())
    );
}

#[test]
fn blasphemy_swears_with_words_of_the_configuration() {
    let bot = BlasphemyBot::new(Telegram::new("test"));
    let cfg = config(WORDS);
    let request = with_message(Some("/swear"));
    for _ in 0..50 {
        let call = sent(bot.dispatch("swear", vec![], &request, cfg.tree()).unwrap());
        let text = text_of(&call);
        let words: Vec<&str> = text.split(' ').collect();
        assert_eq!(words.len(), 3);
        assert!(["a1", "a2"].contains(&words[0]));
        assert_eq!(words[1], "b1");
        assert!(["c1", "c2"].contains(&words[2]));
    }
    let call = sent(bot.dispatch("blackhumor", vec![], &request, cfg.tree()).unwrap());
    assert_eq!(text_of(&call), "joke");
    assert_eq!(
        bot.dispatch("swear", vec![], &empty_request(), cfg.tree()).map(|_| ()),
        Err("Empty message".to_string())
    );
}

#[test]
fn blasphemy_draws_fail_on_a_bad_configuration() {
    let cfg = config(WORDS);
    assert_eq!(BlasphemyBot::get_random(cfg.tree(), "Absent"), Err("Absent is not an array".to_string()));
    assert_eq!(BlasphemyBot::get_random(cfg.tree(), "secret"), Err("secret is not an array".to_string()));
    assert_eq!(BlasphemyBot::get_random(cfg.tree(), "One"), Err("One has too few values".to_string()));
    assert_eq!(BlasphemyBot::get_random(cfg.tree(), "Mixed"), Err("Mixed[0] is not a string".to_string()));
    assert_eq!(BlasphemyBot::get_random(cfg.tree(), "WordsB"), Ok("b1".to_string()));
    let items = cfg.tree().get("Mixed").unwrap().as_array().unwrap();
    assert_eq!(BlasphemyBot::pick(items, "Mixed", 1), Ok("x".to_string()));
    assert_eq!(BlasphemyBot::pick(items, "Mixed", 0), Err("Mixed[0] is not a string".to_string()));
    let bot = BlasphemyBot::new(Telegram::new("test"));
    let bare = config("secret = \"s\"\ntoken = \"t\"\nWordsA = [\"a\", \"b\"]\n");
    let request = with_message(Some("/swear"));
    assert_eq!(
        bot.dispatch("swear", vec![], &request, bare.tree()).map(|_| ()),
        Err("WordsB is not an array".to_string())
    );
    assert_eq!(
        bot.dispatch("swearto", vec!["x".to_string()], &request, bare.tree()).map(|_| ()),
        Err("WordsC is not an array".to_string())
    );
    assert_eq!(
        bot.dispatch("blackhumor", vec![], &request, bare.tree()).map(|_| ()),
        Err("BlacHumor is not an array".to_string())
    );
}

#[test]
fn blasphemy_swears_with_given_words() {
    let bot = BlasphemyBot::new(Telegram::new("test"));
    let request = with_message(Some("/swear"));
    let ok = |s: &str| Ok(s.to_string());
    let call = sent(bot.swear_with(&request, ok("x"), ok("y"), ok("z")).unwrap());
    assert_eq!(text_of(&call), "x y z");
    assert_eq!(
        bot.swear_with(&request, ok("x"), Err("second".to_string()), Err("third".to_string()))
            .map(|_| ()),
        Err("second".to_string())
    );
    let call = sent(bot.swear_about_with(&request, " the dev", ok("x"), ok("z")).unwrap());
    assert_eq!(text_of(&call), "x the dev z");
    assert_eq!(
        bot.swear_about_with(&request, "", Err("first".to_string()), ok("z")).map(|_| ()),
        Err("first".to_string())
    );
}

#[test]
fn blasphemy_swearto_asks_for_the_subject_or_uses_it() {
    let bot = BlasphemyBot::new(Telegram::new("test"));
    let cfg = config(WORDS);
    let request = with_message(Some("/swearto"));
    let outcome = bot.dispatch("swearto", vec![], &request, cfg.tree()).unwrap();
    match &outcome.remember {
        Some((key, value)) => {
            assert_eq!(key, "1111111.2222222");
            assert_eq!(value, &Json::Text("swearto".to_string()));
        }
        None => panic!("nothing to remember"),
    }
    match &outcome.action {
        Action::Call(call) => {
            assert_eq!(text_of(call), ASK_SUBJECT);
            let names: Vec<&str> = call.params.iter().map(|(n, _)| n.as_str()).collect();
            assert_eq!(
                names,
                vec!["chat_id", "text", "reply_to_message_id", "disable_web_page_preview", "reply_markup"]
            );
            assert!(matches!(&call.params[2].1, Param::Value(v) if v == "1365"));
        }
        other => panic!("got {:?}", other),
    }
    let mut session = Session::new();
    let action = outcome.settle(&mut session);
    assert!(matches!(action, Action::Call(_)));
    assert_eq!(session.get("1111111.2222222"), Some(Json::Text("swearto".to_string())));

    let args = vec!["the".to_string(), "developer".to_string()];
    let call = sent(bot.dispatch("swearto", args, &request, cfg.tree()).unwrap());
    let text = text_of(&call);
    assert!(text == "a1 the developer c1" || text == "a1 the developer c2"
        || text == "a2 the developer c1" || text == "a2 the developer c2", "text {:?}", text);
}

#[test]
fn no_fly_reads_commands_and_locations() {
    let read = |m: Option<Message>| NoFlyBot::get_command_and_arguments(&m.map(Box::new));
    assert_eq!(
        read(Some(message(Some("/find pippo")))),
        Ok(("find".to_string(), vec!["pippo".to_string()]))
    );
    assert_eq!(
        read(Some(message(Some(" #tag one two ")))),
        Ok(("tag".to_string(), vec!["two".to_string(), "one".to_string()]))
    );
    assert_eq!(
        read(Some(message(Some("find pippo")))),
        Err("String \"find pippo\" doesn't contains a command".to_string())
    );
    assert_eq!(read(Some(message(None))), Err("Unsupported message type".to_string()));
    assert_eq!(read(None), Err("Empty message".to_string()));
    let mut located = message(None);
    located.location =
        Some(Location { longitude: "12.233439".to_string(), latitude: "45.5589".to_string() });
    assert_eq!(
        read(Some(located)),
        Ok(("set_location".to_string(), vec!["12.233439".to_string(), "45.5589".to_string()]))
    );
}

const COMMANDS: &str = "secret = \"prova\"\ntoken = \"test\"\n\n[commands]\nset_location = \"echo\"\nfind = \"/bin/find-it\"\nbroken = 3\n";

#[test]
fn no_fly_runs_the_program_of_the_command() {
    let bot = NoFlyBot::new(Telegram::new("test"));
    let cfg = config(COMMANDS);
    let request = with_message(Some("/find pippo"));
    let outcome = bot.dispatch("find", vec!["pippo".to_string()], &request, cfg.tree()).unwrap();
    assert!(outcome.remember.is_none());
    match outcome.action {
        Action::Run(job) => {
            assert_eq!(job.program, "/bin/find-it");
            assert_eq!(job.args, vec!["2222222", "1111111", "pippo"]);
            assert_eq!(job.chat_id, "2222222");
            assert_eq!(job.method, "find");
        }
        other => panic!("got {:?}", other),
    }
    let mut edited = empty_request();
    edited.edited_message = Some(Box::new(message(None)));
    match bot.dispatch("set_location", vec![], &edited, cfg.tree()).unwrap().action {
        Action::Run(job) => {
            assert_eq!(job.program, "echo");
            assert_eq!(job.args, vec!["2222222", "1111111"]);
        }
        other => panic!("got {:?}", other),
    }
    assert_eq!(
        bot.dispatch("lose", vec![], &request, cfg.tree()).map(|_| ()),
        Err("Command lose not configured".to_string())
    );
    assert_eq!(
        bot.dispatch("broken", vec![], &request, cfg.tree()).map(|_| ()),
        Err("Command broken incorrectly configured".to_string())
    );
    assert_eq!(
        bot.dispatch("find", vec![], &empty_request(), cfg.tree()).map(|_| ()),
        Err("Unsupported message type".to_string())
    );
    let bare = config("secret = \"s\"\ntoken = \"t\"\n");
    assert_eq!(
        bot.dispatch("find", vec![], &request, bare.tree()).map(|_| ()),
        Err("Command find not configured".to_string())
    );
    assert_eq!(NoFlyBot::program(cfg.tree(), "find"), Ok("/bin/find-it".to_string()));
}

#[test]
fn job_reports_the_output_to_the_chat() {
    let job = Job {
        program: "echo".to_string(),
        args: vec![],
        chat_id: "77".to_string(),
        method: "find".to_string(),
    };
    let api = Telegram::new("test");
    let call = job.report(&api, Ok("*found*".to_string())).unwrap();
    assert_eq!(call.method, "sendMessage");
    assert_eq!(chat_of(&call), "77");
    assert_eq!(text_of(&call), "*found*");
    let names: Vec<&str> = call.params.iter().map(|(n, _)| n.as_str()).collect();
    assert_eq!(names, vec!["chat_id", "text", "disable_web_page_preview", "parse_mode"]);
    assert_eq!(
        job.report(&api, Err("No such file".to_string())).map(|_| ()),
        Err("Error executing find: No such file".to_string())
    );
}

#[test]
fn no_fly_parses_through_the_trait() {
    let bot = NoFlyBot::new(Telegram::new("test"));
    let cfg = config(COMMANDS);
    let session = Session::new();
    let mut edited = empty_request();
    let mut located = message(None);
    located.location =
        Some(Location { longitude: "12.233439".to_string(), latitude: "45.5589".to_string() });
    edited.edited_message = Some(Box::new(located));
    match bot.parse(&edited, cfg.tree(), &session).unwrap().action {
        Action::Run(job) => {
            assert_eq!(job.program, "echo");
            assert_eq!(job.args, vec!["2222222", "1111111", "12.233439", "45.5589"]);
            assert_eq!(job.method, "set_location");
        }
        other => panic!("got {:?}", other),
    }
    assert_eq!(
        bot.parse_inline_query(&edited, &session),
        Err("Not managed".to_string())
    );
}

#[test]
fn init_bot_checks_then_lets_the_bot_decide() {
    let cfg = config(WORDS);
    let mut session = Session::new();
    let request = with_message(Some("/swearto"));
    let action = init_bot::<BlasphemyBot>(cfg.tree(), &mut session, "prova", &request).unwrap();
    assert!(matches!(action, Action::Call(_)));
    assert_eq!(session.get("1111111.2222222"), Some(Json::Text("swearto".to_string())));
    // the subject comes in a message without a command
    let subject = with_message(Some("you"));
    match init_bot::<BlasphemyBot>(cfg.tree(), &mut session, "prova", &subject).unwrap() {
        Action::Call(call) => assert!(text_of(&call).contains(" you ")),
        other => panic!("got {:?}", other),
    }
    let mut untouched = Session::new();
    assert_eq!(
        init_bot::<BlasphemyBot>(cfg.tree(), &mut untouched, "wrong", &request).map(|_| ()),
        Err("Error during bot init: Secret mismatch".to_string())
    );
    assert!(untouched.get("1111111.2222222").is_none());
    let no_token = ConfigValue::Table(vec![(
        "secret".to_string(),
        ConfigValue::Text("prova".to_string()),
    )]);
    assert_eq!(
        init_bot::<NoFlyBot>(&no_token, &mut untouched, "prova", &request).map(|_| ()),
        Err("Error during bot init: token config value not found".to_string())
    );
    assert_eq!(
        init_bot::<NoFlyBot>(cfg.tree(), &mut untouched, "prova", &with_message(Some("/start")))
            .map(|_| ()),
        Err("Command start not configured".to_string())
    );
}
