use rustegram::entities::{
    Chat, ChatAction, InlineKeyboardButton, InlineQuery, KeyboardButton, Location, Message,
    ParseMode, ReplyMarkup, Request, RequestType, User,
};
use rustegram::server::{Config, HttpsConfig};

fn user(id: i64) -> User {
    User {
        id,
        is_bot: true,
        first_name: "Test Firstname".to_string(),
        last_name: None,
        username: None,
        language_code: None,
    }
}

fn chat(id: i64) -> Chat {
    Chat {
        id,
        type_: "private".to_string(),
        title: None,
        username: None,
        first_name: None,
        last_name: None,
        photo: None,
        description: None,
        invite_link: None,
        pinned_message: None,
        sticker_set_name: None,
        can_set_sticker_set: None,
    }
}

fn message(text: Option<&str>) -> Message {
    Message {
        message_id: 1365,
        from: user(1111111),
        date: 1441645532,
        chat: chat(2222222),
        forward_from: None,
        forward_fromchat: None,
        forward_from_message_id: None,
        forward_signature: None,
        reply_to_message: None,
        edit_date: None,
        media_group_id: None,
        author_signature: None,
        text: text.map(|s| s.to_string()),
        entities: None,
        caption_entities: None,
        audio: None,
        document: None,
        game: None,
        photo: None,
        sticker: None,
        video_note: None,
        caption: None,
        contact: None,
        location: None,
        venue: None,
        new_chat_members: None,
        left_chat_member: None,
        new_chat_title: None,
        new_chat_photo: None,
        delete_chat_photo: None,
        group_chat_created: None,
        supergroup_chat_created: None,
        channel_chat_created: None,
        migrate_to_chat_id: None,
        migrate_from_chat_id: None,
        pinned_message: None,
        invoice: None,
        successful_payment: None,
        connected_website: None,
    }
}

fn empty_request() -> Request {
    Request {
        update_id: Some(10000),
        message: None,
        edited_message: None,
        inline_query: None,
        chosen_inline_result: None,
        callback_query: None,
    }
}

#[test]
fn entities_it_works() {
    assert_eq!(ParseMode::from_name("Markdown"), Ok(ParseMode::Markdown));
    assert_eq!(ChatAction::from_name("typing"), Ok(ChatAction::Typing));
}

#[test]
fn request_type_is_that_of_the_first_part() {
    let mut request = empty_request();
    assert_eq!(request.get_type(), Err("Unrecognized request type".to_string()));
    request.callback_query = Some(rustegram::entities::CallbackQuery {
        id: "4382bfdwdsb323b2d9".to_string(),
        from: user(1111111),
        message: None,
        inline_message_id: Some("1234csdbsk4839".to_string()),
        chat_instance: None,
        data: Some("Data from button callback".to_string()),
        game_short_name: None,
    });
    assert_eq!(request.get_type(), Ok(RequestType::CallbackQuery));
    request.chosen_inline_result = Some(rustegram::entities::ChosenInlineResult {
        result_id: "12".to_string(),
        from: user(1111111),
        location: None,
        inline_message_id: Some("1234csdbsk4839".to_string()),
        query: "inline query".to_string(),
    });
    assert_eq!(request.get_type(), Ok(RequestType::ChosenInlineResult));
    request.inline_query = Some(InlineQuery {
        id: "134567890097".to_string(),
        from: user(1111111),
        location: None,
        query: "inline query".to_string(),
        offset: "".to_string(),
    });
    assert_eq!(request.get_type(), Ok(RequestType::InlineQuery));
    request.edited_message = Some(Box::new(message(Some("Edited text"))));
    assert_eq!(request.get_type(), Ok(RequestType::EditedMesage));
    request.message = Some(Box::new(message(Some("/start"))));
    assert_eq!(request.get_type(), Ok(RequestType::Message));
}

#[test]
fn getters_give_the_fields() {
    let mut request = empty_request();
    assert_eq!(request.get_update_id(), &Some(10000));
    assert!(request.get_message().is_none());
    assert!(request.get_edited_message().is_none());
    assert!(request.get_inline_query().is_none());
    assert!(request.get_chosen_inline_result().is_none());
    assert!(request.get_callback_query().is_none());
    let mut m = message(Some("/start"));
    m.location =
        Some(Location { longitude: "12.23484".to_string(), latitude: "45.561323".to_string() });
    request.message = Some(Box::new(m));
    let msg = request.get_message().as_ref().unwrap();
    assert_eq!(msg.get_id(), 1365);
    assert_eq!(msg.get_from().get_id(), 1111111);
    assert_eq!(msg.get_chat().get_id(), 2222222);
    assert_eq!(msg.get_text(), &Some("/start".to_string()));
    let loc = msg.get_location().as_ref().unwrap();
    assert_eq!(loc.get_longitude(), "12.23484");
    assert_eq!(loc.get_latitude(), "45.561323");
    assert_eq!(user(-5).get_id(), -5);
    assert_eq!(chat(i64::MIN).get_id(), i64::MIN);
}

#[test]
fn parse_mode_names() {
    assert_eq!(ParseMode::Markdown.to_string(), "Markdown");
    assert_eq!(ParseMode::HTML.to_string(), "HTML");
    assert_eq!(ParseMode::from_name("HTML"), Ok(ParseMode::HTML));
    assert_eq!(ParseMode::from_name("html"), Err("unknown ParseMode value: html".to_string()));
    assert_eq!(ParseMode::from_name(""), Err("unknown ParseMode value: ".to_string()));
    for mode in [ParseMode::Markdown, ParseMode::HTML] {
        assert_eq!(ParseMode::from_name(&mode.to_string()), Ok(mode));
    }
}

#[test]
fn chat_action_names() {
    let all = [
        (ChatAction::Typing, "typing"),
        (ChatAction::UploadPhoto, "upload_photo"),
        (ChatAction::RecordVideo, "record_video"),
        (ChatAction::UploadVideo, "upload_video"),
        (ChatAction::RecordAudio, "record_audio"),
        (ChatAction::UploadAudio, "upload_audio"),
        (ChatAction::UploadDocument, "upload_document"),
        (ChatAction::FindLocation, "find_location"),
        (ChatAction::RecordVideoNote, "record_video_note"),
        (ChatAction::UploadVideoNote, "upload_video_note"),
    ];
    for (action, name) in all {
        assert_eq!(action.to_string(), name);
        assert_eq!(ChatAction::from_name(name), Ok(action));
    }
    assert_eq!(
        ChatAction::from_name("Typing"),
        Err("unknown ChatAction value: Typing".to_string())
    );
}

#[test]
fn reply_markup_helpers() {
    match ReplyMarkup::force_reply(true, Some(false)) {
        ReplyMarkup::ForceReply(f) => {
            assert!(f.force_reply);
            assert_eq!(f.selective, Some(false));
        }
        other => panic!("got {:?}", other),
    }
    let button =
        KeyboardButton { text: "yes".to_string(), request_contact: None, request_location: Some(true) };
    match ReplyMarkup::reply_keyboard(vec![vec![button]], Some(true), None, Some(false)) {
        ReplyMarkup::ReplyKeyboard(k) => {
            assert_eq!(k.keyboard.len(), 1);
            assert_eq!(k.keyboard[0][0].text, "yes");
            assert_eq!(k.keyboard[0][0].request_location, Some(true));
            assert_eq!(k.resize_keyboard, Some(true));
            assert_eq!(k.one_time_keyboard, None);
            assert_eq!(k.selective, Some(false));
        }
        other => panic!("got {:?}", other),
    }
    match ReplyMarkup::reply_keyboard_remove(false, None) {
        ReplyMarkup::ReplyKeyboardRemove(r) => {
            assert!(!r.remove_keyboard);
            assert_eq!(r.selective, None);
        }
        other => panic!("got {:?}", other),
    }
    let inline = InlineKeyboardButton {
        text: "Start".to_string(),
        url: None,
        callback_data: Some("en".to_string()),
        switch_inline_query: None,
        switch_inline_query_current_chat: None,
        callback_game: None,
        pay: None,
    };
    match ReplyMarkup::inline_keyboard(vec![vec![inline], vec![]]) {
        ReplyMarkup::InlineKeyboard(k) => {
            assert_eq!(k.inline_keyboard.len(), 2);
            assert_eq!(k.inline_keyboard[0][0].callback_data, Some("en".to_string()));
            assert!(k.inline_keyboard[1].is_empty());
        }
        other => panic!("got {:?}", other),
    }
}

#[test]
fn server_settings() {
    let plain = Config { address: "127.0.0.1".to_string(), port: None, https: None };
    assert!(!plain.https_enabled());
    assert_eq!(plain.get_port(), 80);
    assert_eq!(plain.get_address(), "127.0.0.1:80");
    let off = Config {
        address: "0.0.0.0".to_string(),
        port: None,
        https: Some(HttpsConfig { enabled: false }),
    };
    assert!(!off.https_enabled());
    assert_eq!(off.get_address(), "0.0.0.0:80");
    let on = Config {
        address: "::1".to_string(),
        port: None,
        https: Some(HttpsConfig { enabled: true }),
    };
    assert!(on.https_enabled());
    assert_eq!(on.get_port(), 443);
    assert_eq!(on.get_address(), "::1:443");
    let set = Config {
        address: "localhost".to_string(),
        port: Some(8080),
        https: Some(HttpsConfig { enabled: true }),
    };
    assert_eq!(set.get_port(), 8080);
    assert_eq!(set.get_address(), "localhost:8080");
}
