//! The entities of the Telegram Bot API that a request carries and a reply is
//! made of.

use vstd::prelude::*;
use vstd::string::StringExecFns;

verus! {

/// #Request
/// This object represents a Telegram Request.
#[derive(Debug)]
pub struct Request {
    pub update_id: Option<u64>,
    pub message: Option<Box<Message>>,
    pub edited_message: Option<Box<Message>>,
    pub inline_query: Option<InlineQuery>,
    pub chosen_inline_result: Option<ChosenInlineResult>,
    pub callback_query: Option<CallbackQuery>,
}

/// #RequestType
/// This object represents the type of a Telegram Request.
#[derive(Clone, Copy, Debug, PartialEq, Eq, Structural)]
pub enum RequestType {
    /// see Message
    Message,
    /// see Message
    EditedMesage,
    /// see InlineQuery
    InlineQuery,
    /// see ChosenInlineResult
    ChosenInlineResult,
    /// see CallbackQuery
    CallbackQuery,
}

/// #User
/// This object represents a Telegram user or bot.
#[derive(Clone, Debug)]
pub struct User {
    pub id: i64,
    pub is_bot: bool,
    pub first_name: String,
    pub last_name: Option<String>,
    pub username: Option<String>,
    pub language_code: Option<String>,
}

/// #Chat
/// This object represents a chat.
#[derive(Debug)]
pub struct Chat {
    pub id: i64,
    pub type_: String,
    pub title: Option<String>,
    pub username: Option<String>,
    pub first_name: Option<String>,
    pub last_name: Option<String>,
    pub photo: Option<ChatPhoto>,
    pub description: Option<String>,
    pub invite_link: Option<String>,
    pub pinned_message: Option<Box<Message>>,
    pub sticker_set_name: Option<String>,
    pub can_set_sticker_set: Option<bool>,
}

/// #Message
/// This object represents a message.
#[derive(Debug)]
pub struct Message {
    pub message_id: u64,
    pub from: User,
    pub date: u64,
    pub chat: Chat,
    pub forward_from: Option<User>,
    pub forward_fromchat: Option<Chat>,
    pub forward_from_message_id: Option<u64>,
    pub forward_signature: Option<String>,
    pub reply_to_message: Option<Box<Message>>,
    pub edit_date: Option<u64>,
    pub media_group_id: Option<String>,
    pub author_signature: Option<String>,
    pub text: Option<String>,
    pub entities: Option<Vec<MessageEntity>>,
    pub caption_entities: Option<MessageEntity>,
    pub audio: Option<Audio>,
    pub document: Option<Document>,
    pub game: Option<Game>,
    pub photo: Option<Vec<PhotoSize>>,
    pub sticker: Option<Sticker>,
    pub video_note: Option<VideoNote>,
    pub caption: Option<String>,
    pub contact: Option<Contact>,
    pub location: Option<Location>,
    pub venue: Option<Venue>,
    pub new_chat_members: Option<Vec<User>>,
    pub left_chat_member: Option<User>,
    pub new_chat_title: Option<String>,
    pub new_chat_photo: Option<Vec<PhotoSize>>,
    pub delete_chat_photo: Option<bool>,
    pub group_chat_created: Option<bool>,
    pub supergroup_chat_created: Option<bool>,
    pub channel_chat_created: Option<bool>,
    pub migrate_to_chat_id: Option<i64>,
    pub migrate_from_chat_id: Option<i64>,
    pub pinned_message: Option<Box<Message>>,
    pub invoice: Option<Invoice>,
    pub successful_payment: Option<SuccessfulPayment>,
    pub connected_website: Option<String>,
}

/// #MessageEntity
/// This object represents one special entity in a text message. For example, hashtags, usernames, URLs, etc.
#[derive(Clone, Debug)]
pub struct MessageEntity {
    pub type_: String,
    pub offset: u64,
    pub length: u64,
    pub url: Option<String>,
    pub user: Option<User>,
}

/// #PhotoSize
/// This object represents one size of a photo or a file / sticker thumbnail.
#[derive(Clone, Debug)]
pub struct PhotoSize {
    pub file_id: String,
    pub width: i64,
    pub height: i64,
    pub file_size: Option<i64>,
}

/// #Audio
/// This object represents an audio file to be treated as music by the Telegram clients.
#[derive(Clone, Debug)]
pub struct Audio {
    pub file_id: String,
    pub duration: u64,
    pub performer: Option<String>,
    pub title: Option<String>,
    pub mime_type: Option<String>,
    pub file_size: Option<u64>,
}

/// #Document
/// This object represents a general file (as opposed to photos, voice messages and audio files).
#[derive(Clone, Debug)]
pub struct Document {
    pub file_id: String,
    pub thumb: Option<PhotoSize>,
    pub file_name: Option<String>,
    pub mime_type: Option<String>,
    pub file_size: Option<u64>,
}

/// #Video
/// This object represents a video file.
#[derive(Clone, Debug)]
pub struct Video {
    pub file_id: String,
    pub width: i64,
    pub height: i64,
    pub duration: i64,
    pub thumb: Option<PhotoSize>,
    pub mime_type: Option<String>,
    pub file_size: Option<u64>,
}

/// #Voice
/// This object represents a voice note.
#[derive(Clone, Debug)]
pub struct Voice {
    pub file_id: String,
    pub duration: i64,
    pub mime_type: Option<String>,
    pub file_size: Option<u64>,
}

/// #VideoNote
/// This object represents a video message (available in Telegram apps as of v.4.0).
#[derive(Clone, Debug)]
pub struct VideoNote {
    pub file_id: String,
    pub length: i64,
    pub duration: i64,
    pub thumb: Option<PhotoSize>,
    pub file_size: Option<u64>,
}

/// #Contact
/// This object represents a phone contact.
#[derive(Clone, Debug)]
pub struct Contact {
    pub phone_number: String,
    pub first_name: String,
    pub last_name: Option<String>,
    pub user_id: Option<i64>,
}

/// #Location
/// This object represents a point on the map.
#[derive(Clone, Debug)]
pub struct Location {
    /// The longitude in degrees, as a decimal number.
    pub longitude: String,
    /// The latitude in degrees, as a decimal number.
    pub latitude: String,
}

/// #Venue
/// This object represents a venue.
#[derive(Clone, Debug)]
pub struct Venue {
    pub location: Location,
    pub title: String,
    pub address: String,
    pub foursquare_id: Option<String>,
}

/// #UserProfilePhotos
/// This object represent a user's profile pictures.
#[derive(Clone, Debug)]
pub struct UserProfilePhotos {
    pub total_count: u64,
    pub photos: Vec<PhotoSize>,
}

/// #File
/// This object represents a file ready to be downloaded.
/// The file can be downloaded via the link https://api.telegram.org/file/bot<token>/<file_path>.
/// It is guaranteed that the link will be valid for at least 1 hour.
/// When the link expires, a new one can be requested by calling getFile.
#[derive(Clone, Debug)]
pub struct File {
    pub file_id: String,
    pub file_size: Option<u64>,
    pub file_path: Option<String>,
}

/// #ReplyKeyboardMarkup
/// This object represents a custom keyboard with reply options
/// (see Introduction to bots for details and examples).
#[derive(Clone, Debug)]
pub struct ReplyKeyboardMarkup {
    pub keyboard: Vec<Vec<KeyboardButton>>,
    pub resize_keyboard: Option<bool>,
    pub one_time_keyboard: Option<bool>,
    pub selective: Option<bool>,
}

/// #KeyboardButton
/// This object represents one button of the reply keyboard.
/// For simple text buttons String can be used instead of this object to specify text of the button.
/// Optional fields are mutually exclusive.
#[derive(Clone, Debug)]
pub struct KeyboardButton {
    pub text: String,
    pub request_contact: Option<bool>,
    pub request_location: Option<bool>,
}

/// #ReplyKeyboardRemove
/// Upon receiving a message with this object, Telegram clients will remove the current custom keyboard
/// and display the default letter-keyboard.
/// By default, custom keyboards are displayed until a new keyboard is sent by a bot.
/// An exception is made for one-time keyboards that are hidden immediately after the user presses a button
/// (see ReplyKeyboardMarkup).
#[derive(Clone, Debug)]
pub struct ReplyKeyboardRemove {
    pub remove_keyboard: bool,
    pub selective: Option<bool>,
}

/// #InlineKeyboardMarkup
/// This object represents an inline keyboard that appears right next to the message it belongs to.
#[derive(Clone, Debug)]
pub struct InlineKeyboardMarkup {
    pub inline_keyboard: Vec<Vec<InlineKeyboardButton>>,
}

/// #InlineKeyboardButton
/// This object represents one button of an inline keyboard. You must use exactly one of the optional fields.
#[derive(Clone, Debug)]
pub struct InlineKeyboardButton {
    pub text: String,
    pub url: Option<String>,
    pub callback_data: Option<String>,
    pub switch_inline_query: Option<String>,
    pub switch_inline_query_current_chat: Option<String>,
    pub callback_game: Option<CallbackGame>,
    pub pay: Option<bool>,
}

/// #CallbackQuery
/// This object represents an incoming callback query from a callback button in an inline keyboard.
/// If the button that originated the query was attached to a message sent by the bot,
/// the field message will be present.
/// If the button was attached to a message sent via the bot (in inline mode),
/// the field inline_message_id will be present.
/// Exactly one of the fields data or game_short_name will be present.
#[derive(Debug)]
pub struct CallbackQuery {
    pub id: String,
    pub from: User,
    pub message: Option<Box<Message>>,
    pub inline_message_id: Option<String>,
    pub chat_instance: Option<String>,
    pub data: Option<String>,
    pub game_short_name: Option<String>,
}

/// #ForceReply
/// Upon receiving a message with this object, Telegram clients will display a reply interface
/// to the user (act as if the user has selected the bot‘s message and tapped ’Reply').
/// This can be extremely useful if you want to create user-friendly step-by-step interfaces
/// without having to sacrifice privacy mode.
#[derive(Clone, Debug)]
pub struct ForceReply {
    pub force_reply: bool,
    pub selective: Option<bool>,
}

/// #ChatPhoto
/// This object represents a chat photo.
#[derive(Clone, Debug)]
pub struct ChatPhoto {
    pub small_file_id: String,
    pub big_file_id: String,
}

/// #ChatMember
/// This object contains information about one member of a chat.
#[derive(Clone, Debug)]
pub struct ChatMember {
    pub user: User,
    pub status: String,
    pub until_date: Option<u64>,
    pub can_be_edited: Option<bool>,
    pub can_change_info: Option<bool>,
    pub can_post_messages: Option<bool>,
    pub can_edit_messages: Option<bool>,
    pub can_delete_messages: Option<bool>,
    pub can_invite_users: Option<bool>,
    pub can_restrict_members: Option<bool>,
    pub can_pin_messages: Option<bool>,
    pub can_promote_members: Option<bool>,
    pub can_send_messages: Option<bool>,
    pub can_send_media_messages: Option<bool>,
    pub can_send_other_messages: Option<bool>,
    pub can_add_web_page_previews: Option<bool>,
}

/// #ResponseParameters
/// Contains information about why a request was unsuccessful.
#[derive(Clone, Debug)]
pub struct ResponseParameters {
    pub migrate_to_chat_id: i64,
    pub retry_after: Option<u64>,
}

/// #InputMedia
/// This object represents the content of a media message to be sent. It should be one of
/// InputMediaPhoto
/// InputMediaVideo
#[derive(Clone, Debug)]
pub enum InputMedia {
    /// see InputMediaPhoto
    Photo(InputMediaPhoto),
    /// see InputMediaVideo
    Video(InputMediaVideo),
}

/// #InputMediaPhoto
/// Represents a photo to be sent.
#[derive(Clone, Debug)]
pub struct InputMediaPhoto {
    pub type_: String,
    pub media: String,
    pub caption: Option<String>,
    pub parse_mode: Option<ParseMode>,
}

/// #InputMediaVideo
/// Represents a video to be sent.
#[derive(Clone, Debug)]
pub struct InputMediaVideo {
    pub type_: String,
    pub media: String,
    pub caption: Option<String>,
    pub parse_mode: Option<ParseMode>,
    pub width: Option<u64>,
    pub height: Option<u64>,
    pub duration: Option<u64>,
    pub supports_streaming: Option<bool>,
}

/// #InputFile
/// This object represents the contents of a file to be uploaded.
/// Must be posted using multipart/form-data in the usual way that files are uploaded via the browser.
#[derive(Clone, Debug)]
pub enum InputFile {
    /// use FileId when using a file already present on Telegram server
    FileId(String),
    /// use Url when uploading a remote file
    Url(String),
    /// use File when uploading a local file
    File(String),
}

/// #Sticker
/// This object represents a sticker.
#[derive(Clone, Debug)]
pub struct Sticker {
    pub file_id: String,
    pub width: u64,
    pub height: u64,
    pub thumb: Option<PhotoSize>,
    pub emoji: Option<String>,
    pub set_name: Option<String>,
    pub mask_position: Option<MaskPosition>,
    pub file_size: Option<u64>,
}

/// #StickerSet
/// This object represents a sticker set.
#[derive(Clone, Debug)]
pub struct StickerSet {
    pub name: String,
    pub title: String,
    pub contains_masks: bool,
    pub stickers: Vec<Sticker>,
}

/// #MaskPosition
/// This object describes the position on faces where a mask should be placed by default.
#[derive(Clone, Debug)]
pub struct MaskPosition {
    pub point: String,
    /// The bits of the IEEE 754 binary64 encoding of the number.
    pub x_shift: u64,
    /// The bits of the IEEE 754 binary64 encoding of the number.
    pub y_shift: u64,
    /// The bits of the IEEE 754 binary64 encoding of the number.
    pub scale: u64,
}

/// #InlineQuery
/// This object represents an incoming inline query. When the user sends an empty query,
/// your bot could return some default or trending results.
#[derive(Clone, Debug)]
pub struct InlineQuery {
    pub id: String,
    pub from: User,
    pub location: Option<Location>,
    pub query: String,
    pub offset: String,
}

/// #InlineQueryResult
/// This object represents one result of an inline query.
/// Telegram clients currently support results of the following 20 types:
/// InlineQueryResultCachedAudio
/// InlineQueryResultCachedDocument
/// InlineQueryResultCachedGif
/// InlineQueryResultCachedMpeg4Gif
/// InlineQueryResultCachedPhoto
/// InlineQueryResultCachedSticker
/// InlineQueryResultCachedVideo
/// InlineQueryResultCachedVoice
/// InlineQueryResultArticle
/// InlineQueryResultAudio
/// InlineQueryResultContact
/// InlineQueryResultGame
/// InlineQueryResultDocument
/// InlineQueryResultGif
/// InlineQueryResultLocation
/// InlineQueryResultMpeg4Gif
/// InlineQueryResultPhoto
/// InlineQueryResultVenue
/// InlineQueryResultVideo
/// InlineQueryResultVoice
#[derive(Clone, Debug)]
pub enum InlineQueryResult {
    /// see InlineQueryResultCachedAudio
    CachedAudio(InlineQueryResultCachedAudio),
    /// see InlineQueryResultCachedDocument
    CachedDocument(InlineQueryResultCachedDocument),
    /// see InlineQueryResultCachedGif
    CachedGif(InlineQueryResultCachedGif),
    /// see InlineQueryResultCachedMpeg4Gif
    CachedMpeg4Gif(InlineQueryResultCachedMpeg4Gif),
    /// see InlineQueryResultCachedPhoto
    CachedPhoto(InlineQueryResultCachedPhoto),
    /// see InlineQueryResultCachedSticker
    CachedSticker(InlineQueryResultCachedSticker),
    /// see InlineQueryResultCachedVideo
    CachedVideo(InlineQueryResultCachedVideo),
    /// see InlineQueryResultCachedVoice
    CachedVoice(InlineQueryResultCachedVoice),
    /// see InlineQueryResultArticle
    Article(InlineQueryResultArticle),
    /// see InlineQueryResultAudio
    Audio(InlineQueryResultAudio),
    /// see InlineQueryResultContact
    Contact(InlineQueryResultContact),
    /// see InlineQueryResultGame
    Game(InlineQueryResultGame),
    /// see InlineQueryResultDocument
    Document(InlineQueryResultDocument),
    /// see InlineQueryResultGif
    Gif(InlineQueryResultGif),
    /// see InlineQueryResultLocation
    Location(InlineQueryResultLocation),
    /// see InlineQueryResultMpeg4Gif
    Mpeg4Gif(InlineQueryResultMpeg4Gif),
    /// see InlineQueryResultPhoto
    Photo(InlineQueryResultPhoto),
    /// see InlineQueryResultVenue
    Venue(InlineQueryResultVenue),
    /// see InlineQueryResultVideo
    Video(InlineQueryResultVideo),
    /// see InlineQueryResultVoice
    Voice(InlineQueryResultVoice),
}

/// #InlineQueryResultArticle
/// Represents a link to an article or web page.
#[derive(Clone, Debug)]
pub struct InlineQueryResultArticle {
    pub type_: String,
    pub id: String,
    pub title: String,
    pub input_message_content: InputMessageContent,
    pub reply_markup: Option<InlineKeyboardMarkup>,
    pub url: Option<String>,
    pub hide_url: Option<bool>,
    pub description: Option<String>,
    pub thumb_url: Option<String>,
    pub thumb_width: Option<u64>,
    pub thumb_height: Option<u64>,
}

/// #InlineQueryResultPhoto
/// Represents a link to a photo.
/// By default, this photo will be sent by the user with optional caption.
/// Alternatively, you can use input_message_content to send a message with the specified content
/// instead of the photo.
#[derive(Clone, Debug)]
pub struct InlineQueryResultPhoto {
    pub type_: String,
    pub id: String,
    pub photo_url: String,
    pub thumb_url: String,
    pub photo_width: Option<u64>,
    pub photo_height: Option<u64>,
    pub title: Option<String>,
    pub description: Option<String>,
    pub caption: Option<String>,
    pub parse_mode: Option<String>,
    pub reply_markup: Option<InlineKeyboardMarkup>,
    pub input_message_content: Option<InputMessageContent>,
}

/// #InlineQueryResultGif
/// Represents a link to an animated GIF file.
/// By default, this animated GIF file will be sent by the user with optional caption.
/// Alternatively, you can use input_message_content to send a message with the specified content
/// instead of the animation.
#[derive(Clone, Debug)]
pub struct InlineQueryResultGif {
    pub type_: String,
    pub id: String,
    pub gif_url: String,
    pub gif_width: Option<u64>,
    pub gif_height: Option<u64>,
    pub gif_duration: Option<u64>,
    pub thumb_url: String,
    pub title: Option<String>,
    pub caption: Option<String>,
    pub parse_mode: Option<String>,
    pub reply_markup: Option<InlineKeyboardMarkup>,
    pub input_message_content: Option<InputMessageContent>,
}

/// #InlineQueryResultMpeg4Gif
/// Represents a link to a video animation (H.264/MPEG-4 AVC video without sound).
/// By default, this animated MPEG-4 file will be sent by the user with optional caption.
/// Alternatively, you can use input_message_content to send a message with the specified content
/// instead of the animation.
#[derive(Clone, Debug)]
pub struct InlineQueryResultMpeg4Gif {
    pub type_: String,
    pub id: String,
    pub mpeg4_url: String,
    pub mpeg4_width: Option<u64>,
    pub mpeg4_height: Option<u64>,
    pub mpeg4_duration: Option<u64>,
    pub thumb_url: String,
    pub title: Option<String>,
    pub caption: Option<String>,
    pub parse_mode: Option<String>,
    pub reply_markup: Option<InlineKeyboardMarkup>,
    pub input_message_content: Option<InputMessageContent>,
}

/// #InlineQueryResultVideo
/// Represents a link to a page containing an embedded video player or a video file.
/// By default, this video file will be sent by the user with an optional caption.
/// Alternatively, you can use input_message_content to send a message with the specified content
/// instead of the video.
#[derive(Clone, Debug)]
pub struct InlineQueryResultVideo {
    pub type_: String,
    pub id: String,
    pub video_url: String,
    pub mime_type: String,
    pub thumb_url: String,
    pub title: String,
    pub caption: Option<String>,
    pub parse_mode: Option<String>,
    pub video_width: Option<u64>,
    pub video_height: Option<u64>,
    pub video_duration: Option<u64>,
    pub description: Option<String>,
    pub reply_markup: Option<InlineKeyboardMarkup>,
    pub input_message_content: Option<InputMessageContent>,
}

/// #InlineQueryResultAudio
/// Represents a link to an mp3 audio file. By default, this audio file will be sent by the user.
/// Alternatively, you can use input_message_content to send a message with the specified content
/// instead of the audio.
#[derive(Clone, Debug)]
pub struct InlineQueryResultAudio {
    pub type_: String,
    pub id: String,
    pub audio_url: String,
    pub title: String,
    pub caption: Option<String>,
    pub parse_mode: Option<String>,
    pub performer: Option<String>,
    pub audio_duration: Option<u64>,
    pub reply_markup: Option<InlineKeyboardMarkup>,
    pub input_message_content: Option<InputMessageContent>,
}

/// #InlineQueryResultVoice
/// Represents a link to a voice recording in an .ogg container encoded with OPUS.
/// By default, this voice recording will be sent by the user.
/// Alternatively, you can use input_message_content to send a message with the specified content
/// instead of the the voice message.
#[derive(Clone, Debug)]
pub struct InlineQueryResultVoice {
    pub type_: String,
    pub id: String,
    pub voice_url: String,
    pub title: String,
    pub caption: Option<String>,
    pub parse_mode: Option<String>,
    pub voice_duration: Option<u64>,
    pub reply_markup: Option<InlineKeyboardMarkup>,
    pub input_message_content: Option<InputMessageContent>,
}

/// #InlineQueryResultDocument
/// Represents a link to a file. By default, this file will be sent by the user with an optional caption.
/// Alternatively, you can use input_message_content to send a message with the specified content
/// instead of the file. Currently, only .PDF and .ZIP files can be sent using this method.
#[derive(Clone, Debug)]
pub struct InlineQueryResultDocument {
    pub type_: String,
    pub id: String,
    pub title: String,
    pub caption: Option<String>,
    pub parse_mode: Option<String>,
    pub document_url: String,
    pub mime_type: String,
    pub description: Option<String>,
    pub reply_markup: Option<InlineKeyboardMarkup>,
    pub input_message_content: Option<InputMessageContent>,
    pub thumb_url: Option<String>,
    pub thumb_width: Option<u64>,
    pub thumb_height: Option<u64>,
}

/// #InlineQueryResultLocation
/// Represents a location on a map. By default, the location will be sent by the user.
/// Alternatively, you can use input_message_content to send a message with the specified content
/// instead of the location.
#[derive(Clone, Debug)]
pub struct InlineQueryResultLocation {
    pub type_: String,
    pub id: String,
    /// The bits of the IEEE 754 binary64 encoding of the number.
    pub latitude: u64,
    /// The bits of the IEEE 754 binary64 encoding of the number.
    pub longitude: u64,
    pub title: String,
    pub live_period: Option<u64>,
    pub reply_markup: Option<InlineKeyboardMarkup>,
    pub input_message_content: Option<InputMessageContent>,
    pub thumb_url: Option<String>,
    pub thumb_width: Option<u64>,
    pub thumb_height: Option<u64>,
}

/// #InlineQueryResultVenue
/// Represents a venue. By default, the venue will be sent by the user.
/// Alternatively, you can use input_message_content to send a message with the specified content
/// instead of the venue.
#[derive(Clone, Debug)]
pub struct InlineQueryResultVenue {
    pub type_: String,
    pub id: String,
    /// The bits of the IEEE 754 binary64 encoding of the number.
    pub latitude: u64,
    /// The bits of the IEEE 754 binary64 encoding of the number.
    pub longitude: u64,
    pub title: String,
    pub address: String,
    pub foursquare_id: Option<String>,
    pub reply_markup: Option<InlineKeyboardMarkup>,
    pub input_message_content: Option<InputMessageContent>,
    pub thumb_url: Option<String>,
    pub thumb_width: Option<u64>,
    pub thumb_height: Option<u64>,
}

/// #InlineQueryResultContact
/// Represents a contact with a phone number. By default, this contact will be sent by the user.
/// Alternatively, you can use input_message_content to send a message with the specified content
/// instead of the contact.
#[derive(Clone, Debug)]
pub struct InlineQueryResultContact {
    pub type_: String,
    pub id: String,
    pub phone_number: String,
    pub first_name: String,
    pub last_name: Option<String>,
    pub reply_markup: Option<InlineKeyboardMarkup>,
    pub input_message_content: Option<InputMessageContent>,
    pub thumb_url: Option<String>,
    pub thumb_width: Option<u64>,
    pub thumb_height: Option<u64>,
}

/// #InlineQueryResultGame
/// Represents a Game.
#[derive(Clone, Debug)]
pub struct InlineQueryResultGame {
    pub type_: String,
    pub id: String,
    pub game_short_name: String,
    pub reply_markup: Option<InlineKeyboardMarkup>,
}

/// #InlineQueryResultCachedPhoto
/// Represents a link to a photo stored on the Telegram servers.
/// By default, this photo will be sent by the user with an optional caption.
/// Alternatively, you can use input_message_content to send a message with the specified content
/// instead of the photo.
#[derive(Clone, Debug)]
pub struct InlineQueryResultCachedPhoto {
    pub type_: String,
    pub id: String,
    pub photo_file_id: String,
    pub title: Option<String>,
    pub description: Option<String>,
    pub caption: Option<String>,
    pub parse_mode: Option<String>,
    pub reply_markup: Option<InlineKeyboardMarkup>,
    pub input_message_content: Option<InputMessageContent>,
}

/// #nlineQueryResultCachedGif
/// Represents a link to an animated GIF file stored on the Telegram servers.
/// By default, this animated GIF file will be sent by the user with an optional caption.
/// Alternatively, you can use input_message_content to send a message with specified content
/// instead of the animation.
#[derive(Clone, Debug)]
pub struct InlineQueryResultCachedGif {
    pub type_: String,
    pub id: String,
    pub gif_file_id: String,
    pub title: Option<String>,
    pub caption: Option<String>,
    pub parse_mode: Option<String>,
    pub reply_markup: Option<InlineKeyboardMarkup>,
    pub input_message_content: Option<InputMessageContent>,
}

/// #InlineQueryResultCachedMpeg4Gif
/// Represents a link to a video animation (H.264/MPEG-4 AVC video without sound) stored on the
/// Telegram servers. By default, this animated MPEG-4 file will be sent by the user with an optional caption.
/// Alternatively, you can use input_message_content to send a message with the specified content
/// instead of the animation.
#[derive(Clone, Debug)]
pub struct InlineQueryResultCachedMpeg4Gif {
    pub type_: String,
    pub id: String,
    pub mpeg4_file_id: String,
    pub title: Option<String>,
    pub caption: Option<String>,
    pub parse_mode: Option<String>,
    pub reply_markup: Option<InlineKeyboardMarkup>,
    pub input_message_content: Option<InputMessageContent>,
}

/// #InlineQueryResultCachedSticker
/// Represents a link to a sticker stored on the Telegram servers.
/// By default, this sticker will be sent by the user.
/// Alternatively, you can use input_message_content to send a message with the specified content
/// instead of the sticker.
#[derive(Clone, Debug)]
pub struct InlineQueryResultCachedSticker {
    pub type_: String,
    pub id: String,
    pub sticker_file_id: String,
    pub reply_markup: Option<InlineKeyboardMarkup>,
    pub input_message_content: Option<InputMessageContent>,
}

/// #InlineQueryResultCachedDocument
/// Represents a link to a file stored on the Telegram servers.
/// By default, this file will be sent by the user with an optional caption.
/// Alternatively, you can use input_message_content to send a message with the specified content
/// instead of the file.
#[derive(Clone, Debug)]
pub struct InlineQueryResultCachedDocument {
    pub type_: String,
    pub id: String,
    pub title: String,
    pub document_file_id: String,
    pub description: Option<String>,
    pub caption: Option<String>,
    pub parse_mode: Option<String>,
    pub reply_markup: Option<InlineKeyboardMarkup>,
    pub input_message_content: Option<InputMessageContent>,
}

/// #InlineQueryResultCachedVideo
/// Represents a link to a video file stored on the Telegram servers.
/// By default, this video file will be sent by the user with an optional caption.
/// Alternatively, you can use input_message_content to send a message with the specified content
/// instead of the video.
#[derive(Clone, Debug)]
pub struct InlineQueryResultCachedVideo {
    pub type_: String,
    pub id: String,
    pub video_file_id: String,
    pub title: String,
    pub description: Option<String>,
    pub caption: Option<String>,
    pub parse_mode: Option<String>,
    pub reply_markup: Option<InlineKeyboardMarkup>,
    pub input_message_content: Option<InputMessageContent>,
}

/// #InlineQueryResultCachedVoice
/// Represents a link to a voice message stored on the Telegram servers.
/// By default, this voice message will be sent by the user.
/// Alternatively, you can use input_message_content to send a message with the specified content
/// instead of the voice message.
#[derive(Clone, Debug)]
pub struct InlineQueryResultCachedVoice {
    pub type_: String,
    pub id: String,
    pub voice_file_id: String,
    pub title: String,
    pub caption: Option<String>,
    pub parse_mode: Option<String>,
    pub reply_markup: Option<InlineKeyboardMarkup>,
    pub input_message_content: Option<InputMessageContent>,
}

/// #InlineQueryResultCachedAudio
/// Represents a link to an mp3 audio file stored on the Telegram servers.
/// By default, this audio file will be sent by the user.
/// Alternatively, you can use input_message_content to send a message with the specified content
/// instead of the audio.
#[derive(Clone, Debug)]
pub struct InlineQueryResultCachedAudio {
    pub type_: String,
    pub id: String,
    pub audio_file_id: String,
    pub caption: Option<String>,
    pub parse_mode: Option<String>,
    pub reply_markup: Option<InlineKeyboardMarkup>,
    pub input_message_content: Option<InputMessageContent>,
}

/// #InputMessageContent
/// This object represents the content of a message to be sent as a result of an inline query.
/// Telegram clients currently support the following 4 types:
/// InputTextMessageContent
/// InputLocationMessageContent
/// InputVenueMessageContent
/// InputContactMessageContent
#[derive(Clone, Debug)]
pub enum InputMessageContent {
    /// see InputTextMessageContent
    Text(InputTextMessageContent),
    /// see InputLocationMessageContent
    Location(InputLocationMessageContent),
    /// see InputVenueMessageContent
    Venue(InputVenueMessageContent),
    /// see InputContactMessageContent
    Contact(InputContactMessageContent),
}

/// #InputTextMessageContent
/// Represents the content of a text message to be sent as the result of an inline query.
#[derive(Clone, Debug)]
pub struct InputTextMessageContent {
    pub message_text: String,
    pub parse_mode: Option<String>,
    pub disable_web_page_preview: Option<bool>,
}

/// #InputLocationMessageContent
/// Represents the content of a location message to be sent as the result of an inline query.
#[derive(Clone, Debug)]
pub struct InputLocationMessageContent {
    /// The bits of the IEEE 754 binary64 encoding of the number.
    pub latitude: u64,
    /// The bits of the IEEE 754 binary64 encoding of the number.
    pub longitude: u64,
    pub live_period: Option<u64>,
}

/// #InputVenueMessageContent
/// Represents the content of a venue message to be sent as the result of an inline query.
#[derive(Clone, Debug)]
pub struct InputVenueMessageContent {
    /// The bits of the IEEE 754 binary64 encoding of the number.
    pub latitude: u64,
    /// The bits of the IEEE 754 binary64 encoding of the number.
    pub longitude: u64,
    pub title: String,
    pub address: String,
    pub foursquare_id: Option<String>,
}

/// #InputContactMessageContent
/// Represents the content of a contact message to be sent as the result of an inline query.
#[derive(Clone, Debug)]
pub struct InputContactMessageContent {
    pub phone_number: String,
    pub first_name: String,
    pub last_name: Option<String>,
}

/// #ChosenInlineResult
/// Represents a result of an inline query that was chosen by the user and sent to their chat partner.
#[derive(Clone, Debug)]
pub struct ChosenInlineResult {
    pub result_id: String,
    pub from: User,
    pub location: Option<Location>,
    pub inline_message_id: Option<String>,
    pub query: String,
}

/// #LabeledPrice
/// This object represents a portion of the price for goods or services.
#[derive(Clone, Debug)]
pub struct LabeledPrice {
    pub label: String,
    pub amount: u64,
}

/// #Invoice
/// This object contains basic information about an invoice.
#[derive(Clone, Debug)]
pub struct Invoice {
    pub title: String,
    pub description: String,
    pub start_parameter: String,
    pub currency: String,
    pub total_amount: u64,
}

/// #ShippingAddress
/// This object represents a shipping address.
#[derive(Clone, Debug)]
pub struct ShippingAddress {
    pub country_code: String,
    pub state: String,
    pub city: String,
    pub street_line1: String,
    pub street_line2: String,
    pub post_code: String,
}

/// #OrderInfo
/// This object represents information about an order.
#[derive(Clone, Debug)]
pub struct OrderInfo {
    pub name: Option<String>,
    pub phone_number: Option<String>,
    pub email: Option<String>,
    pub shipping_address: Option<ShippingAddress>,
}

/// #ShippingOption
/// This object represents one shipping option.
#[derive(Clone, Debug)]
pub struct ShippingOption {
    pub id: String,
    pub title: String,
    pub prices: Vec<LabeledPrice>,
}

/// #SuccessfulPayment
/// This object contains basic information about a successful payment.
#[derive(Clone, Debug)]
pub struct SuccessfulPayment {
    pub currency: String,
    pub total_amount: u64,
    pub invoice_payload: String,
    pub shipping_option_id: Option<String>,
    pub order_info: Option<OrderInfo>,
    pub telegram_payment_charge_id: String,
    pub provider_payment_charge_id: String,
}

/// #ShippingQuery
/// This object contains information about an incoming shipping query.
#[derive(Clone, Debug)]
pub struct ShippingQuery {
    pub id: String,
    pub from: User,
    pub invoice_payload: String,
    pub shipping_address: ShippingAddress,
}

/// #PreCheckoutQuery
/// This object contains information about an incoming pre-checkout query.
#[derive(Clone, Debug)]
pub struct PreCheckoutQuery {
    pub id: String,
    pub from: User,
    pub currency: String,
    pub total_amount: u64,
    pub invoice_payload: String,
    pub shipping_option_id: Option<String>,
    pub order_info: Option<OrderInfo>,
}

/// #Game
/// This object represents a game. Use BotFather to create and edit games,
/// their short names will act as unique identifiers.
#[derive(Clone, Debug)]
pub struct Game {
    pub title: String,
    pub description: String,
    pub photo: Vec<PhotoSize>,
    pub text: Option<String>,
    pub text_entities: Option<Vec<MessageEntity>>,
    pub animation: Option<Animation>,
}

/// #Animation
/// You can provide an animation for your game so that it looks stylish in chats
/// (check out Lumberjack for an example).
/// This object represents an animation file to be displayed in the message containing a game.
#[derive(Clone, Debug)]
pub struct Animation {
    pub file_id: String,
    pub thumb: Option<PhotoSize>,
    pub file_name: Option<String>,
    pub mime_type: Option<String>,
    pub file_size: Option<u64>,
}

/// #CallbackGame
/// A placeholder, currently holds no information. Use BotFather to set up your game.
#[derive(Clone, Debug)]
pub struct CallbackGame {
}

/// #GameHighScore
/// This object represents one row of the high scores table for a game.
#[derive(Clone, Debug)]
pub struct GameHighScore {
    pub position: u64,
    pub user: User,
    pub score: u64,
}

/// #ParseMode
/// This object represents Telegram messages formatting options.
#[derive(Clone, Copy, Debug, PartialEq, Eq, Structural)]
pub enum ParseMode {
    /// Markdown style
    Markdown,
    /// HTML style
    HTML,
}

/// #ChatAction
/// This object represents types of action to broadcast.
/// Choose one, depending on what the user is about to receive:
#[derive(Clone, Copy, Debug, PartialEq, Eq, Structural)]
pub enum ChatAction {
    /// typing for text messages
    Typing,
    /// upload_photo for photos
    UploadPhoto,
    /// record_video for videos
    RecordVideo,
    /// upload_video for videos
    UploadVideo,
    /// record_audio for audio files
    RecordAudio,
    /// upload_audio for audio files
    UploadAudio,
    /// upload_document for general files
    UploadDocument,
    /// find_location for location data
    FindLocation,
    /// record_video_note for video notes
    RecordVideoNote,
    /// upload_video_note for video notes
    UploadVideoNote,
}

/// #ReplyMarkup
/// This object represents message markup, like keyboards.
#[derive(Clone, Debug)]
pub enum ReplyMarkup {
    /// see ForceReply
    ForceReply(ForceReply),
    /// see ReplyKeyboardMarkup
    ReplyKeyboard(ReplyKeyboardMarkup),
    /// see ReplyKeyboardRemove
    ReplyKeyboardRemove(ReplyKeyboardRemove),
    /// see InlineKeyboardMarkup
    InlineKeyboard(InlineKeyboardMarkup),
}

/// The type of a request: that of the first part it carries, in the order
/// message, edited message, inline query, chosen inline result, callback query.
pub open spec fn request_type(request: Request) -> Option<RequestType> {
    if request.message is Some {
        Some(RequestType::Message)
    } else if request.edited_message is Some {
        Some(RequestType::EditedMesage)
    } else if request.inline_query is Some {
        Some(RequestType::InlineQuery)
    } else if request.chosen_inline_result is Some {
        Some(RequestType::ChosenInlineResult)
    } else if request.callback_query is Some {
        Some(RequestType::CallbackQuery)
    } else {
        None
    }
}

impl Request {
    /// returns Request type
    pub fn get_type(&self) -> (r: Result<RequestType, String>)
        ensures
            match request_type(*self) {
                Some(t) => r == Ok::<RequestType, String>(t),
                None => r matches Err(message) && message@ == "Unrecognized request type"@,
            },
    {
        if !self.message.is_none() {
            return Ok(RequestType::Message);
        }
        if !self.edited_message.is_none() {
            return Ok(RequestType::EditedMesage);
        }
        if !self.inline_query.is_none() {
            return Ok(RequestType::InlineQuery);
        }
        if !self.chosen_inline_result.is_none() {
            return Ok(RequestType::ChosenInlineResult);
        }
        if !self.callback_query.is_none() {
            return Ok(RequestType::CallbackQuery);
        }
        Err("Unrecognized request type".to_owned())
    }

    /// returns update_id value
    pub fn get_update_id(&self) -> (r: &Option<u64>)
        ensures
            *r == self.update_id,
    {
        &self.update_id
    }

    /// returns message
    pub fn get_message(&self) -> (r: &Option<Box<Message>>)
        ensures
            *r == self.message,
    {
        &self.message
    }

    /// returns edited_message
    pub fn get_edited_message(&self) -> (r: &Option<Box<Message>>)
        ensures
            *r == self.edited_message,
    {
        &self.edited_message
    }

    /// returns inline_query
    pub fn get_inline_query(&self) -> (r: &Option<InlineQuery>)
        ensures
            *r == self.inline_query,
    {
        &self.inline_query
    }

    /// returns chosen_inline_result
    pub fn get_chosen_inline_result(&self) -> (r: &Option<ChosenInlineResult>)
        ensures
            *r == self.chosen_inline_result,
    {
        &self.chosen_inline_result
    }

    /// returns callback_query
    pub fn get_callback_query(&self) -> (r: &Option<CallbackQuery>)
        ensures
            *r == self.callback_query,
    {
        &self.callback_query
    }
}

impl User {
    /// returns id
    pub fn get_id(&self) -> (r: i64)
        ensures
            r == self.id,
    {
        self.id
    }
}

impl Chat {
    /// returns id
    pub fn get_id(&self) -> (r: i64)
        ensures
            r == self.id,
    {
        self.id
    }
}

impl Message {
    /// returns id
    pub fn get_id(&self) -> (r: u64)
        ensures
            r == self.message_id,
    {
        self.message_id
    }

    /// returns from
    pub fn get_from(&self) -> (r: &User)
        ensures
            *r == self.from,
    {
        &self.from
    }

    /// returns chat
    pub fn get_chat(&self) -> (r: &Chat)
        ensures
            *r == self.chat,
    {
        &self.chat
    }

    /// returns text
    pub fn get_text(&self) -> (r: &Option<String>)
        ensures
            *r == self.text,
    {
        &self.text
    }

    /// returns location
    pub fn get_location(&self) -> (r: &Option<Location>)
        ensures
            *r == self.location,
    {
        &self.location
    }
}

impl Location {
    /// returns longitude
    pub fn get_longitude(&self) -> (r: &str)
        ensures
            r@ == self.longitude@,
    {
        self.longitude.as_str()
    }

    /// returns latitude
    pub fn get_latitude(&self) -> (r: &str)
        ensures
            r@ == self.latitude@,
    {
        self.latitude.as_str()
    }
}

impl ParseMode {
    /// The name of the mode, as the API spells it.
    pub open spec fn name(self) -> Seq<char> {
        match self {
            ParseMode::Markdown => "Markdown"@,
            ParseMode::HTML => "HTML"@,
        }
    }

    /// The name of the mode, as the API spells it.
    pub fn to_string(&self) -> (r: String)
        ensures
            r@ == self.name(),
    {
        match *self {
            ParseMode::Markdown => "Markdown".to_owned(),
            ParseMode::HTML => "HTML".to_owned(),
        }
    }

    /// The mode that `value` names.
    pub fn from_name(value: &str) -> (r: Result<ParseMode, String>)
        ensures
            match r {
                Ok(mode) => value@ == mode.name(),
                Err(message) => message@ == "unknown ParseMode value: "@ + value@
                    && forall|mode: ParseMode| value@ != mode.name(),
            },
    {
        let given: String = value.to_owned();
        if given == "Markdown".to_owned() {
            Ok(ParseMode::Markdown)
        } else if given == "HTML".to_owned() {
            Ok(ParseMode::HTML)
        } else {
            Err("unknown ParseMode value: ".to_owned().concat(value))
        }
    }
}

/// The names of the two modes differ, so a name gives its mode back.
pub proof fn law_parse_mode_names_differ(a: ParseMode, b: ParseMode)
    ensures
        a.name() == b.name() ==> a == b,
{
    reveal_strlit("Markdown");
    reveal_strlit("HTML");
    assert("Markdown"@.len() == 8);
    assert("HTML"@.len() == 4);
}

impl ChatAction {
    /// The name of the action, as the API spells it.
    pub open spec fn name(self) -> Seq<char> {
        match self {
            ChatAction::Typing => "typing"@,
            ChatAction::UploadPhoto => "upload_photo"@,
            ChatAction::RecordVideo => "record_video"@,
            ChatAction::UploadVideo => "upload_video"@,
            ChatAction::RecordAudio => "record_audio"@,
            ChatAction::UploadAudio => "upload_audio"@,
            ChatAction::UploadDocument => "upload_document"@,
            ChatAction::FindLocation => "find_location"@,
            ChatAction::RecordVideoNote => "record_video_note"@,
            ChatAction::UploadVideoNote => "upload_video_note"@,
        }
    }

    /// The name of the action, as the API spells it.
    pub fn to_string(&self) -> (r: String)
        ensures
            r@ == self.name(),
    {
        (match *self {
            ChatAction::Typing => "typing",
            ChatAction::UploadPhoto => "upload_photo",
            ChatAction::RecordVideo => "record_video",
            ChatAction::UploadVideo => "upload_video",
            ChatAction::RecordAudio => "record_audio",
            ChatAction::UploadAudio => "upload_audio",
            ChatAction::UploadDocument => "upload_document",
            ChatAction::FindLocation => "find_location",
            ChatAction::RecordVideoNote => "record_video_note",
            ChatAction::UploadVideoNote => "upload_video_note",
        }).to_owned()
    }

    /// The action that `value` names.
    pub fn from_name(value: &str) -> (r: Result<ChatAction, String>)
        ensures
            match r {
                Ok(action) => value@ == action.name(),
                Err(message) => message@ == "unknown ChatAction value: "@ + value@
                    && forall|action: ChatAction| value@ != action.name(),
            },
    {
        let given: String = value.to_owned();
        if given == "typing".to_owned() {
            Ok(ChatAction::Typing)
        } else if given == "upload_photo".to_owned() {
            Ok(ChatAction::UploadPhoto)
        } else if given == "record_video".to_owned() {
            Ok(ChatAction::RecordVideo)
        } else if given == "upload_video".to_owned() {
            Ok(ChatAction::UploadVideo)
        } else if given == "record_audio".to_owned() {
            Ok(ChatAction::RecordAudio)
        } else if given == "upload_audio".to_owned() {
            Ok(ChatAction::UploadAudio)
        } else if given == "upload_document".to_owned() {
            Ok(ChatAction::UploadDocument)
        } else if given == "find_location".to_owned() {
            Ok(ChatAction::FindLocation)
        } else if given == "record_video_note".to_owned() {
            Ok(ChatAction::RecordVideoNote)
        } else if given == "upload_video_note".to_owned() {
            Ok(ChatAction::UploadVideoNote)
        } else {
            Err("unknown ChatAction value: ".to_owned().concat(value))
        }
    }
}

/// The names of the actions differ one from another, so a name gives its
/// action back.
pub proof fn law_chat_action_names_differ(a: ChatAction, b: ChatAction)
    ensures
        a.name() == b.name() ==> a == b,
{
    reveal_strlit("typing");
    reveal_strlit("upload_photo");
    reveal_strlit("record_video");
    reveal_strlit("upload_video");
    reveal_strlit("record_audio");
    reveal_strlit("upload_audio");
    reveal_strlit("upload_document");
    reveal_strlit("find_location");
    reveal_strlit("record_video_note");
    reveal_strlit("upload_video_note");
    assert("typing"@.len() == 6);
    assert("upload_document"@.len() == 15);
    assert("find_location"@.len() == 13);
    assert("upload_photo"@.len() == 12 && "upload_photo"@[0] == 'u' && "upload_photo"@[7] == 'p');
    assert("record_video"@.len() == 12 && "record_video"@[0] == 'r' && "record_video"@[7] == 'v');
    assert("upload_video"@.len() == 12 && "upload_video"@[0] == 'u' && "upload_video"@[7] == 'v');
    assert("record_audio"@.len() == 12 && "record_audio"@[0] == 'r' && "record_audio"@[7] == 'a');
    assert("upload_audio"@.len() == 12 && "upload_audio"@[0] == 'u' && "upload_audio"@[7] == 'a');
    assert("record_video_note"@.len() == 17 && "record_video_note"@[0] == 'r');
    assert("upload_video_note"@.len() == 17 && "upload_video_note"@[0] == 'u');
}

impl ReplyMarkup {
    /// helper to create a ReplyMarkup::ForceReply
    pub fn force_reply(force_reply: bool, selective: Option<bool>) -> (r: ReplyMarkup)
        ensures
            r == ReplyMarkup::ForceReply(ForceReply { force_reply, selective }),
    {
        ReplyMarkup::ForceReply(ForceReply { force_reply: force_reply, selective: selective })
    }

    /// helper to create a ReplyMarkup::ReplyKeyboard
    pub fn reply_keyboard(
        keyboard: Vec<Vec<KeyboardButton>>,
        resize_keyboard: Option<bool>,
        one_time_keyboard: Option<bool>,
        selective: Option<bool>,
    ) -> (r: ReplyMarkup)
        ensures
            r == ReplyMarkup::ReplyKeyboard(
                ReplyKeyboardMarkup { keyboard, resize_keyboard, one_time_keyboard, selective },
            ),
    {
        ReplyMarkup::ReplyKeyboard(
            ReplyKeyboardMarkup {
                keyboard: keyboard,
                resize_keyboard: resize_keyboard,
                one_time_keyboard: one_time_keyboard,
                selective: selective,
            },
        )
    }

    /// helper to create a ReplyMarkup::ReplyKeyboardRemove
    pub fn reply_keyboard_remove(remove_keyboard: bool, selective: Option<bool>) -> (r: ReplyMarkup)
        ensures
            r == ReplyMarkup::ReplyKeyboardRemove(
                ReplyKeyboardRemove { remove_keyboard, selective },
            ),
    {
        ReplyMarkup::ReplyKeyboardRemove(
            ReplyKeyboardRemove { remove_keyboard: remove_keyboard, selective: selective },
        )
    }

    /// helper to create a ReplyMarkup::InlineKeyboard
    pub fn inline_keyboard(inline_keyboard: Vec<Vec<InlineKeyboardButton>>) -> (r: ReplyMarkup)
        ensures
            r == ReplyMarkup::InlineKeyboard(InlineKeyboardMarkup { inline_keyboard }),
    {
        ReplyMarkup::InlineKeyboard(InlineKeyboardMarkup { inline_keyboard: inline_keyboard })
    }
}

} // verus!
