//! The transport-facing data model: the shapes of incoming updates and
//! the endpoint URLs the chat API is reached at. All actual network work
//! lives outside the library.

use vstd::prelude::*;

verus! {

pub struct File {
    pub file_id: String,
}

pub struct User {
    pub id: i64,
}

pub struct Chat {
    pub id: i64,
    pub chat_type: Option<String>,
}

pub struct Entity {
    pub offset: i32,
    pub length: i32,
    pub entity_type: String,
}

/// One incoming chat message, as the transport delivers it.
pub struct ChatMessage {
    pub chat: Option<Chat>,
    pub from: Option<User>,
    pub text: Option<String>,
    pub video: Option<Vec<File>>,
    pub document: Option<Vec<File>>,
    pub photo: Option<Vec<File>>,
    pub entities: Option<Vec<Entity>>,
    pub voice: Option<File>,
}

/// A button press relayed back with its originating message.
pub struct CallbackQuery {
    pub id: String,
    pub from: User,
    pub message: ChatMessage,
    pub data: String,
}

/// One incoming update: a message, or a button press.
pub struct Update {
    pub update_id: i64,
    pub message: Option<ChatMessage>,
    pub callback_query: Option<CallbackQuery>,
}

/// The fixed endpoint layout of the chat API: a base, the credential
/// token, then the method name.
pub struct Values {
    base_url: String,
}

pub open spec fn values_url(base: Seq<char>, token: Seq<char>, method: Seq<char>) -> Seq<char> {
    base + token + "/"@ + method
}

impl Values {
    pub closed spec fn base(&self) -> Seq<char> {
        self.base_url@
    }

    pub fn new() -> (r: Values)
        ensures
            r.base() == "https://api.telegram.org/bot"@,
    {
        Values { base_url: "https://api.telegram.org/bot".to_owned() }
    }

    pub fn get_url_send(&self, token: &String) -> (r: String)
        ensures
            r@ == values_url(self.base(), token@, "sendMessage"@),
    {
        let mut result = self.base_url.clone();
        result.append(token.as_str());
        result.append("/");
        result.append("sendMessage");
        result
    }

    pub fn get_url_updates(&self, token: &String) -> (r: String)
        ensures
            r@ == values_url(self.base(), token@, "getUpdates"@),
    {
        let mut result = self.base_url.clone();
        result.append(token.as_str());
        result.append("/");
        result.append("getUpdates");
        result
    }

    pub fn get_url_chat(&self, token: &String) -> (r: String)
        ensures
            r@ == values_url(self.base(), token@, "getChat"@),
    {
        let mut result = self.base_url.clone();
        result.append(token.as_str());
        result.append("/");
        result.append("getChat");
        result
    }

    pub fn get_url_photo(&self, token: &String) -> (r: String)
        ensures
            r@ == values_url(self.base(), token@, "sendPhoto"@),
    {
        let mut result = self.base_url.clone();
        result.append(token.as_str());
        result.append("/");
        result.append("sendPhoto");
        result
    }

    pub fn get_url_video(&self, token: &String) -> (r: String)
        ensures
            r@ == values_url(self.base(), token@, "sendVideo"@),
    {
        let mut result = self.base_url.clone();
        result.append(token.as_str());
        result.append("/");
        result.append("sendVideo");
        result
    }

    pub fn get_url_document(&self, token: &String) -> (r: String)
        ensures
            r@ == values_url(self.base(), token@, "sendDocument"@),
    {
        let mut result = self.base_url.clone();
        result.append(token.as_str());
        result.append("/");
        result.append("sendDocument");
        result
    }

    pub fn get_url_audio(&self, token: &String) -> (r: String)
        ensures
            r@ == values_url(self.base(), token@, "sendAudio"@),
    {
        let mut result = self.base_url.clone();
        result.append(token.as_str());
        result.append("/");
        result.append("sendAudio");
        result
    }

    pub fn get_url_voice(&self, token: &String) -> (r: String)
        ensures
            r@ == values_url(self.base(), token@, "sendVoice"@),
    {
        let mut result = self.base_url.clone();
        result.append(token.as_str());
        result.append("/");
        result.append("sendVoice");
        result
    }
}

/// Reads the pressed button's label and the originating chat out of a
/// button-press update.
pub fn get_string_from_query(query: CallbackQuery) -> (r: (String, i64))
    requires
        query.message.chat is Some,
    ensures
        r.0@ == query.data@,
        r.1 == query.message.chat->0.id,
{
    let chat_id = match query.message.chat {
        Some(c) => c.id,
        None => vstd::pervasive::unreached(),
    };
    (query.data, chat_id)
}

} // verus!
