//! The content of a greeting, its kinds and the rules on what it may hold.
use vstd::prelude::*;
use vstd::string::StringExecFns;

use crate::text::{
    byte_len, contains, has_infix, has_prefix, is_blank, is_blank_str, lower_of, starts_with,
    to_lowercase,
};

verus! {

/// The kind of a message: "text", "gif" or "voice".
pub type MessageType = String;

/// What a greeting carries: its kind and its payload (words, or a link to a
/// GIF or a voice clip).
#[derive(Clone, Debug, PartialEq, Eq)]
pub struct MessageContent {
    pub message_type: MessageType,
    pub content: String,
}

/// Whether `t` names one of the three kinds of message.
pub open spec fn valid_type(t: Seq<char>) -> bool {
    t == "text"@ || t == "gif"@ || t == "voice"@
}

/// Whether the lowercase text `s` mentions one of the words that are not allowed.
pub open spec fn mentions_sensitive_word(s: Seq<char>) -> bool {
    has_infix(s, "spam"@) || has_infix(s, "abuse"@) || has_infix(s, "hate"@) || has_infix(
        s,
        "violence"@,
    ) || has_infix(s, "illegal"@) || has_infix(s, "scam"@) || has_infix(s, "fraud"@)
}

/// Whether a text message may be recorded: empty, or at most 280 bytes with
/// no markup that runs code and no word that is not allowed.
pub open spec fn text_allowed(body: Seq<char>) -> bool {
    body.len() == 0 || (byte_len(body) <= 280 && !has_infix(body, "<script"@) && !has_infix(
        body,
        "</script>"@,
    ) && !has_infix(body, "<iframe"@) && !has_infix(body, "javascript:"@)
        && !mentions_sensitive_word(lower_of(body)))
}

/// Whether a GIF or voice message may be recorded: a link of at most 500 bytes
/// over HTTP or HTTPS that holds no markup that runs code.
pub open spec fn link_allowed(body: Seq<char>) -> bool {
    byte_len(body) <= 500 && (has_prefix(body, "http://"@) || has_prefix(body, "https://"@))
        && !has_infix(body, "<script"@) && !has_infix(body, "javascript:"@)
}

/// Whether a message may be recorded.
pub open spec fn content_allowed(c: MessageContent) -> bool {
    if !valid_type(c.message_type@) {
        false
    } else if c.message_type@ == "text"@ {
        text_allowed(c.content@)
    } else {
        link_allowed(c.content@)
    }
}

/// The text shown for a text message with a blank payload.
pub open spec fn default_greeting() -> Seq<char> {
    "GMicrochains"@
}

/// Whether `shown` is how `c` is displayed: a text message whose payload is
/// blank shows the default greeting; any other message is shown as it is.
pub open spec fn displays(c: MessageContent, shown: MessageContent) -> bool {
    if c.message_type@ == "text"@ && is_blank(c.content@) {
        shown.message_type@ == "text"@ && shown.content@ == default_greeting()
    } else {
        shown == c
    }
}

impl MessageContent {
    pub fn is_text(&self) -> (r: bool)
        ensures
            r == (self.message_type@ == "text"@),
    {
        self.message_type == "text".to_owned()
    }

    pub fn is_gif(&self) -> (r: bool)
        ensures
            r == (self.message_type@ == "gif"@),
    {
        self.message_type == "gif".to_owned()
    }

    pub fn is_voice(&self) -> (r: bool)
        ensures
            r == (self.message_type@ == "voice"@),
    {
        self.message_type == "voice".to_owned()
    }

    pub fn is_valid_message_type(&self) -> (r: bool)
        ensures
            r == valid_type(self.message_type@),
    {
        is_valid_message_type(self.message_type.as_str())
    }

    /// A copy of this content.
    pub fn duplicate(&self) -> (r: MessageContent)
        ensures
            r == *self,
    {
        MessageContent { message_type: self.message_type.clone(), content: self.content.clone() }
    }
}

pub fn is_valid_message_type(message_type: &str) -> (r: bool)
    ensures
        r == valid_type(message_type@),
{
    let s = message_type.to_owned();
    s == "text".to_owned() || s == "gif".to_owned() || s == "voice".to_owned()
}

fn mentions_sensitive_word_in(lower: &str) -> (r: bool)
    ensures
        r == mentions_sensitive_word(lower@),
{
    contains(lower, "spam") || contains(lower, "abuse") || contains(lower, "hate") || contains(
        lower,
        "violence",
    ) || contains(lower, "illegal") || contains(lower, "scam") || contains(lower, "fraud")
}

/// Whether a message may be recorded, by its kind and its payload.
pub fn is_message_content_valid(content: &MessageContent) -> (r: bool)
    ensures
        r == content_allowed(*content),
{
    if !content.is_valid_message_type() {
        return false;
    }
    let body = content.content.as_str();
    if content.is_text() {
        if body.is_empty() {
            return true;
        }
        if body.as_bytes().len() > 280 {
            return false;
        }
        if contains(body, "<script") || contains(body, "</script>") || contains(body, "<iframe")
            || contains(body, "javascript:") {
            return false;
        }
        let lower = to_lowercase(body);
        !mentions_sensitive_word_in(lower.as_str())
    } else {
        if body.as_bytes().len() > 500 {
            return false;
        }
        if !starts_with(body, "http://") && !starts_with(body, "https://") {
            return false;
        }
        !(contains(body, "<script") || contains(body, "javascript:"))
    }
}

/// The content as it is shown: a text message whose payload is blank shows the
/// default greeting; any other message is shown as it is.
pub fn shown_content(content: MessageContent) -> (r: MessageContent)
    ensures
        displays(content, r),
{
    if content.is_text() && is_blank_str(content.content.as_str()) {
        MessageContent { message_type: "text".to_owned(), content: "GMicrochains".to_owned() }
    } else {
        content
    }
}

/// How a message's content reads in the text that a client signs: a GIF or
/// voice link carries its kind in front, a text message stands as it is.
pub fn signature_content(content: &MessageContent) -> (r: String)
    ensures
        r@ == if content.message_type@ == "gif"@ {
            "GIF: "@ + content.content@
        } else if content.message_type@ == "voice"@ {
            "Voice: "@ + content.content@
        } else {
            content.content@
        },
{
    if content.is_gif() {
        "GIF: ".to_owned().concat(content.content.as_str())
    } else if content.is_voice() {
        "Voice: ".to_owned().concat(content.content.as_str())
    } else {
        content.content.clone()
    }
}

} // verus!
