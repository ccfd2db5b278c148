use gm::message::{shown_content, signature_content};
use gm::operation::{generate_ai_response, AI_GUIDE};
use gm::{is_message_content_valid, is_valid_message_type, MessageContent};

fn content(kind: &str, body: &str) -> MessageContent {
    MessageContent { message_type: kind.to_string(), content: body.to_string() }
}

#[test]
fn message_kinds() {
    assert!(content("text", "x").is_text());
    assert!(!content("text", "x").is_gif());
    assert!(content("gif", "x").is_gif());
    assert!(content("voice", "x").is_voice());
    assert!(!content("video", "x").is_valid_message_type());
    assert!(content("voice", "x").is_valid_message_type());
    assert!(is_valid_message_type("text"));
    assert!(is_valid_message_type("gif"));
    assert!(!is_valid_message_type("Text"));
    assert!(!is_valid_message_type(""));
}

#[test]
fn text_content_rules() {
    assert!(is_message_content_valid(&content("text", "")));
    assert!(is_message_content_valid(&content("text", "good morning")));
    assert!(is_message_content_valid(&content("text", &"a".repeat(280))));
    assert!(!is_message_content_valid(&content("text", &"a".repeat(281))));
    assert!(!is_message_content_valid(&content("text", "<script>alert(1)")));
    assert!(!is_message_content_valid(&content("text", "x</script>")));
    assert!(!is_message_content_valid(&content("text", "an <iframe src=a>")));
    assert!(!is_message_content_valid(&content("text", "javascript:void(0)")));
    assert!(!is_message_content_valid(&content("text", "no hate here")));
}

#[test]
fn sensitive_words_match_any_case() {
    assert!(!is_message_content_valid(&content("text", "This is SPAM")));
    assert!(!is_message_content_valid(&content("text", "Fraud alert")));
    assert!(is_message_content_valid(&content("text", "Sp am")));
}

#[test]
fn link_content_rules() {
    assert!(is_message_content_valid(&content("gif", "https://cdn.example/a.gif")));
    assert!(is_message_content_valid(&content("voice", "http://cdn.example/a.ogg")));
    assert!(!is_message_content_valid(&content("gif", "ftp://cdn.example/a.gif")));
    assert!(!is_message_content_valid(&content("gif", "")));
    assert!(!is_message_content_valid(&content("voice", "https://a/<script")));
    let long = format!("https://{}", "a".repeat(493));
    assert!(!is_message_content_valid(&content("gif", &long)));
    let fits = format!("https://{}", "a".repeat(492));
    assert!(is_message_content_valid(&content("gif", &fits)));
    assert!(!is_message_content_valid(&content("video", "https://a")));
}

#[test]
fn blank_text_shows_default_greeting() {
    assert_eq!(shown_content(content("text", "  \n\t")), content("text", "GMicrochains"));
    assert_eq!(shown_content(content("text", "")), content("text", "GMicrochains"));
    assert_eq!(shown_content(content("text", " hi ")), content("text", " hi "));
    assert_eq!(shown_content(content("gif", " ")), content("gif", " "));
}

#[test]
fn ai_response_is_cut_to_length() {
    let full = generate_ai_response("hello", 10_000);
    assert_eq!(full, AI_GUIDE);
    let short = generate_ai_response("hello", 5);
    assert_eq!(short, AI_GUIDE.chars().take(5).collect::<String>());
    assert_eq!(short.chars().count(), 5);
    assert_eq!(generate_ai_response("", 0), "");
    let default = generate_ai_response("", 200);
    assert_eq!(default, AI_GUIDE.chars().take(200).collect::<String>());
}

#[test]
fn signature_content_labels_links() {
    assert_eq!(signature_content(&content("gif", "https://a")), "GIF: https://a");
    assert_eq!(signature_content(&content("voice", "https://b")), "Voice: https://b");
    assert_eq!(signature_content(&content("text", "hi")), "hi");
}
