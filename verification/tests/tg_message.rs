use std::collections::hash_map::DefaultHasher;
use std::hash::{Hash, Hasher};

use qrt_rust_utils::tg_message::{TgMessage, TgMsgFormat};

fn text_hash(text: &str) -> u64 {
    let mut hasher = DefaultHasher::new();
    text.to_string().hash(&mut hasher);
    hasher.finish()
}

#[test]
fn build_text_is_plain_and_notifies() {
    let msg = TgMessage::build_text("test".to_string());
    assert_eq!(msg.text, "test");
    assert_eq!(msg.format, TgMsgFormat::PlainText);
    assert!(msg.show_notification);
}

#[test]
fn hash_is_the_hash_of_the_text() {
    let msg = TgMessage::build_text("hello".to_string());
    assert_eq!(msg.gen_hash(), text_hash("hello"));
    let other = TgMessage { text: "hello".to_string(), format: TgMsgFormat::HTML, show_notification: false };
    assert_eq!(other.gen_hash(), msg.gen_hash());
    assert_ne!(TgMessage::build_text("hello!".to_string()).gen_hash(), msg.gen_hash());
}

#[test]
fn task_key_is_the_hash_in_decimal() {
    let msg = TgMessage::build_text("key me".to_string());
    assert_eq!(msg.task_key(), msg.gen_hash().to_string());
}
