//! Telegram notification messages.
use vstd::prelude::*;
use std::collections::hash_map::DefaultHasher;
use std::hash::{Hash, Hasher};
use vstd::std_specs::hash::DefaultHasherAdditionalSpecFns;
use crate::decimal::{decimal_text, u64_to_decimal};

verus! {

/// How Telegram renders the text; unknown format names read as `PlainText`.
#[derive(Clone, Debug, PartialOrd, PartialEq)]
pub enum TgMsgFormat {
    MarkdownV2,
    HTML,
    Markdown,
    PlainText,
}

/// A message to send to Telegram.
#[derive(Clone, Debug, PartialOrd, PartialEq)]
pub struct TgMessage {
    pub text: String,
    pub format: TgMsgFormat,
    pub show_notification: bool,
}

/// The byte strings that `Hash::hash` of a `String` with these characters
/// writes into a hasher.
pub uninterp spec fn text_hash_writes(text: Seq<char>) -> Seq<Seq<u8>>;

/// Calls `<String as Hash>::hash(text, state)`. Claims: the writes it makes
/// are those named by `text_hash_writes`, appended after the earlier ones.
#[verifier::external_body]
fn hash_text(text: &String, state: &mut DefaultHasher)
    ensures
        final(state)@ == old(state)@ + text_hash_writes(text@),
{
    text.hash(state)
}

/// The hash of a message: its text hashed alone by a fresh `DefaultHasher`.
pub open spec fn message_hash(text: Seq<char>) -> u64 {
    DefaultHasher::spec_finish(text_hash_writes(text))
}

impl TgMessage {
    /// A hash of the message text (format and notification flag do not count).
    pub fn gen_hash(&self) -> (r: u64)
        ensures
            r == message_hash(self.text@),
    {
        let mut hasher = DefaultHasher::new();
        hash_text(&self.text, &mut hasher);
        assert(hasher@ =~= text_hash_writes(self.text@));
        hasher.finish()
    }

    /// The key under which the message is queued for sending: its hash in
    /// decimal, so that a message with the same text is queued only once.
    pub fn task_key(&self) -> (r: String)
        ensures
            r@ == decimal_text(message_hash(self.text@) as nat),
    {
        u64_to_decimal(self.gen_hash())
    }

    /// A plain-text message that notifies the reader.
    pub fn build_text(text: String) -> (r: Self)
        ensures
            r.text == text,
            r.format == TgMsgFormat::PlainText,
            r.show_notification,
    {
        TgMessage { text, format: TgMsgFormat::PlainText, show_notification: true }
    }
}

/// Two messages with the same text hash alike, whatever their format or
/// notification flag, and so are queued under the same key.
pub proof fn lemma_hash_depends_on_text_only(a: TgMessage, b: TgMessage)
    requires
        a.text@ == b.text@,
    ensures
        message_hash(a.text@) == message_hash(b.text@),
        decimal_text(message_hash(a.text@) as nat) == decimal_text(message_hash(b.text@) as nat),
{
}

} // verus!
