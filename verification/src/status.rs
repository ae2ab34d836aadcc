//! The delivery status of a message.

use vstd::prelude::*;
use vstd::string::*;

verus! {

/// Where a message stands on its way to the recipient.
#[derive(Debug, Clone, PartialEq, Eq, Structural)]
pub enum MessageStatus {
    /// Waiting to be sent.
    Queued,
    /// Being sent.
    Sending,
    /// Handed to the carrier.
    Sent,
    /// Arrived at the recipient.
    Delivered,
    /// Could not be sent.
    Failed,
    /// Sent, but not delivered.
    Undelivered,
    /// Anything else the server may say.
    Unknown,
}

/// A character with the ASCII capitals turned into small letters.
pub open spec fn lower(c: char) -> char {
    if 'A' <= c && c <= 'Z' {
        ((c as u8) + 32) as char
    } else {
        c
    }
}

/// A text with its ASCII capitals turned into small letters.
pub open spec fn lowered(text: Seq<char>) -> Seq<char> {
    Seq::new(text.len(), |at: int| lower(text[at]))
}

/// The status that a text of the server stands for: the one whose name it
/// is, whatever the case of its letters, and `Unknown` for any other text.
pub open spec fn status_of(text: Seq<char>) -> MessageStatus {
    let small = lowered(text);
    if small == "queued"@ {
        MessageStatus::Queued
    } else if small == "sending"@ {
        MessageStatus::Sending
    } else if small == "sent"@ {
        MessageStatus::Sent
    } else if small == "delivered"@ {
        MessageStatus::Delivered
    } else if small == "failed"@ {
        MessageStatus::Failed
    } else if small == "undelivered"@ {
        MessageStatus::Undelivered
    } else {
        MessageStatus::Unknown
    }
}

impl MessageStatus {
    /// The name of the status, in small letters.
    pub open spec fn name(self) -> Seq<char> {
        match self {
            MessageStatus::Queued => "queued"@,
            MessageStatus::Sending => "sending"@,
            MessageStatus::Sent => "sent"@,
            MessageStatus::Delivered => "delivered"@,
            MessageStatus::Failed => "failed"@,
            MessageStatus::Undelivered => "undelivered"@,
            MessageStatus::Unknown => "unknown"@,
        }
    }

    /// The name of the status, in small letters.
    pub fn to_string(&self) -> (text: String)
        ensures
            text@ == self.name(),
    {
        match self {
            MessageStatus::Queued => String::from_str("queued"),
            MessageStatus::Sending => String::from_str("sending"),
            MessageStatus::Sent => String::from_str("sent"),
            MessageStatus::Delivered => String::from_str("delivered"),
            MessageStatus::Failed => String::from_str("failed"),
            MessageStatus::Undelivered => String::from_str("undelivered"),
            MessageStatus::Unknown => String::from_str("unknown"),
        }
    }
}

/// A character with the ASCII capitals turned into small letters.
fn lower_char(c: char) -> (small: char)
    ensures
        small == lower(c),
{
    if 'A' <= c && c <= 'Z' {
        ((c as u8) + 32) as char
    } else {
        c
    }
}

/// Whether a text, with its ASCII capitals turned into small letters, is `word`.
fn lowered_is(text: &str, word: &str) -> (yes: bool)
    ensures
        yes == (lowered(text@) == word@),
{
    let len = word.unicode_len();
    if text.unicode_len() != len {
        return false;
    }
    let mut at: usize = 0;
    while at < len
        invariant
            at <= len,
            len == word@.len(),
            len == text@.len(),
            forall|before: int| 0 <= before < at ==> lower(text@[before]) == word@[before],
        decreases len - at,
    {
        if lower_char(text.get_char(at)) != word.get_char(at) {
            return false;
        }
        at = at + 1;
    }
    assert(lowered(text@) =~= word@);
    true
}

impl<'a> From<&'a str> for MessageStatus {
    /// Reads a status as the server writes it. Never fails: a text that names
    /// no status is `Unknown`.
    fn from(status: &'a str) -> (r: MessageStatus) {
        if lowered_is(status, "queued") {
            MessageStatus::Queued
        } else if lowered_is(status, "sending") {
            MessageStatus::Sending
        } else if lowered_is(status, "sent") {
            MessageStatus::Sent
        } else if lowered_is(status, "delivered") {
            MessageStatus::Delivered
        } else if lowered_is(status, "failed") {
            MessageStatus::Failed
        } else if lowered_is(status, "undelivered") {
            MessageStatus::Undelivered
        } else {
            MessageStatus::Unknown
        }
    }
}

impl<'a> vstd::std_specs::convert::FromSpecImpl<&'a str> for MessageStatus {
    open spec fn obeys_from_spec() -> bool {
        true
    }

    open spec fn from_spec(status: &'a str) -> MessageStatus {
        status_of(status@)
    }
}

/// What the names of the statuses hold.
proof fn lemma_names()
    ensures
        "queued"@ =~= seq!['q', 'u', 'e', 'u', 'e', 'd'],
        "sending"@ =~= seq!['s', 'e', 'n', 'd', 'i', 'n', 'g'],
        "sent"@ =~= seq!['s', 'e', 'n', 't'],
        "delivered"@ =~= seq!['d', 'e', 'l', 'i', 'v', 'e', 'r', 'e', 'd'],
        "failed"@ =~= seq!['f', 'a', 'i', 'l', 'e', 'd'],
        "undelivered"@ =~= seq!['u', 'n', 'd', 'e', 'l', 'i', 'v', 'e', 'r', 'e', 'd'],
        "unknown"@ =~= seq!['u', 'n', 'k', 'n', 'o', 'w', 'n'],
{
    reveal_strlit("queued");
    reveal_strlit("sending");
    reveal_strlit("sent");
    reveal_strlit("delivered");
    reveal_strlit("failed");
    reveal_strlit("undelivered");
    reveal_strlit("unknown");
}

/// A text stands for one of the six known statuses exactly when it is that
/// status's name in small or capital letters, or any mix of them, and for
/// `Unknown` exactly when it is none of the six names.
pub proof fn law_status_by_name(text: Seq<char>)
    ensures
        status_of(text) == MessageStatus::Queued <==> lowered(text) == "queued"@,
        status_of(text) == MessageStatus::Sending <==> lowered(text) == "sending"@,
        status_of(text) == MessageStatus::Sent <==> lowered(text) == "sent"@,
        status_of(text) == MessageStatus::Delivered <==> lowered(text) == "delivered"@,
        status_of(text) == MessageStatus::Failed <==> lowered(text) == "failed"@,
        status_of(text) == MessageStatus::Undelivered <==> lowered(text) == "undelivered"@,
        status_of(text) == MessageStatus::Unknown <==> !(lowered(text) == "queued"@ || lowered(text)
            == "sending"@ || lowered(text) == "sent"@ || lowered(text) == "delivered"@ || lowered(
            text,
        ) == "failed"@ || lowered(text) == "undelivered"@),
{
    lemma_names();
}

/// Two texts that differ only in the case of their ASCII letters stand for
/// the same status.
pub proof fn law_status_ignores_case(text: Seq<char>, other: Seq<char>)
    requires
        lowered(text) == lowered(other),
    ensures
        status_of(text) == status_of(other),
{
}

/// The name of a status stands for that status.
pub proof fn law_name_is_read_back(status: MessageStatus)
    ensures
        status_of(status.name()) == status,
{
    lemma_names();
    let name = status.name();
    assert(lowered(name) =~= name);
    law_status_by_name(name);
}

} // verus!
