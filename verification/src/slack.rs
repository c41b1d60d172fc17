use vstd::prelude::*;
use vstd::string::StringExecFns;

verus! {

/// What is posted to the alerting webhook: the text, where it goes, under
/// which name, and the emoji shown beside it, if any.
#[derive(Debug, PartialEq, Eq)]
pub struct Alert {
    pub text: String,
    pub channel: String,
    pub username: String,
    pub icon_emoji: Option<String>,
}

/// An alert with its texts as character sequences.
pub struct AlertView {
    pub text: Seq<char>,
    pub channel: Seq<char>,
    pub username: Seq<char>,
    pub icon_emoji: Option<Seq<char>>,
}

impl View for Alert {
    type V = AlertView;

    open spec fn view(&self) -> AlertView {
        AlertView {
            text: self.text@,
            channel: self.channel@,
            username: self.username@,
            icon_emoji: match self.icon_emoji {
                Some(emoji) => Some(emoji@),
                None => None,
            },
        }
    }
}

/// The alert for a message. An empty message stands for "nothing found": it
/// is spelled out and marked with a warning sign. Any other message is posted
/// as it is.
pub open spec fn alert_for(msg: Seq<char>) -> AlertView {
    if msg.len() == 0 {
        AlertView {
            text: "No files found"@,
            channel: "#backups"@,
            username: "s3mon"@,
            icon_emoji: Some(":warning:"@),
        }
    } else {
        AlertView { text: msg, channel: "#backups"@, username: "s3mon"@, icon_emoji: None }
    }
}

/// Composes the alert for a message.
pub fn compose(msg: String) -> (alert: Alert)
    ensures
        alert@ == alert_for(msg@),
{
    let channel = String::from_str("#backups");
    let username = String::from_str("s3mon");
    if msg.as_str().is_empty() {
        Alert {
            text: String::from_str("No files found"),
            channel,
            username,
            icon_emoji: Some(String::from_str(":warning:")),
        }
    } else {
        Alert { text: msg, channel, username, icon_emoji: None }
    }
}

} // verus!
