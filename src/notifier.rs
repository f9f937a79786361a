//! Webhook services that notifications go to, and the shape of their
//! payloads.

use vstd::prelude::*;

verus! {

/// A chat service with incoming webhooks.
#[derive(Clone, Copy, Debug, PartialEq, Eq, Structural)]
pub enum NotifierKind {
    Slack,
    Discord,
}

impl NotifierKind {
    /// The payload field that carries a plain text message.
    pub fn text_field(&self) -> (r: &'static str)
        ensures
            r@ == (if *self == NotifierKind::Slack {
                "text"@
            } else {
                "content"@
            }),
    {
        match self {
            NotifierKind::Slack => "text",
            NotifierKind::Discord => "content",
        }
    }

    /// The payload field that carries rich content: Slack's blocks, Discord's
    /// embeds.
    pub fn rich_field(&self) -> (r: &'static str)
        ensures
            r@ == (if *self == NotifierKind::Slack {
                "blocks"@
            } else {
                "embeds"@
            }),
    {
        match self {
            NotifierKind::Slack => "blocks",
            NotifierKind::Discord => "embeds",
        }
    }
}

} // verus!
