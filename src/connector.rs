//! The path from a raw chat message to the bot's reply.

use crate::bot::{MessageResponder, MessageResponse, Reply};
use crate::command::{command_of, parse_command, persona_name, prefix_is_required};
use crate::text::{normalize, normalized, trim_start};
use vstd::prelude::*;

verus! {

/// Turns a raw chat message into the reply to send.
pub trait Connector {
    /// `r` is a reply that may be sent for the raw message `msg`.
    spec fn reacts(&self, msg: Seq<char>, r: Reply) -> bool;

    fn message(&self, msg: &str) -> (r: MessageResponse)
        ensures
            self.reacts(msg@, r@),
    ;
}

/// Normalizes chat messages, reads the command in them and hands it to a
/// responder; messages that carry no command get no reply.
pub struct DiscordBotConnector<R>(pub R);

impl<R: MessageResponder> DiscordBotConnector<R> {
    pub fn new(responder: R) -> (r: DiscordBotConnector<R>)
        ensures
            r.0 == responder,
    {
        DiscordBotConnector(responder)
    }
}

impl<R: MessageResponder> Connector for DiscordBotConnector<R> {
    open spec fn reacts(&self, msg: Seq<char>, r: Reply) -> bool {
        match command_of(normalized(msg)) {
            Some(c) => self.0.answers(c, r),
            None => r == Reply::Silent,
        }
    }

    fn message(&self, msg: &str) -> (r: MessageResponse) {
        let text = normalize(msg);
        match parse_command(text.as_str()) {
            Some(input) => self.0.message(input),
            None => MessageResponse::NoReply,
        }
    }
}

/// A message whose normalized text lacks the activation prefix gets no
/// reply, whatever the responder would say.
pub proof fn unaddressed_message_is_ignored<R: MessageResponder>(
    bot: DiscordBotConnector<R>,
    msg: Seq<char>,
    r: Reply,
)
    requires
        bot.reacts(msg, r),
        !(normalized(msg).len() > 0 && normalized(msg)[0] == '!' && persona_name(
            trim_start(normalized(msg).drop_first()),
        ) is Some),
    ensures
        r == Reply::Silent,
{
    prefix_is_required(normalized(msg));
}

} // verus!
