//! The command grammar: a message is addressed to the bot when it starts
//! with `!`, optional whitespace, one spelling of the persona's name and at
//! least one whitespace; what follows, trimmed, is matched against the fixed
//! phrases in order, and last against `say <text>`.

use crate::bot::{Command, MessageInput};
use crate::text::{is_whitespace, is_ws, same_text, trim, trim_start, trim_start_str, trim_str};
use vstd::prelude::*;

verus! {

/// `name` stands at the start of `t` and is followed by whitespace.
pub open spec fn named_at(t: Seq<char>, name: Seq<char>) -> bool {
    name.len() < t.len() && t.subrange(0, name.len() as int) == name && is_ws(t[name.len() as int])
}

/// The spelling of the persona's name that stands at the start of `t`,
/// followed by whitespace, if one does.
pub open spec fn persona_name(t: Seq<char>) -> Option<Seq<char>> {
    if named_at(t, "zundamonn"@) {
        Some("zundamonn"@)
    } else if named_at(t, "zundamon"@) {
        Some("zundamon"@)
    } else if named_at(t, "zunda"@) {
        Some("zunda"@)
    } else if named_at(t, "ずんだもん"@) {
        Some("ずんだもん"@)
    } else if named_at(t, "ずんだ"@) {
        Some("ずんだ"@)
    } else if named_at(t, "ズンダモン"@) {
        Some("ズンダモン"@)
    } else if named_at(t, "ズンダ"@) {
        Some("ズンダ"@)
    } else {
        None
    }
}

/// The trimmed text after the activation prefix, where `s` has one.
pub open spec fn addressed_body(s: Seq<char>) -> Option<Seq<char>> {
    if s.len() > 0 && s[0] == '!' {
        let t = trim_start(s.drop_first());
        match persona_name(t) {
            Some(name) => Some(trim(t.subrange(name.len() as int, t.len() as int))),
            None => None,
        }
    } else {
        None
    }
}

pub open spec fn is_help_phrase(p: Seq<char>) -> bool {
    p == "help"@ || p == "?"@ || p == "へるぷ"@ || p == "ヘルプ"@
}

/// `p` without one trailing `!`.
pub open spec fn without_bang(p: Seq<char>) -> Seq<char> {
    if p.len() > 0 && p.last() == '!' {
        p.drop_last()
    } else {
        p
    }
}

pub open spec fn is_good_morning_phrase(p: Seq<char>) -> bool {
    let q = without_bang(p);
    q == "おはよう"@ || q == "おはようございます"@ || q == "ぐもーにん"@ || q == "ぐもーにんぐ"@ || q
        == "ぐっもーにん"@ || q == "ぐっもーにんぐ"@ || q == "ぐっどもーにん"@ || q == "ぐっどもーにんぐ"@
}

pub open spec fn is_hello_phrase(p: Seq<char>) -> bool {
    p == "こんにちは"@ || p == "こんにちわ"@ || p == "はろー"@ || p == "ハロー"@ || p == "hello"@
}

pub open spec fn is_good_evening_phrase(p: Seq<char>) -> bool {
    p == "こんばんは"@ || p == "こんばんわ"@
}

/// The command of a fixed phrase, where `p` is one.
pub open spec fn phrase_command(p: Seq<char>) -> Option<Command> {
    if is_help_phrase(p) {
        Some(Command::Help)
    } else if is_good_morning_phrase(p) {
        Some(Command::GoodMorning)
    } else if is_hello_phrase(p) {
        Some(Command::Hello)
    } else if is_good_evening_phrase(p) {
        Some(Command::GoodEvening)
    } else {
        None
    }
}

/// What follows `keyword`, whitespace and the rest of the whitespace in
/// `p`, where that is not empty.
pub open spec fn payload_after(p: Seq<char>, keyword: Seq<char>) -> Option<Seq<char>> {
    if named_at(p, keyword) && trim_start(p.subrange(keyword.len() as int, p.len() as int)).len()
        > 0 {
        Some(trim_start(p.subrange(keyword.len() as int, p.len() as int)))
    } else {
        None
    }
}

/// The text to be spoken, where `p` is a `say` command.
pub open spec fn say_payload(p: Seq<char>) -> Option<Seq<char>> {
    if payload_after(p, "say"@) is Some {
        payload_after(p, "say"@)
    } else if payload_after(p, "せい"@) is Some {
        payload_after(p, "せい"@)
    } else {
        payload_after(p, "言って"@)
    }
}

/// The command that the trimmed body `p` names: the fixed phrases first,
/// then `say`.
pub open spec fn classify(p: Seq<char>) -> Option<Command> {
    if phrase_command(p) is Some {
        phrase_command(p)
    } else if say_payload(p) is Some {
        Some(Command::Say(say_payload(p)->0))
    } else {
        None
    }
}

/// The command that the normalized message `s` carries, if any.
pub open spec fn command_of(s: Seq<char>) -> Option<Command> {
    match addressed_body(s) {
        Some(body) => classify(body),
        None => None,
    }
}

/// Only a message with the activation prefix carries a command: one that
/// does not start with `!`, optional whitespace and a spelling of the
/// persona's name followed by whitespace carries none.
pub proof fn prefix_is_required(s: Seq<char>)
    requires
        !(s.len() > 0 && s[0] == '!' && persona_name(trim_start(s.drop_first())) is Some),
    ensures
        command_of(s) is None,
{
}

/// The fixed phrases come first: a body that is a fixed phrase names that
/// phrase's command, whatever the `say` rule would make of it.
pub proof fn fixed_phrase_wins(s: Seq<char>)
    requires
        addressed_body(s) is Some,
        phrase_command(addressed_body(s)->0) is Some,
    ensures
        command_of(s) == phrase_command(addressed_body(s)->0),
{
}

fn name_at(t: &str, name: &str) -> (r: bool)
    ensures
        r == named_at(t@, name@),
{
    let k = name.unicode_len();
    let n = t.unicode_len();
    if k < n && is_whitespace(t.get_char(k)) {
        same_text(t.substring_char(0, k), name)
    } else {
        false
    }
}

fn persona_name_at(t: &str) -> (r: Option<&'static str>)
    ensures
        match r {
            Some(name) => persona_name(t@) == Some(name@),
            None => persona_name(t@) is None,
        },
{
    if name_at(t, "zundamonn") {
        Some("zundamonn")
    } else if name_at(t, "zundamon") {
        Some("zundamon")
    } else if name_at(t, "zunda") {
        Some("zunda")
    } else if name_at(t, "ずんだもん") {
        Some("ずんだもん")
    } else if name_at(t, "ずんだ") {
        Some("ずんだ")
    } else if name_at(t, "ズンダモン") {
        Some("ズンダモン")
    } else if name_at(t, "ズンダ") {
        Some("ズンダ")
    } else {
        None
    }
}

/// The trimmed text after the activation prefix of `s`, if it has one.
pub fn body_of<'a>(s: &'a str) -> (r: Option<&'a str>)
    ensures
        match r {
            Some(body) => addressed_body(s@) == Some(body@),
            None => addressed_body(s@) is None,
        },
{
    let n = s.unicode_len();
    if n == 0 || s.get_char(0) != '!' {
        return None;
    }
    let rest = s.substring_char(1, n);
    assert(rest@ =~= s@.drop_first());
    let t = trim_start_str(rest);
    match persona_name_at(t) {
        Some(name) => {
            let k = name.unicode_len();
            Some(trim_str(t.substring_char(k, t.unicode_len())))
        },
        None => None,
    }
}

fn matches_help(p: &str) -> (r: bool)
    ensures
        r == is_help_phrase(p@),
{
    same_text(p, "help") || same_text(p, "?") || same_text(p, "へるぷ") || same_text(p, "ヘルプ")
}

fn strip_bang(p: &str) -> (r: &str)
    ensures
        r@ == without_bang(p@),
{
    let n = p.unicode_len();
    if n > 0 && p.get_char(n - 1) == '!' {
        let r = p.substring_char(0, n - 1);
        assert(r@ =~= p@.drop_last());
        r
    } else {
        p
    }
}

fn matches_good_morning(p: &str) -> (r: bool)
    ensures
        r == is_good_morning_phrase(p@),
{
    let q = strip_bang(p);
    same_text(q, "おはよう") || same_text(q, "おはようございます") || same_text(q, "ぐもーにん")
        || same_text(q, "ぐもーにんぐ") || same_text(q, "ぐっもーにん") || same_text(q, "ぐっもーにんぐ")
        || same_text(q, "ぐっどもーにん") || same_text(q, "ぐっどもーにんぐ")
}

fn matches_hello(p: &str) -> (r: bool)
    ensures
        r == is_hello_phrase(p@),
{
    same_text(p, "こんにちは") || same_text(p, "こんにちわ") || same_text(p, "はろー") || same_text(
        p,
        "ハロー",
    ) || same_text(p, "hello")
}

fn matches_good_evening(p: &str) -> (r: bool)
    ensures
        r == is_good_evening_phrase(p@),
{
    same_text(p, "こんばんは") || same_text(p, "こんばんわ")
}

fn find_payload<'a>(p: &'a str, keyword: &str) -> (r: Option<&'a str>)
    ensures
        match r {
            Some(text) => payload_after(p@, keyword@) == Some(text@),
            None => payload_after(p@, keyword@) is None,
        },
{
    if !name_at(p, keyword) {
        return None;
    }
    let text = trim_start_str(p.substring_char(keyword.unicode_len(), p.unicode_len()));
    if text.unicode_len() > 0 {
        Some(text)
    } else {
        None
    }
}

/// The text to be spoken, where the trimmed body `p` is a `say` command.
pub fn say_text<'a>(p: &'a str) -> (r: Option<&'a str>)
    ensures
        match r {
            Some(text) => say_payload(p@) == Some(text@),
            None => say_payload(p@) is None,
        },
{
    match find_payload(p, "say") {
        Some(text) => Some(text),
        None => match find_payload(p, "せい") {
            Some(text) => Some(text),
            None => find_payload(p, "言って"),
        },
    }
}

/// The command that the trimmed body `p` names, if any.
pub fn classify_body<'a>(p: &'a str) -> (r: Option<MessageInput<'a>>)
    ensures
        match r {
            Some(m) => classify(p@) == Some(m@),
            None => classify(p@) is None,
        },
{
    if matches_help(p) {
        Some(MessageInput::Help)
    } else if matches_good_morning(p) {
        Some(MessageInput::GoodMorning)
    } else if matches_hello(p) {
        Some(MessageInput::Hello)
    } else if matches_good_evening(p) {
        Some(MessageInput::GoodEvening)
    } else {
        match say_text(p) {
            Some(text) => Some(MessageInput::Say(text)),
            None => None,
        }
    }
}

/// The command that the normalized message `s` carries, if any.
pub fn parse_command<'a>(s: &'a str) -> (r: Option<MessageInput<'a>>)
    ensures
        match r {
            Some(m) => command_of(s@) == Some(m@),
            None => command_of(s@) is None,
        },
{
    match body_of(s) {
        Some(body) => classify_body(body),
        None => None,
    }
}

} // verus!
