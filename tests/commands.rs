use zundamon_bot::bot::MessageInput;
use zundamon_bot::command::{body_of, parse_command};
use zundamon_bot::text::{normalize, trim_str};

fn say_payload(text: &str) -> Option<String> {
    match parse_command(text) {
        Some(MessageInput::Say(t)) => Some(t.to_string()),
        _ => None,
    }
}

#[test]
fn help_command_is_recognized() {
    assert!(matches!(parse_command("!ずんだもん help"), Some(MessageInput::Help)));
    assert!(matches!(parse_command("!zunda ?"), Some(MessageInput::Help)));
    assert!(matches!(parse_command("!ずんだ へるぷ"), Some(MessageInput::Help)));
    assert!(matches!(parse_command("!ズンダモン ヘルプ"), Some(MessageInput::Help)));
}

#[test]
fn say_command_captures_payload() {
    assert_eq!(say_payload("!zunda say hi"), Some("hi".to_string()));
    assert_eq!(say_payload("!ずんだもん せい こんにちは"), Some("こんにちは".to_string()));
    assert_eq!(say_payload("!zundamon 言って  two words "), Some("two words".to_string()));
}

#[test]
fn say_payload_keeps_newlines() {
    assert_eq!(say_payload("!zunda say a\nb"), Some("a\nb".to_string()));
    assert_eq!(say_payload("!zunda say\nline"), Some("line".to_string()));
}

#[test]
fn empty_say_payload_is_no_command() {
    assert!(parse_command("!ずんだもん say ").is_none());
    assert!(parse_command("!ずんだもん say").is_none());
    assert!(parse_command("!ずんだもん sayhi").is_none());
}

#[test]
fn missing_prefix_is_no_command() {
    assert!(parse_command("zunda help").is_none());
    assert!(parse_command("help").is_none());
    assert!(parse_command("").is_none());
    assert!(parse_command("!").is_none());
    assert!(parse_command("!zunda").is_none());
    assert!(parse_command("!zundahelp").is_none());
    assert!(parse_command("!zundamonnn help").is_none());
    assert!(parse_command("?zunda help").is_none());
}

#[test]
fn persona_spellings_are_accepted() {
    for prefix in ["!zunda", "!zundamon", "!zundamonn", "!ずんだ", "!ずんだもん", "!ズンダ", "!ズンダモン", "!  zunda", "!\tずんだもん"] {
        let text = format!("{prefix} hello");
        assert!(matches!(parse_command(&text), Some(MessageInput::Hello)), "{text}");
    }
}

#[test]
fn greetings_are_recognized() {
    for word in ["おはよう", "おはよう!", "おはようございます", "おはようございます!", "ぐもーにん", "ぐっもーにんぐ", "ぐっどもーにんぐ!"] {
        let text = format!("!zunda {word}");
        assert!(matches!(parse_command(&text), Some(MessageInput::GoodMorning)), "{text}");
    }
    for word in ["こんにちは", "こんにちわ", "はろー", "ハロー", "hello"] {
        let text = format!("!zunda {word}");
        assert!(matches!(parse_command(&text), Some(MessageInput::Hello)), "{text}");
    }
    for word in ["こんばんは", "こんばんわ"] {
        let text = format!("!zunda {word}");
        assert!(matches!(parse_command(&text), Some(MessageInput::GoodEvening)), "{text}");
    }
    assert!(parse_command("!zunda おはよう!!").is_none());
    assert!(parse_command("!zunda ぐっどもーにんぐ!?").is_none());
}

#[test]
fn unknown_body_is_no_command() {
    assert!(parse_command("!zunda dance").is_none());
    assert!(parse_command("!zunda help me").is_none());
}

#[test]
fn fixed_phrase_takes_precedence() {
    assert!(matches!(parse_command("!zunda   hello   "), Some(MessageInput::Hello)));
    assert!(matches!(parse_command("!zunda ?"), Some(MessageInput::Help)));
    assert_eq!(say_payload("!zunda say hello"), Some("hello".to_string()));
}

#[test]
fn body_is_trimmed() {
    assert_eq!(body_of("!zunda   hello there  "), Some("hello there"));
    assert_eq!(body_of("nothing"), None);
    assert_eq!(trim_str(" \u{3000}\tab c\n "), "ab c");
    assert_eq!(trim_str("   "), "");
}

#[test]
fn normalize_folds_width_and_case() {
    assert_eq!(normalize("ＨＥＬＬＯ"), "hello");
    assert_eq!(normalize("！ずんだもん　Say Hi"), "!ずんだもん say hi");
    assert_eq!(normalize(""), "");
}

#[test]
fn normalize_is_idempotent_on_samples() {
    for raw in ["！ＺＵＮＤＡ　ＳＡＹ　Ｈｉ", "ｶﾀｶﾅ", "Ⅻ ﬁ ㍻", "ÀÉÎ", "plain"] {
        let once = normalize(raw);
        assert_eq!(normalize(&once), once);
    }
}
