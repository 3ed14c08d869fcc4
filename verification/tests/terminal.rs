use helix_view::clipboard::osc52::{
    decoded_text, encodable, encode_text, parse_reply, payload, query, sequence,
};
use helix_view::clipboard::text::str_eq;
use helix_view::clipboard::provider::{
    NopProvider, ReadAction, ReadEvent, TermProvider, WindowsProvider, READ_TIMEOUT_MILLIS,
};
use helix_view::clipboard::{
    ClipboardError, ClipboardProvider, ClipboardType, GetAction, Provider, SetAction,
};

fn printed(action: SetAction) -> String {
    match action {
        SetAction::Print(sequence) => sequence,
        other => panic!("expected a sequence to print, found {:?}", other),
    }
}

fn asked(action: GetAction) -> String {
    match action {
        GetAction::Query(sequence) => sequence,
        other => panic!("expected a question, found {:?}", other),
    }
}

fn ready(action: GetAction) -> String {
    match action {
        GetAction::Ready(text) => text,
        other => panic!("expected the text at once, found {:?}", other),
    }
}

/// A device that answers the question for the clipboard with "abc" in
/// base64 and answers nothing else.
fn device(question: &str) -> Vec<ReadEvent> {
    if question == "\x1b]52;;?\x1b\\" {
        b"\x1b]52;;YWJj\x1b\\".iter().map(|byte| ReadEvent::Byte(*byte)).collect()
    } else {
        vec![ReadEvent::TimedOut]
    }
}

#[test]
fn a_reply_with_a_payload_is_the_text() {
    let provider = TermProvider::default();
    assert_eq!(asked(provider.get_contents(ClipboardType::Clipboard)), "\x1b]52;;?\x1b\\");
    let reply = b"\x1b]52;;YWJj\x1b\\".to_vec();
    assert_eq!(provider.finish_get(ClipboardType::Clipboard, Ok(reply)), "abc");
}

#[test]
fn a_device_that_answers_gives_the_text() {
    let mut provider = TermProvider::default();
    provider.set_contents("kept".to_string(), ClipboardType::Clipboard);
    provider.set_contents("kept too".to_string(), ClipboardType::Selection);
    let question = asked(provider.get_contents(ClipboardType::Clipboard));
    let reply = TermProvider::read_reply(&device(&question));
    assert_eq!(provider.finish_get(ClipboardType::Clipboard, reply), "abc");
    let question = asked(provider.get_contents(ClipboardType::Selection));
    let reply = TermProvider::read_reply(&device(&question));
    assert_eq!(reply, Err(ClipboardError::Timeout));
    assert_eq!(provider.finish_get(ClipboardType::Selection, reply), "kept too");
}

#[test]
fn a_device_is_read_up_to_the_first_backslash() {
    let bytes = |text: &[u8]| text.iter().map(|byte| ReadEvent::Byte(*byte)).collect::<Vec<_>>();
    assert_eq!(TermProvider::read_reply(&bytes(b"ab\\cd\\")), Ok(b"ab\\".to_vec()));
    assert_eq!(TermProvider::read_reply(&bytes(b"\\")), Ok(b"\\".to_vec()));
    assert_eq!(TermProvider::read_reply(&bytes(b"no end")), Err(ClipboardError::Timeout));
    assert_eq!(TermProvider::read_reply(&[]), Err(ClipboardError::Timeout));
    let mut cut = bytes(b"ab");
    cut.push(ReadEvent::Failed);
    cut.extend(bytes(b"c\\"));
    assert_eq!(TermProvider::read_reply(&cut), Err(ClipboardError::IOFailure));
    let mut slow = bytes(b"ab");
    slow.push(ReadEvent::TimedOut);
    slow.extend(bytes(b"c\\"));
    assert_eq!(TermProvider::read_reply(&slow), Err(ClipboardError::Timeout));
}

#[test]
fn a_terminal_that_never_replies_gives_the_text_last_set() {
    let mut provider = TermProvider::default();
    provider.set_contents("first".to_string(), ClipboardType::Clipboard);
    provider.set_contents("second".to_string(), ClipboardType::Clipboard);
    assert_eq!(
        provider.finish_get(ClipboardType::Clipboard, Err(ClipboardError::Timeout)),
        "second"
    );
    assert_eq!(provider.finish_get(ClipboardType::Selection, Err(ClipboardError::Timeout)), "");
}

#[test]
fn a_terminal_that_never_replied_and_nothing_set_gives_nothing() {
    let provider = TermProvider::default();
    assert_eq!(provider.finish_get(ClipboardType::Clipboard, Err(ClipboardError::Timeout)), "");
    assert_eq!(provider.finish_get(ClipboardType::Clipboard, Err(ClipboardError::IOFailure)), "");
}

#[test]
fn a_reply_wins_over_the_text_kept_in_memory() {
    let mut provider = TermProvider::default();
    provider.set_contents("kept".to_string(), ClipboardType::Clipboard);
    let reply = b"\x1b]52;c;b3RoZXI=\x1b\\".to_vec();
    assert_eq!(provider.finish_get(ClipboardType::Clipboard, Ok(reply)), "other");
}

#[test]
fn a_reply_that_cannot_be_read_gives_the_text_kept_in_memory() {
    let mut provider = TermProvider::default();
    provider.set_contents("kept".to_string(), ClipboardType::Selection);
    let replies: [&[u8]; 9] = [
        b"",
        b"\\",
        b"garbage\\",
        b"\x1b]52;\x1b\\",
        b"\x1b]52;p\x1b\\",
        b"\x1b]53;p;YWJj\x1b\\",
        b"\x1b]52;p;YWJj\\",
        b"\x1b]52;p;YW Jj\x1b\\",
        b"\x1b]52;p;/w==\x1b\\",
    ];
    for reply in replies {
        assert_eq!(provider.finish_get(ClipboardType::Selection, Ok(reply.to_vec())), "kept");
    }
}

#[test]
fn the_two_buffers_of_the_terminal_backend_are_kept_apart() {
    let mut provider = TermProvider::default();
    provider.set_contents("c".to_string(), ClipboardType::Clipboard);
    provider.set_contents("s".to_string(), ClipboardType::Selection);
    assert_eq!(provider.finish_get(ClipboardType::Clipboard, Err(ClipboardError::Timeout)), "c");
    assert_eq!(provider.finish_get(ClipboardType::Selection, Err(ClipboardError::Timeout)), "s");
}

#[test]
fn a_write_prints_the_text_in_base64() {
    let mut provider = TermProvider::default();
    assert_eq!(
        printed(provider.set_contents("abc".to_string(), ClipboardType::Clipboard)),
        "\x1b]52;;YWJj\x1b\\"
    );
    assert_eq!(
        printed(provider.set_contents("hello world".to_string(), ClipboardType::Selection)),
        "\x1b]52;p;aGVsbG8gd29ybGQ=\x1b\\"
    );
    assert_eq!(
        printed(provider.set_contents(String::new(), ClipboardType::Clipboard)),
        "\x1b]52;;\x1b\\"
    );
    assert_eq!(
        printed(provider.set_contents("\u{e9}".to_string(), ClipboardType::Clipboard)),
        "\x1b]52;;w6k=\x1b\\"
    );
}

#[test]
fn what_a_write_prints_reads_back_as_a_reply() {
    let mut provider = TermProvider::default();
    for text in ["", "a", "ab", "abc", "abcd", "tab\tand\nnewline", "\u{4e16}\u{754c}; \\ ?"] {
        let sequence = printed(provider.set_contents(text.to_string(), ClipboardType::Selection));
        let fresh = TermProvider::default();
        assert_eq!(fresh.finish_get(ClipboardType::Selection, Ok(sequence.into_bytes())), text);
    }
}

#[test]
fn the_question_names_the_buffer() {
    let provider = TermProvider::default();
    assert_eq!(asked(provider.get_contents(ClipboardType::Clipboard)), "\x1b]52;;?\x1b\\");
    assert_eq!(asked(provider.get_contents(ClipboardType::Selection)), "\x1b]52;p;?\x1b\\");
    assert_eq!(TermProvider::get_clip_char(ClipboardType::Clipboard), "");
    assert_eq!(TermProvider::get_clip_char(ClipboardType::Selection), "p");
    assert_eq!(query("p"), "\x1b]52;p;?\x1b\\");
    assert_eq!(sequence("c", "QQ=="), "\x1b]52;c;QQ==\x1b\\");
    assert_eq!(sequence("", ""), "\x1b]52;;\x1b\\");
}

#[test]
fn reading_stops_at_the_backslash() {
    let mut response = Vec::new();
    let reply = b"\x1b]52;;YQ==\x1b\\rest";
    let mut taken = 0;
    for byte in reply.iter() {
        taken += 1;
        match TermProvider::term_command(&mut response, ReadEvent::Byte(*byte)) {
            ReadAction::Continue => {}
            ReadAction::Done => break,
            ReadAction::Abort(error) => panic!("unexpected failure {:?}", error),
        }
    }
    assert_eq!(taken, reply.len() - 4);
    assert_eq!(response, b"\x1b]52;;YQ==\x1b\\".to_vec());
    assert_eq!(parse_reply(&response), Ok("a".to_string()));
}

#[test]
fn reading_gives_up_on_a_timeout_or_a_failure() {
    let mut response = vec![0x1b];
    assert_eq!(
        TermProvider::term_command(&mut response, ReadEvent::TimedOut),
        ReadAction::Abort(ClipboardError::Timeout)
    );
    assert_eq!(
        TermProvider::term_command(&mut response, ReadEvent::Failed),
        ReadAction::Abort(ClipboardError::IOFailure)
    );
    assert_eq!(response, vec![0x1b]);
    assert_eq!(READ_TIMEOUT_MILLIS, 100);
}

#[test]
fn the_payload_follows_the_first_separator() {
    assert_eq!(payload(b"\x1b]52;;YWJj\x1b\\"), Some(&b"YWJj"[..]));
    assert_eq!(payload(b"\x1b]52;p;YWJj\x1b\\"), Some(&b"YWJj"[..]));
    assert_eq!(payload(b"\x1b]52;p;a;b\x1b\\"), Some(&b"a;b"[..]));
    assert_eq!(payload(b"\x1b]52;;\x1b\\"), Some(&b""[..]));
    assert_eq!(payload(b"\x1b]52;\x1b\\"), None);
    assert_eq!(payload(b"\x1b]52;abc\x1b\\"), None);
    assert_eq!(payload(b"\x1b]52;\\"), None);
    assert_eq!(payload(b"\x1b]52;;YWJj\x1b"), None);
    assert_eq!(payload(b"x\x1b]52;;YWJj\x1b\\"), None);
    assert_eq!(payload(b""), None);
}

#[test]
fn a_reply_is_parsed_or_says_why_not() {
    assert_eq!(parse_reply(b"\x1b]52;;YWJj\x1b\\"), Ok("abc".to_string()));
    assert_eq!(parse_reply(b"\x1b]52;;\x1b\\"), Ok(String::new()));
    assert_eq!(parse_reply(b"\x1b]52;;w6k=\x1b\\"), Ok("\u{e9}".to_string()));
    assert_eq!(parse_reply(b"nothing\\"), Err(ClipboardError::ProtocolFormatFailure));
    assert_eq!(parse_reply(b"\x1b]52;YWJj\x1b\\"), Err(ClipboardError::ProtocolFormatFailure));
    assert_eq!(parse_reply(b"\x1b]52;;YWJ\x1b\\"), Err(ClipboardError::ProtocolFormatFailure));
    assert_eq!(parse_reply(b"\x1b]52;;?\x1b\\"), Err(ClipboardError::ProtocolFormatFailure));
    assert_eq!(parse_reply(b"\x1b]52;;/w==\x1b\\"), Err(ClipboardError::TextDecodingFailure));
}

#[test]
fn decoded_bytes_become_text() {
    assert_eq!(decoded_text(Some(b"abc".to_vec())), Ok("abc".to_string()));
    assert_eq!(decoded_text(Some(Vec::new())), Ok(String::new()));
    assert_eq!(decoded_text(Some(vec![0xff, 0xfe])), Err(ClipboardError::TextDecodingFailure));
    assert_eq!(decoded_text(None), Err(ClipboardError::ProtocolFormatFailure));
}

#[test]
fn text_is_encoded_in_padded_base64() {
    assert_eq!(encode_text(""), "");
    assert_eq!(encode_text("f"), "Zg==");
    assert_eq!(encode_text("fo"), "Zm8=");
    assert_eq!(encode_text("foo"), "Zm9v");
    assert_eq!(encode_text("foobar"), "Zm9vYmFy");
    assert_eq!(encode_text("\u{3ff}\u{3fe}?>"), "z7/Pvj8+");
}

#[test]
fn the_attempt_decides_between_reply_and_memory() {
    let mut provider = TermProvider::default();
    provider.set_contents("kept".to_string(), ClipboardType::Clipboard);
    assert_eq!(provider.text_or_fallback(ClipboardType::Clipboard, Ok("fresh".to_string())), "fresh");
    assert_eq!(
        provider.text_or_fallback(ClipboardType::Clipboard, Err(ClipboardError::ProtocolFormatFailure)),
        "kept"
    );
    assert_eq!(
        provider.text_or_fallback(ClipboardType::Selection, Err(ClipboardError::TextDecodingFailure)),
        ""
    );
}

#[test]
fn the_store_in_memory_keeps_what_is_set() {
    let mut provider = NopProvider::default();
    assert_eq!(provider.name(), "none");
    assert_eq!(ready(provider.get_contents(ClipboardType::Clipboard)), "");
    assert_eq!(ready(provider.get_contents(ClipboardType::Selection)), "");
    assert!(matches!(
        provider.set_contents("one".to_string(), ClipboardType::Clipboard),
        SetAction::Ready
    ));
    assert_eq!(ready(provider.get_contents(ClipboardType::Clipboard)), "one");
    assert_eq!(ready(provider.get_contents(ClipboardType::Selection)), "");
    provider.set_contents("two".to_string(), ClipboardType::Selection);
    provider.set_contents("three".to_string(), ClipboardType::Clipboard);
    assert_eq!(provider.contents(ClipboardType::Clipboard), "three");
    assert_eq!(provider.contents(ClipboardType::Selection), "two");
}

#[test]
fn the_native_backend_has_no_primary_selection() {
    let mut provider = WindowsProvider::default();
    assert_eq!(provider.name(), "clipboard-win");
    assert!(matches!(provider.get_contents(ClipboardType::Clipboard), GetAction::Native));
    assert_eq!(ready(provider.get_contents(ClipboardType::Selection)), "");
    match provider.set_contents("text".to_string(), ClipboardType::Clipboard) {
        SetAction::Native(text) => assert_eq!(text, "text"),
        other => panic!("expected a native write, found {:?}", other),
    }
    assert!(matches!(
        provider.set_contents("text".to_string(), ClipboardType::Selection),
        SetAction::Ready
    ));
}

#[test]
fn a_provider_does_what_the_backend_it_holds_does() {
    let mut nop = Provider::Nop(NopProvider::default());
    nop.set_contents("x".to_string(), ClipboardType::Selection);
    assert_eq!(ready(nop.get_contents(ClipboardType::Selection)), "x");
    assert_eq!(nop.name(), "none");

    let mut term = Provider::Term(TermProvider::default());
    assert_eq!(asked(term.get_contents(ClipboardType::Selection)), "\x1b]52;p;?\x1b\\");
    assert_eq!(printed(term.set_contents("abc".to_string(), ClipboardType::Clipboard)), "\x1b]52;;YWJj\x1b\\");
    match term {
        Provider::Term(inner) => {
            assert_eq!(inner.finish_get(ClipboardType::Clipboard, Err(ClipboardError::Timeout)), "abc")
        }
        other => panic!("expected the terminal backend, found {:?}", other),
    }

    let mut native = Provider::Windows(WindowsProvider::default());
    assert!(matches!(native.get_contents(ClipboardType::Clipboard), GetAction::Native));
    assert!(matches!(
        native.set_contents("x".to_string(), ClipboardType::Selection),
        SetAction::Ready
    ));
}

#[test]
fn texts_of_any_real_length_can_be_encoded() {
    assert!(encodable(""));
    assert!(encodable("a"));
    assert!(encodable(&"x".repeat(100_000)));
}

#[test]
fn strings_are_equal_by_their_characters() {
    assert!(str_eq("", ""));
    assert!(str_eq("xclip", "xclip"));
    assert!(!str_eq("xclip", "xclit"));
    assert!(!str_eq("xclip", "xcli"));
    assert!(!str_eq("", "x"));
    assert!(str_eq("\u{e9}t\u{e9}", "\u{e9}t\u{e9}"));
    assert!(!str_eq("\u{e9}", "e"));
}
