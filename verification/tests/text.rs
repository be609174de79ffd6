use live_runtime::error::{LiveErrorOrigin, LiveFileError, LivePlace};
use live_runtime::ids::{LiveFileId, LiveId, LivePtr, LiveTokenId, TextPos};
use live_runtime::node::LiveNodeOrigin;
use live_runtime::text::{push_decimal, push_signed_decimal, push_text};

fn dec(n: u64) -> String {
    let mut s = String::new();
    push_decimal(&mut s, n);
    s
}

fn sdec(v: i64) -> String {
    let mut s = String::new();
    push_signed_decimal(&mut s, v);
    s
}

#[test]
fn decimal_of_naturals() {
    assert_eq!(dec(0), "0");
    assert_eq!(dec(7), "7");
    assert_eq!(dec(10), "10");
    assert_eq!(dec(109), "109");
    assert_eq!(dec(1000000), "1000000");
    assert_eq!(dec(u64::MAX), "18446744073709551615");
}

#[test]
fn decimal_of_integers() {
    assert_eq!(sdec(0), "0");
    assert_eq!(sdec(-1), "-1");
    assert_eq!(sdec(42), "42");
    assert_eq!(sdec(-120), "-120");
    assert_eq!(sdec(i64::MAX), "9223372036854775807");
    assert_eq!(sdec(i64::MIN), "-9223372036854775808");
}

#[test]
fn text_is_appended() {
    let mut s = String::from("a");
    push_text(&mut s, "bc");
    push_decimal(&mut s, 12);
    push_text(&mut s, "");
    push_signed_decimal(&mut s, -3);
    assert_eq!(s, "abc12-3");
}

#[test]
fn origin_and_file_error_texts() {
    let origin = LiveErrorOrigin::new("widget.rs", 10);
    let mut s = String::new();
    origin.push_to(&mut s);
    assert_eq!(s, "widget.rs:10");
    let err = LiveFileError {
        origin: LiveErrorOrigin::new("", 0),
        message: String::new(),
        place: Some(LivePlace { file: "f".to_string(), pos: TextPos { line: u32::MAX, column: 0 } }),
    };
    assert_eq!(err.to_text(), ":0:  at f:4294967295:0");
}

#[test]
fn identities_compare_by_their_parts() {
    let a = LivePtr { file_id: LiveFileId(1), index: 2, generation: 3 };
    assert!(a.same(&LivePtr { file_id: LiveFileId(1), index: 2, generation: 3 }));
    assert!(!a.same(&LivePtr { file_id: LiveFileId(0), index: 2, generation: 3 }));
    assert!(!a.same(&LivePtr { file_id: LiveFileId(1), index: 3, generation: 3 }));
    assert!(!a.same(&LivePtr { file_id: LiveFileId(1), index: 2, generation: 4 }));
    let t = LiveTokenId { file_id: LiveFileId(1), token_index: 2 };
    assert!(t.same(&LiveTokenId { file_id: LiveFileId(1), token_index: 2 }));
    assert!(!t.same(&LiveTokenId { file_id: LiveFileId(2), token_index: 2 }));
    assert!(!t.same(&LiveTokenId { file_id: LiveFileId(1), token_index: 1 }));
    assert_eq!(LiveNodeOrigin::Source(t).token_id(), Some(t));
    assert_eq!(LiveNodeOrigin::Synthesized.token_id(), None);
    assert_eq!(LiveId::new("abc").name, "abc");
}
