use shellharden::microparsers::{is_word, prefixlen};
use shellharden::situation::{
    flush, flush_or_pop, pop, push, Horizon, OuterSit, Sit, SitArg, Transition, UnsupportedSyntax,
    WhatNow, COLOR_CMD, COLOR_NORMAL,
};
use shellharden::sittest::{
    become_regular, become_regular_with, find_xyes_comparison, has_rhs_xyes, push_hiddentest,
    push_xyes, SitHiddenTest, SitTest, SitXyes,
};
use shellharden::testhelpers::whatnow_eq;

fn outer() -> Box<Sit> {
    Box::new(Sit::Outer(OuterSit { id: 7, color: COLOR_NORMAL }))
}

/// A token classifier's answer that pushes a nested situation.
fn nested(pre: usize, len: usize) -> Option<WhatNow> {
    Some(push((pre, len, None), outer()))
}

fn decide_test(
    input: &[u8],
    is_lengthenable: bool,
    token: Option<WhatNow>,
    probe: Result<(bool, usize), ()>,
) -> WhatNow {
    let subj = SitTest { end_trigger: 0u16 };
    subj.whatnow(&Horizon { input, is_lengthenable }, token, probe)
}

fn expect_test(
    input: &[u8],
    token: &dyn Fn() -> Option<WhatNow>,
    probe: Result<(bool, usize), ()>,
    expect_mid: &WhatNow,
    expect_eof: &WhatNow,
) {
    assert!(whatnow_eq(input.len(), &decide_test(input, true, token(), probe), expect_mid));
    assert!(whatnow_eq(input.len(), &decide_test(input, false, token(), probe), expect_eof));
}

fn decide_xyes(input: &[u8], is_lengthenable: bool, args: Vec<Option<WhatNow>>) -> WhatNow {
    let subj = SitXyes { end_trigger: 0u16 };
    subj.whatnow(&Horizon { input, is_lengthenable }, args)
}

fn no_args(n: usize) -> Vec<Option<WhatNow>> {
    (0..n).map(|_| None).collect()
}

fn expect_xyes(input: &[u8], expect_mid: &WhatNow, expect_eof: &WhatNow) {
    let n = input.len();
    assert!(whatnow_eq(n, &decide_xyes(input, true, no_args(n)), expect_mid));
    assert!(whatnow_eq(n, &decide_xyes(input, false, no_args(n)), expect_eof));
}

#[test]
fn test_sit_test() {
    let none = || None;
    let r0 = become_regular(0u16);

    expect_test(b"", &none, Err(()), &flush(0), &r0);

    expect_test(b"-f $are ", &none, Err(()), &r0, &r0);
    let hidden = push_hiddentest(None, b"".to_vec(), 0u16);
    expect_test(b"-z $are ", &|| nested(3, 1), Err(()), &hidden, &hidden);
    expect_test(b"-n $are ", &|| nested(3, 1), Err(()), &hidden, &hidden);
    expect_test(b"-z justkidding ", &none, Err(()), &r0, &r0);
    expect_test(b"-n justkidding ", &none, Err(()), &r0, &r0);
    expect_test(b"-z \"", &|| nested(3, 1), Err(()), &hidden, &hidden);
    expect_test(b"-n \"", &|| nested(3, 1), Err(()), &hidden, &hidden);
    expect_test(b"-n \0", &|| Some(pop(3, 0, None)), Err(()), &flush(0), &r0);

    expect_test(b"x   ", &none, Err(()), &r0, &r0);
    let popped = pop(1, 0, None);
    expect_test(b"x\0 = x", &|| Some(pop(1, 0, None)), Err(()), &popped, &popped);
    expect_test(b"x$( ", &|| nested(1, 2), Ok((false, 1)), &flush(0), &r0);
    expect_test(b"x\"$(echo)\" = ", &|| nested(1, 1), Ok((true, 8)), &flush(0), &r0);
    let xyes = push_xyes(0u16);
    expect_test(b"x\"$(echo)\" = x", &|| nested(1, 1), Ok((true, 8)), &xyes, &xyes);
    expect_test(b"x$(echo) = x", &|| nested(1, 2), Ok((true, 5)), &xyes, &xyes);
    expect_test(b"x`echo` == x", &|| nested(1, 1), Ok((true, 5)), &xyes, &xyes);
    expect_test(b"x\"$yes\" != x", &|| nested(1, 1), Ok((true, 5)), &xyes, &xyes);
    let xyes16 = push_xyes(0x16);
    expect_test(b"x$yes = x", &|| nested(1, 1), Ok((true, 3)), &xyes16, &xyes16);
    expect_test(b"x$yes = y", &|| nested(1, 1), Ok((true, 3)), &flush(0), &r0);
    expect_test(b"$yes = x", &none, Err(()), &r0, &r0);
    expect_test(b"x$yes = x$1", &|| nested(1, 1), Ok((true, 3)), &xyes16, &xyes16);
    expect_test(b"x`$10` = x", &|| nested(1, 1), Err(()), &r0, &r0);
}

#[test]
fn test_sit_xyes() {
    expect_xyes(b" = ", &flush_or_pop(3), &flush_or_pop(3));
    expect_xyes(b" = x", &flush(3), &become_regular_with((3, 1, Some(b"\"\"".to_vec())), 0u16));
    expect_xyes(b"x", &flush(0), &become_regular_with((0, 1, Some(b"\"\"".to_vec())), 0u16));
    let quoted = become_regular_with((3, 1, Some(b"\"\"".to_vec())), 0u16);
    expect_xyes(b" = x ", &quoted, &quoted);
    expect_xyes(b" = x;", &quoted, &quoted);
    let kept = become_regular_with((3, 1, None), 0u16);
    expect_xyes(b" = xx", &kept, &kept);
}

#[test]
fn test_has_rhs_xyes() {
    assert!(has_rhs_xyes(b" = x"));
    assert!(has_rhs_xyes(b" != x"));
    assert!(has_rhs_xyes(b" == x"));
    assert!(!has_rhs_xyes(b" = "));
    assert!(!has_rhs_xyes(b" = y"));
    assert!(!has_rhs_xyes(b"= x"));
    assert!(!has_rhs_xyes(b" =x"));
    assert!(!has_rhs_xyes(b"  x"));
    assert!(!has_rhs_xyes(b" ! x"));
}

fn hidden_of(w: WhatNow) -> SitHiddenTest {
    match w.transition {
        Transition::Push(b) => match *b {
            Sit::HiddenTest(h) => h,
            _ => panic!("pushed another situation"),
        },
        _ => panic!("no push"),
    }
}

#[test]
fn empty_test_wrapper_replays_then_appends() {
    let w = decide_test(b"-z $are ", false, nested(3, 1), Err(()));
    assert_eq!(w.transform, (0, 3, Some(Vec::new())));
    let mut hidden = hidden_of(w);
    assert_eq!(hidden.end_replace, b" = \"\"".to_vec());
    assert_eq!(hidden.end_trigger, 0);
    let h = Horizon { input: b"$are ", is_lengthenable: true };
    let first = hidden.whatnow(&h);
    assert_eq!(first.transform, (0, 1, None));
    assert!(matches!(first.transition, Transition::Push(_)));
    assert!(hidden.inner.is_none());
    let second = hidden.whatnow(&h);
    assert_eq!(second.transform, (0, 0, Some(b" = \"\"".to_vec())));
    match second.transition {
        Transition::Replace(b) => assert!(matches!(*b, Sit::Arg(SitArg { end_trigger: 0 }))),
        _ => panic!("no replace"),
    }
}

#[test]
fn nonempty_test_open_quote_pushes_wrapper() {
    let w = decide_test(b"-n \"", true, nested(3, 1), Err(()));
    assert_eq!(w.transform, (0, 3, Some(Vec::new())));
    let hidden = hidden_of(w);
    assert_eq!(hidden.end_replace, b" != \"\"".to_vec());
}

#[test]
fn plain_flag_operand_waits_while_open() {
    let w = decide_test(b"-z justkidding ", true, Some(flush(0)), Err(()));
    assert!(whatnow_eq(15, &w, &flush(0)));
    let w = decide_test(b"-z justkidding ", false, Some(flush(0)), Err(()));
    assert!(whatnow_eq(15, &w, &become_regular(0)));
}

#[test]
fn short_window_waits_or_falls_back() {
    assert!(whatnow_eq(3, &decide_test(b"-z ", true, None, Err(())), &flush(0)));
    assert!(whatnow_eq(3, &decide_test(b"-z ", false, None, Err(())), &become_regular(0)));
}

#[test]
fn guard_relays_abort_unchanged() {
    let abort = WhatNow {
        transform: (1, 2, None),
        transition: Transition::Abort(UnsupportedSyntax { code: 9, at: 1 }),
    };
    let w = decide_test(b"x$( = x", false, Some(abort), Ok((true, 0)));
    assert_eq!(w.transform, (1, 2, None));
    assert!(matches!(w.transition, Transition::Abort(UnsupportedSyntax { code: 9, at: 1 })));
}

#[test]
fn guard_end_trigger_carried_into_stripper() {
    let w = decide_test(b"x$yes = x", true, nested(1, 1), Ok((true, 3)));
    assert_eq!(w.transform, (0, 1, Some(Vec::new())));
    match w.transition {
        Transition::Push(b) => assert!(matches!(*b, Sit::Xyes(SitXyes { end_trigger: 0 }))),
        _ => panic!("no push"),
    }
}

#[test]
fn hardened_text_is_left_alone() {
    let r0 = become_regular(0);
    assert!(whatnow_eq(9, &decide_test(b"\"$x\" = \"\"", true, nested(0, 1), Ok((true, 3))), &r0));
    assert!(whatnow_eq(9, &decide_test(b"\"$x\" = \"\"", false, None, Err(())), &r0));
}

#[test]
fn find_xyes_comparison_cases() {
    assert_eq!(find_xyes_comparison(b"yes = x", Ok((true, 3))), Ok(true));
    assert_eq!(find_xyes_comparison(b"yes = xyes", Ok((true, 3))), Ok(true));
    assert_eq!(find_xyes_comparison(b"yes = y", Ok((true, 3))), Ok(false));
    assert_eq!(find_xyes_comparison(b"yes = x", Ok((false, 3))), Ok(false));
    assert_eq!(find_xyes_comparison(b"yes = x", Ok((true, 2))), Ok(false));
    assert_eq!(find_xyes_comparison(b"yes = x", Err(())), Err(()));
    assert_eq!(find_xyes_comparison(b"", Ok((true, 0))), Ok(false));
}

#[test]
fn oracle_accepts_at_the_x() {
    assert!(has_rhs_xyes(b" = xyes"));
    assert!(has_rhs_xyes(b" == x ]"));
    assert!(!has_rhs_xyes(b""));
    assert!(!has_rhs_xyes(b" === x"));
    assert!(!has_rhs_xyes(b" != "));
    assert!(!has_rhs_xyes(b"x = x"));
}

#[test]
fn stripper_relays_scanner_decision() {
    let input = b"\"$a\" = x";
    let mut args = no_args(input.len());
    args[0] = nested(0, 1);
    let w = decide_xyes(input, true, args);
    assert_eq!(w.transform, (0, 1, None));
    assert!(matches!(w.transition, Transition::Push(_)));
}

#[test]
fn stripper_stops_at_x_before_later_claims() {
    let input = b" = x\"";
    let mut args = no_args(input.len());
    args[4] = nested(4, 1);
    let w = decide_xyes(input, false, args);
    let quoted = become_regular_with((3, 1, Some(b"\"\"".to_vec())), 0);
    assert!(whatnow_eq(input.len(), &w, &quoted));
}

#[test]
fn stripper_empty_window_flushes_or_pops() {
    assert!(whatnow_eq(0, &decide_xyes(b"", true, Vec::new()), &flush_or_pop(0)));
}

#[test]
fn token_offset_cases() {
    let t = SitTest { end_trigger: 0 };
    assert_eq!(t.token_offset(b"-z $a"), Some(3));
    assert_eq!(t.token_offset(b"-n \""), Some(3));
    assert_eq!(t.token_offset(b"x$a = x"), Some(1));
    assert_eq!(t.token_offset(b"-f $a"), None);
    assert_eq!(t.token_offset(b"x$a"), None);
}

#[test]
fn microparser_cases() {
    assert_eq!(prefixlen(b"-z $a", b"-z "), 3);
    assert_eq!(prefixlen(b"-n", b"-n "), 2);
    assert_eq!(prefixlen(b"-x ", b"-z "), 1);
    assert_eq!(prefixlen(b"", b"x"), 0);
    assert!(is_word(b'a') && is_word(b'Z') && is_word(b'5') && is_word(b'_'));
    assert!(!is_word(b' ') && !is_word(b';') && !is_word(b'$') && !is_word(b'"'));
}

#[test]
fn presentation_tags() {
    assert_eq!(SitTest { end_trigger: 0 }.get_color(), COLOR_CMD);
    assert_eq!(SitXyes { end_trigger: 0 }.get_color(), COLOR_NORMAL);
    assert_eq!(Sit::Test(SitTest { end_trigger: 0 }).get_color(), COLOR_CMD);
    assert_eq!(Sit::Outer(OuterSit { id: 1, color: 5 }).get_color(), 5);
    assert!(!whatnow_eq(4, &push_xyes(0), &become_regular(0)));
}
