use codext_pool::clock::{seconds_or_epoch, Timestamp, MAX_TIMESTAMP, MIN_TIMESTAMP};
use codext_pool::status::{
    mark_pool_exhausted, mark_pool_serving, pool_is_exhausted, take_pool_exhaustion_notice,
    PoolStatus,
};
use codext_pool::text::{
    chars_of, decimal_text, hexadecimal_text, is_white_space, same_text, starts_with, trim,
    trim_end_slashes,
};

#[test]
fn white_space_is_what_std_says() {
    for c in (0..=0x10ffff).filter_map(char::from_u32) {
        assert_eq!(is_white_space(c), c.is_whitespace(), "{c:?}");
    }
}

#[test]
fn text_is_trimmed_as_std_does() {
    for s in ["", " ", "a", " a", "a ", " a b ", "\u{3000}é\u{a0}", "\t\n", "//", "a//", "/a/"] {
        assert_eq!(trim(s), s.trim());
        assert_eq!(trim_end_slashes(s), s.trim_end_matches('/'));
    }
}

#[test]
fn text_is_compared_by_characters() {
    assert_eq!(chars_of("aé工"), vec!['a', 'é', '工']);
    assert!(same_text("é", "é"));
    assert!(!same_text("é", "e"));
    assert!(starts_with("éa", "é"));
    assert!(!starts_with("é", "éa"));
    assert!(starts_with("a", ""));
}

#[test]
fn numbers_are_written_as_std_does() {
    for n in [0, 1, 9, 10, 99, 100, 1_234_567_890, u128::MAX] {
        assert_eq!(decimal_text(n), n.to_string());
    }
    for n in [0, 1, 0xabc, 0x0123_4567_89ab_cdef, u64::MAX] {
        assert_eq!(hexadecimal_text(n, 16), format!("{n:016x}"));
    }
    assert_eq!(hexadecimal_text(0xabc, 2), "bc");
    assert_eq!(hexadecimal_text(0xabc, 0), "");
}

#[test]
fn a_clock_before_the_epoch_counts_as_the_epoch() {
    assert_eq!(seconds_or_epoch(Some(7)), 7);
    assert_eq!(seconds_or_epoch(None), 0);
}

/// The calendar of a timestamp ends where chrono's ends.
#[test]
fn the_calendar_is_that_of_chrono() {
    let known = |seconds: i64| chrono::DateTime::from_timestamp(seconds, 0).is_some();
    for (seconds, inside) in [
        (MIN_TIMESTAMP, true),
        (MIN_TIMESTAMP - 1, false),
        (MAX_TIMESTAMP, true),
        (MAX_TIMESTAMP + 1, false),
        (0, true),
        (i64::MIN, false),
        (i64::MAX, false),
    ] {
        assert_eq!(known(seconds), inside, "{seconds}");
        assert_eq!(Timestamp::new(seconds, 0).is_some(), inside, "{seconds}");
    }
    assert!(Timestamp::new(0, 999_999_999).is_some());
    assert!(Timestamp::new(0, 1_000_000_000).is_none());
}

#[test]
fn the_time_between_two_moments_is_exact() {
    let moment = |seconds: i64, nanos: u32| Timestamp::new(seconds, nanos).expect("a moment");
    assert_eq!(moment(5, 1).remaining(moment(3, 2)), Some(1_999_999_999));
    assert_eq!(moment(5, 2).remaining(moment(3, 1)), Some(2_000_000_001));
    assert_eq!(moment(-3, 0).remaining(moment(-5, 500_000_000)), Some(1_500_000_000));
    assert_eq!(moment(3, 2).remaining(moment(3, 2)), Some(0));
    assert_eq!(moment(3, 1).remaining(moment(3, 2)), None);
    assert_eq!(moment(2, 9).remaining(moment(3, 0)), None);
    let span = moment(MAX_TIMESTAMP, 999_999_999).remaining(moment(MIN_TIMESTAMP, 0));
    assert_eq!(span, Some((MAX_TIMESTAMP - MIN_TIMESTAMP) as u128 * 1_000_000_000 + 999_999_999));
}

#[test]
fn a_shortage_is_announced_once_and_then_anew() {
    let mut status = PoolStatus::new();
    assert!(!pool_is_exhausted(&status));
    assert!(!take_pool_exhaustion_notice(&mut status));
    assert!(mark_pool_exhausted(&mut status));
    assert!(pool_is_exhausted(&status));
    assert!(take_pool_exhaustion_notice(&mut status));
    assert!(!take_pool_exhaustion_notice(&mut status));
    assert!(!mark_pool_exhausted(&mut status));
    assert!(!take_pool_exhaustion_notice(&mut status));
    assert!(mark_pool_serving(&mut status));
    assert!(!mark_pool_serving(&mut status));
    assert!(!take_pool_exhaustion_notice(&mut status));
    assert!(mark_pool_exhausted(&mut status));
    assert!(take_pool_exhaustion_notice(&mut status));
}
