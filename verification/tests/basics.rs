use github_status::config::{
    poll_interval_at, poll_interval_index, AuthMethod, Config, PollIdentity,
    DEFAULT_POLL_INTERVAL_SECS,
};
use github_status::status::{Badge, BadgeLabel, BadgeLevel, Status, StatusState};
use github_status::text::{
    chars_of, find, first_word_span, is_whitespace, leading_white_space, leading_word, starts_at,
    trailing_white_space_start, trim,
};

#[test]
fn default_settings() {
    let config = Config::default();
    assert_eq!(config.auth_method, AuthMethod::GhCli);
    assert_eq!(config.github_pat, "");
    assert_eq!(config.poll_interval_secs, 60);
    assert_eq!(DEFAULT_POLL_INTERVAL_SECS, 60);
    assert_eq!(AuthMethod::default(), AuthMethod::GhCli);
}

#[test]
fn normalized_replaces_only_zero() {
    let zero = Config { auth_method: AuthMethod::Pat, github_pat: "t".into(), poll_interval_secs: 0 };
    assert_eq!(
        zero.normalized(),
        Config { auth_method: AuthMethod::Pat, github_pat: "t".into(), poll_interval_secs: 60 }
    );
    let one = Config { auth_method: AuthMethod::Pat, github_pat: "t".into(), poll_interval_secs: 1 };
    assert_eq!(one.clone().normalized(), one);
}

#[test]
fn settings_are_equal_when_all_fields_are() {
    let base = Config { auth_method: AuthMethod::Pat, github_pat: "t".into(), poll_interval_secs: 60 };
    assert_eq!(base, base.clone());
    assert_ne!(base, Config { auth_method: AuthMethod::GhCli, ..base.clone() });
    assert_ne!(base, Config { github_pat: "u".into(), ..base.clone() });
    assert_ne!(base, Config { poll_interval_secs: 61, ..base.clone() });
}

#[test]
fn identities_are_equal_when_all_three_parts_are() {
    let base = PollIdentity {
        auth_method: AuthMethod::Pat,
        credential: "t".into(),
        poll_interval_secs: 60,
    };
    assert_eq!(base, base.clone());
    assert_ne!(base, PollIdentity { auth_method: AuthMethod::GhCli, ..base.clone() });
    assert_ne!(base, PollIdentity { credential: "T".into(), ..base.clone() });
    assert_ne!(base, PollIdentity { poll_interval_secs: 30, ..base.clone() });
    let config = Config { auth_method: AuthMethod::Pat, github_pat: "t".into(), poll_interval_secs: 60 };
    assert_eq!(config.poll_identity(), base);
}

#[test]
fn offered_intervals() {
    let offered: [u64; 6] = [30, 60, 120, 300, 600, 1800];
    for (index, secs) in offered.iter().enumerate() {
        assert_eq!(poll_interval_at(index), Some(*secs));
        assert_eq!(poll_interval_index(*secs), Some(index));
    }
    assert_eq!(poll_interval_at(6), None);
    assert_eq!(poll_interval_at(usize::MAX), None);
    assert_eq!(poll_interval_index(0), None);
    assert_eq!(poll_interval_index(31), None);
    assert_eq!(poll_interval_index(u64::MAX), None);
}

#[test]
fn status_goes_through_its_three_states() {
    let mut status = Status::new();
    assert!(matches!(status.state(), StatusState::Loading));
    assert_eq!(status.badge(), None);
    status.apply(Err("down".to_string()));
    assert!(matches!(status.state(), StatusState::Failure(message) if message == "down"));
    assert_eq!(status.count(), None);
    status.apply(Ok(4));
    assert!(matches!(status.state(), StatusState::Count(4)));
    assert_eq!(status.error(), None);
    status.apply(Err("down again".to_string()));
    assert!(matches!(status.state(), StatusState::Failure(message) if message == "down again"));
    assert_eq!(status.count(), Some(4));
    let copy = status.clone();
    assert_eq!(copy.count(), Some(4));
    assert_eq!(copy.error(), Some(&"down again".to_string()));
}

#[test]
fn badge_levels() {
    let badge_of = |count: u32| {
        let mut status = Status::new();
        status.apply(Ok(count));
        status.badge()
    };
    let counted = |count: u32, level: BadgeLevel| Some(Badge { label: BadgeLabel::Count(count), level });
    assert_eq!(badge_of(0), counted(0, BadgeLevel::Clear));
    assert_eq!(badge_of(1), counted(1, BadgeLevel::Low));
    assert_eq!(badge_of(5), counted(5, BadgeLevel::Low));
    assert_eq!(badge_of(6), counted(6, BadgeLevel::Medium));
    assert_eq!(badge_of(10), counted(10, BadgeLevel::Medium));
    assert_eq!(badge_of(11), counted(11, BadgeLevel::High));
    assert_eq!(badge_of(u32::MAX), counted(u32::MAX, BadgeLevel::High));
    let mut status = Status::new();
    status.apply(Ok(0));
    status.apply(Err("down".to_string()));
    assert_eq!(status.badge(), Some(Badge { label: BadgeLabel::Alert, level: BadgeLevel::High }));
}

#[test]
fn white_space_is_unicode_white_space() {
    for code in 0..=0x10ffffu32 {
        if let Some(c) = char::from_u32(code) {
            assert_eq!(is_whitespace(c), c.is_whitespace(), "U+{code:04X}");
        }
    }
}

#[test]
fn trim_agrees_with_the_standard_trim() {
    for text in [
        "",
        " ",
        "a",
        " a",
        "a ",
        "  a b  ",
        "\n\t x \r\n",
        "\u{a0}\u{2003}y\u{3000}",
        "\u{200b}z\u{200b}",
        " \u{e9}t\u{e9} ",
    ] {
        assert_eq!(trim(text), text.trim(), "{text:?}");
    }
}

#[test]
fn white_space_runs_are_counted_from_either_end() {
    let chars = chars_of("  ab \t");
    assert_eq!(chars, vec![' ', ' ', 'a', 'b', ' ', '\t']);
    assert_eq!(leading_white_space(&chars), 2);
    assert_eq!(trailing_white_space_start(&chars), 4);
    assert_eq!(leading_word(&chars), 0);
    assert_eq!(leading_word(&chars[2..]), 2);
    let blank = chars_of(" \n ");
    assert_eq!(leading_white_space(&blank), 3);
    assert_eq!(trailing_white_space_start(&blank), 0);
    assert_eq!(leading_white_space(&[]), 0);
    assert_eq!(trailing_white_space_start(&[]), 0);
}

#[test]
fn first_word_is_the_first_run_that_is_not_white_space() {
    assert_eq!(first_word_span(&chars_of("  ab cd")), Some((2, 4)));
    assert_eq!(first_word_span(&chars_of("ab")), Some((0, 2)));
    assert_eq!(first_word_span(&chars_of("a")), Some((0, 1)));
    assert_eq!(first_word_span(&chars_of("   ")), None);
    assert_eq!(first_word_span(&chars_of("")), None);
}

#[test]
fn find_gives_the_first_place_from_the_start_given() {
    let text = chars_of("abcabcab");
    let pattern = chars_of("abc");
    assert_eq!(find(&text, &pattern, 0), Some(0));
    assert_eq!(find(&text, &pattern, 1), Some(3));
    assert_eq!(find(&text, &pattern, 3), Some(3));
    assert_eq!(find(&text, &pattern, 4), None);
    assert_eq!(find(&text, &pattern, 100), None);
    assert_eq!(find(&text, &chars_of("ab"), 4), Some(6));
    assert_eq!(find(&text, &chars_of("abcabcabc"), 0), None);
    assert_eq!(find(&text, &[], 0), Some(0));
    assert_eq!(find(&text, &[], 8), Some(8));
    assert_eq!(find(&text, &[], 9), None);
    assert_eq!(find(&[], &[], 0), Some(0));
    assert_eq!(find(&[], &pattern, 0), None);
    assert!(starts_at(&text, &pattern, 3));
    assert!(!starts_at(&text, &pattern, 2));
    assert!(!starts_at(&text, &pattern, 6));
    assert!(!starts_at(&text, &pattern, usize::MAX));
}

#[test]
fn find_agrees_with_the_standard_search_on_ascii() {
    let texts = ["", "a", "aa", "aaa", "ab", "aab", "abab", "ba", "account account "];
    let patterns = ["", "a", "aa", "ab", "b", "account "];
    for text in texts {
        for pattern in patterns {
            let found = find(&chars_of(text), &chars_of(pattern), 0);
            assert_eq!(found, text.find(pattern), "{pattern:?} in {text:?}");
        }
    }
}
