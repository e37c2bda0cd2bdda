use halloween::agent::{detect_mobile, MOBILE_AGENT_PATTERN};
use halloween::matcher::{PatternError, PatternMatcher};

#[test]
fn pattern_text_is_the_mobile_alternation() {
    assert_eq!(
        MOBILE_AGENT_PATTERN,
        "Android|webOS|iPhone|iPad|iPod|BlackBerry|IEMobile|Opera Mini"
    );
}

#[test]
fn invalid_pattern_is_rejected() {
    assert!(matches!(PatternMatcher::new("foo(bar"), Err(PatternError::Rejected)));
}

#[test]
fn matcher_finds_word_anywhere() {
    let m = PatternMatcher::new("cat|dog").unwrap();
    assert!(m.is_match("hotdog stand"));
    assert!(m.is_match("cat"));
    assert!(!m.is_match("a bird"));
    assert!(!m.is_match(""));
}

#[test]
fn matcher_is_case_sensitive() {
    let m = PatternMatcher::new("iPhone").unwrap();
    assert!(!m.is_match("IPHONE"));
    assert!(m.is_match("my iPhone"));
}

#[test]
fn android_agent_is_mobile() {
    let ua = "Mozilla/5.0 (Linux; Android 14; Pixel 8) AppleWebKit/537.36 Chrome/120.0 Mobile Safari/537.36";
    assert_eq!(detect_mobile(Some(ua)), Ok(true));
}

#[test]
fn every_mobile_word_is_recognised() {
    for word in ["Android", "webOS", "iPhone", "iPad", "iPod", "BlackBerry", "IEMobile", "Opera Mini"] {
        let ua = format!("Mozilla/5.0 ({}) Gecko", word);
        assert_eq!(detect_mobile(Some(&ua)), Ok(true), "{}", word);
    }
}

#[test]
fn desktop_agent_is_not_mobile() {
    let ua = "Mozilla/5.0 (X11; Linux x86_64; rv:128.0) Gecko/20100101 Firefox/128.0";
    assert_eq!(detect_mobile(Some(ua)), Ok(false));
}

#[test]
fn opera_needs_the_whole_phrase() {
    assert_eq!(detect_mobile(Some("Opera Minx")), Ok(false));
    assert_eq!(detect_mobile(Some("OperaMini")), Ok(false));
    assert_eq!(detect_mobile(Some("Opera Mini/8.0")), Ok(true));
}

#[test]
fn missing_agent_is_not_mobile() {
    assert_eq!(detect_mobile(None), Ok(false));
}

#[test]
fn recognised_agent_stays_recognised_when_extended() {
    let core = "iPad";
    assert_eq!(detect_mobile(Some(core)), Ok(true));
    assert_eq!(detect_mobile(Some(&format!("xx{}yy", core))), Ok(true));
}

#[test]
fn matcher_from_mobile_pattern_agrees_with_detection() {
    let m = PatternMatcher::new(MOBILE_AGENT_PATTERN).unwrap();
    assert!(m.is_mobile(Some("BlackBerry9700")));
    assert!(!m.is_mobile(Some("Windows NT 10.0")));
    assert!(!m.is_mobile(None));
}
