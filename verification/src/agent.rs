//! Recognising mobile browsers by their user agent string.

use vstd::prelude::*;

use crate::matcher::{regex_compiles, PatternError, PatternMatcher};

verus! {

/// The pattern that marks a user agent as belonging to a mobile device.
pub const MOBILE_AGENT_PATTERN: &'static str = "Android|webOS|iPhone|iPad|iPod|BlackBerry|IEMobile|Opera Mini";

/// `needle` occurs as a contiguous run of characters somewhere in `hay`.
pub open spec fn occurs_in(needle: Seq<char>, hay: Seq<char>) -> bool {
    exists|i: int|
        0 <= i && i + needle.len() <= hay.len() && #[trigger] hay.subrange(i, i + needle.len())
            == needle
}

/// Some word of `words` occurs in `hay`.
pub open spec fn any_occurs_in(words: Seq<Seq<char>>, hay: Seq<char>) -> bool {
    exists|k: int| 0 <= k < words.len() && occurs_in(#[trigger] words[k], hay)
}

/// A character that a regular expression reads as itself in every context:
/// an ASCII letter, an ASCII digit or a space.
pub open spec fn is_plain_char(c: char) -> bool {
    ('a' <= c && c <= 'z') || ('A' <= c && c <= 'Z') || ('0' <= c && c <= '9') || c == ' '
}

/// A non-empty word made of plain characters only.
pub open spec fn is_plain_word(w: Seq<char>) -> bool {
    w.len() > 0 && forall|i: int| 0 <= i < w.len() ==> is_plain_char(#[trigger] w[i])
}

/// A non-empty list of plain words.
pub open spec fn are_plain_words(words: Seq<Seq<char>>) -> bool {
    words.len() > 0 && forall|k: int| 0 <= k < words.len() ==> is_plain_word(#[trigger] words[k])
}

/// The words joined by `|`, the regular-expression alternation of them.
pub open spec fn alternation(words: Seq<Seq<char>>) -> Seq<char>
    decreases words.len(),
{
    if words.len() == 0 {
        Seq::empty()
    } else if words.len() == 1 {
        words[0]
    } else {
        words[0] + seq!['|'] + alternation(words.drop_first())
    }
}

/// The words that [`MOBILE_AGENT_PATTERN`] is the alternation of.
pub open spec fn mobile_agent_words() -> Seq<Seq<char>> {
    seq![
        "Android"@,
        "webOS"@,
        "iPhone"@,
        "iPad"@,
        "iPod"@,
        "BlackBerry"@,
        "IEMobile"@,
        "Opera Mini"@,
    ]
}

/// A user agent is a mobile one when it is known and one of the mobile words
/// occurs in it.
pub open spec fn is_mobile_agent(user_agent: Option<Seq<char>>) -> bool {
    match user_agent {
        Some(ua) => any_occurs_in(mobile_agent_words(), ua),
        None => false,
    }
}

/// [`MOBILE_AGENT_PATTERN`] is exactly the alternation of the mobile words,
/// and those words are plain.
pub proof fn lemma_mobile_agent_pattern()
    ensures
        MOBILE_AGENT_PATTERN@ == alternation(mobile_agent_words()),
        are_plain_words(mobile_agent_words()),
{
    reveal_strlit("Android|webOS|iPhone|iPad|iPod|BlackBerry|IEMobile|Opera Mini");
    reveal_strlit("Android");
    reveal_strlit("webOS");
    reveal_strlit("iPhone");
    reveal_strlit("iPad");
    reveal_strlit("iPod");
    reveal_strlit("BlackBerry");
    reveal_strlit("IEMobile");
    reveal_strlit("Opera Mini");
    let w = mobile_agent_words();
    reveal_with_fuel(alternation, 9);
    assert(MOBILE_AGENT_PATTERN@ =~= alternation(w));
}


/// Mobile detection only looks for the mobile words: a user agent that is
/// recognised stays recognised whatever text surrounds it, and a missing user
/// agent is never recognised.
pub proof fn lemma_mobile_agent_survives_extension(ua: Seq<char>, before: Seq<char>, after: Seq<char>)
    ensures
        is_mobile_agent(Some(ua)) ==> is_mobile_agent(Some(before + ua + after)),
        !is_mobile_agent(None),
{
    if is_mobile_agent(Some(ua)) {
        let k = choose|k: int|
            0 <= k < mobile_agent_words().len() && occurs_in(#[trigger] mobile_agent_words()[k], ua);
        let w = mobile_agent_words()[k];
        let i = choose|i: int|
            0 <= i && i + w.len() <= ua.len() && #[trigger] ua.subrange(i, i + w.len()) == w;
        let big = before + ua + after;
        let j = i + before.len();
        assert(big.subrange(j, j + w.len()) =~= w);
        assert(occurs_in(w, big));
    }
}

/// A known user agent counts as mobile exactly when one of the eight words
/// Android, webOS, iPhone, iPad, iPod, BlackBerry, IEMobile or Opera Mini
/// occurs in it; so one that contains none of them is not mobile, and an
/// unknown one never is.
pub proof fn lemma_mobile_agent_words(ua: Seq<char>)
    ensures
        is_mobile_agent(Some(ua)) <==> {
            ||| occurs_in("Android"@, ua)
            ||| occurs_in("webOS"@, ua)
            ||| occurs_in("iPhone"@, ua)
            ||| occurs_in("iPad"@, ua)
            ||| occurs_in("iPod"@, ua)
            ||| occurs_in("BlackBerry"@, ua)
            ||| occurs_in("IEMobile"@, ua)
            ||| occurs_in("Opera Mini"@, ua)
        },
        !is_mobile_agent(None),
{
    let w = mobile_agent_words();
    assert(w[0] == "Android"@);
    assert(w[1] == "webOS"@);
    assert(w[2] == "iPhone"@);
    assert(w[3] == "iPad"@);
    assert(w[4] == "iPod"@);
    assert(w[5] == "BlackBerry"@);
    assert(w[6] == "IEMobile"@);
    assert(w[7] == "Opera Mini"@);
    assert(w.len() == 8);
}

impl PatternMatcher {
    /// Whether `user_agent` is known and marks a mobile device, given that
    /// this matcher was compiled from [`MOBILE_AGENT_PATTERN`].
    pub fn is_mobile(&self, user_agent: Option<&str>) -> (b: bool)
        requires
            self.pattern() == MOBILE_AGENT_PATTERN@,
        ensures
            b == is_mobile_agent(
                match user_agent {
                    Some(s) => Some(s@),
                    None => None,
                },
            ),
    {
        proof {
            lemma_mobile_agent_pattern();
        }
        match user_agent {
            Some(ua) => self.is_match(ua),
            None => false,
        }
    }
}

/// Compiles [`MOBILE_AGENT_PATTERN`].
pub fn mobile_agent_matcher() -> (r: Result<PatternMatcher, PatternError>)
    ensures
        r is Ok <==> regex_compiles(MOBILE_AGENT_PATTERN@),
        r matches Ok(m) ==> m.pattern() == MOBILE_AGENT_PATTERN@,
{
    PatternMatcher::new(MOBILE_AGENT_PATTERN)
}

/// Whether `user_agent` marks a mobile device: it must be known, and one of
/// the words of [`MOBILE_AGENT_PATTERN`] must occur in it. Fails only when the
/// `regex` crate rejects that pattern.
pub fn detect_mobile(user_agent: Option<&str>) -> (r: Result<bool, PatternError>)
    ensures
        r is Ok <==> regex_compiles(MOBILE_AGENT_PATTERN@),
        r matches Ok(b) ==> b == is_mobile_agent(
            match user_agent {
                Some(s) => Some(s@),
                None => None,
            },
        ),
{
    let m = mobile_agent_matcher()?;
    Ok(m.is_mobile(user_agent))
}

} // verus!
