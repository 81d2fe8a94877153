use vstd::prelude::*;

verus! {

/// Base display time of a notification, in milliseconds.
pub const BASE_DISPLAY_MS: u64 = 3000;

/// Display time added for each word of the body, in milliseconds.
pub const PER_WORD_MS: u64 = 300;

/// The characters that separate words: those of Unicode's White_Space
/// property (tab to carriage return, space, next line, no-break space,
/// ogham space mark, the spaces from en quad to hair space, line and
/// paragraph separators, narrow no-break space, medium mathematical space and
/// ideographic space).
pub open spec fn is_space(c: char) -> bool {
    ('\t' <= c && c <= '\r') || c == ' ' || c == '\u{85}' || c == '\u{a0}'
        || c == '\u{1680}' || ('\u{2000}' <= c && c <= '\u{200a}') || c == '\u{2028}'
        || c == '\u{2029}' || c == '\u{202f}' || c == '\u{205f}' || c == '\u{3000}'
}

/// Number of words (maximal runs of non-space characters) in `s`.
pub open spec fn word_count(s: Seq<char>) -> nat
    decreases s.len(),
{
    if s.len() == 0 {
        0
    } else {
        let rest = word_count(s.drop_last());
        if !is_space(s.last()) && (s.len() == 1 || is_space(s[s.len() - 2])) {
            rest + 1
        } else {
            rest
        }
    }
}

/// Display time derived from the body's word count.
pub open spec fn word_count_duration(body: Seq<char>) -> int {
    BASE_DISPLAY_MS + PER_WORD_MS * word_count(body)
}

fn is_space_char(c: char) -> (r: bool)
    ensures
        r == is_space(c),
{
    ('\t' <= c && c <= '\r') || c == ' ' || c == '\u{85}' || c == '\u{a0}'
        || c == '\u{1680}' || ('\u{2000}' <= c && c <= '\u{200a}') || c == '\u{2028}'
        || c == '\u{2029}' || c == '\u{202f}' || c == '\u{205f}' || c == '\u{3000}'
}

proof fn lemma_word_count_le_len(s: Seq<char>)
    ensures
        word_count(s) <= s.len(),
    decreases s.len(),
{
    if s.len() > 0 {
        lemma_word_count_le_len(s.drop_last());
    }
}

/// Counts the whitespace-separated words of `body`.
pub fn count_words(body: &str) -> (r: usize)
    ensures
        r == word_count(body@),
{
    let n = body.unicode_len();
    let mut i: usize = 0;
    let mut count: usize = 0;
    let mut prev_space = true;
    while i < n
        invariant
            n == body@.len(),
            i <= n,
            count == word_count(body@.take(i as int)),
            prev_space == (i == 0 || is_space(body@[i - 1])),
        decreases n - i,
    {
        let c = body.get_char(i);
        let sp = is_space_char(c);
        proof {
            let t = body@.take(i as int + 1);
            assert(t.drop_last() == body@.take(i as int));
            lemma_word_count_le_len(body@.take(i as int));
        }
        if !sp && prev_space {
            count = count + 1;
        }
        prev_space = sp;
        i = i + 1;
    }
    assert(body@.take(n as int) == body@);
    count
}

/// Display time in milliseconds for a notification whose body is `body`:
/// a base time plus a fixed amount per word, saturating at `u64::MAX`.
pub fn duration_for_body(body: &str) -> (r: u64)
    ensures
        r == if word_count_duration(body@) <= u64::MAX { word_count_duration(body@) } else { u64::MAX as int },
{
    let w = count_words(body) as u64;
    if w > (u64::MAX - BASE_DISPLAY_MS) / PER_WORD_MS {
        u64::MAX
    } else {
        BASE_DISPLAY_MS + PER_WORD_MS * w
    }
}

} // verus!
