//! The automatic verdict on a ticket solution, used when no AI verdict is
//! available: points for length, for the chapter's keywords, for words of
//! the chapter's context, and for words that tell of a fix and of a proof.
use vstd::prelude::*;
use crate::course::TicketValidationReport;
use crate::policy::{is_space, is_space_spec, skip_spaces};
use crate::stats::current_timestamp;
use crate::text::{
    alphanumeric, chars_of, contains_spec, contains_str, is_alphanumeric, lower_of, lowercase,
    string_from_chars,
};

verus! {

/// The highest score.
pub const MAX_SCORE: u64 = 100;

/// The lowest score that passes.
pub const PASS_SCORE: u64 = 60;

/// How many context words count at most.
pub const MAX_CONTEXT_WORDS: usize = 20;

/// `x`, but at most `MAX_SCORE`.
pub open spec fn capped(x: nat) -> nat {
    if x > MAX_SCORE {
        MAX_SCORE as nat
    } else {
        x
    }
}

/// How many bytes `c` takes in UTF-8.
pub open spec fn char_utf8_len(c: char) -> nat {
    if (c as u32) < 0x80 {
        1
    } else if (c as u32) < 0x800 {
        2
    } else if (c as u32) < 0x10000 {
        3
    } else {
        4
    }
}

/// How many bytes `s` takes in UTF-8.
pub open spec fn utf8_len(s: Seq<char>) -> nat
    decreases s.len(),
{
    if s.len() == 0 {
        0
    } else {
        utf8_len(s.drop_last()) + char_utf8_len(s.last())
    }
}

/// The first index at or before `j` that follows a non-space (or 0).
pub open spec fn skip_spaces_back(s: Seq<char>, j: int) -> int
    decreases j,
{
    if 0 < j <= s.len() && is_space_spec(s[j - 1]) {
        skip_spaces_back(s, j - 1)
    } else {
        j
    }
}

/// `s` without white space at either end.
pub open spec fn trimmed(s: Seq<char>) -> Seq<char> {
    let start = skip_spaces(s, 0);
    let end = skip_spaces_back(s, s.len() as int);
    if end <= start {
        Seq::empty()
    } else {
        s.subrange(start, end)
    }
}

/// Whether `c` separates words: white space where `ws`, else anything that
/// is not alphanumeric.
pub open spec fn is_sep_spec(c: char, ws: bool) -> bool {
    if ws {
        is_space_spec(c)
    } else {
        !alphanumeric(c)
    }
}

/// The pieces of `s` between separators, empty ones included.
pub open spec fn split(s: Seq<char>, ws: bool) -> Seq<Seq<char>>
    decreases s.len(),
{
    if s.len() == 0 {
        seq![Seq::empty()]
    } else {
        let init = split(s.drop_last(), ws);
        if is_sep_spec(s.last(), ws) {
            init.push(Seq::empty())
        } else {
            init.update(init.len() - 1, init.last().push(s.last()))
        }
    }
}

/// The character sequences of a vector of character vectors.
pub open spec fn views(ts: Seq<Vec<char>>) -> Seq<Seq<char>> {
    ts.map_values(|t: Vec<char>| t@)
}

/// Five points for each word longer than `min_bytes` bytes whose lower-case
/// form occurs in `text`.
pub open spec fn keyword_points(ts: Seq<Seq<char>>, text: Seq<char>, min_bytes: nat) -> nat
    decreases ts.len(),
{
    if ts.len() == 0 {
        0
    } else {
        keyword_points(ts.drop_last(), text, min_bytes) + if utf8_len(ts.last()) > min_bytes
            && contains_spec(text, lower_of(ts.last())) {
            5nat
        } else {
            0nat
        }
    }
}

/// Whether a context word is long enough to count.
pub open spec fn long_word(t: Seq<char>) -> bool {
    utf8_len(t) >= 4
}

/// How many of `ts` are long enough to count.
pub open spec fn count_long(ts: Seq<Seq<char>>) -> nat
    decreases ts.len(),
{
    if ts.len() == 0 {
        0
    } else {
        count_long(ts.drop_last()) + if long_word(ts.last()) {
            1nat
        } else {
            0nat
        }
    }
}

/// Two points for each of the first `MAX_CONTEXT_WORDS` long words of `ts`
/// that occurs in `text`.
pub open spec fn context_points(ts: Seq<Seq<char>>, text: Seq<char>) -> nat
    decreases ts.len(),
{
    if ts.len() == 0 {
        0
    } else {
        context_points(ts.drop_last(), text) + if long_word(ts.last()) && count_long(
            ts.drop_last(),
        ) < MAX_CONTEXT_WORDS && contains_spec(text, ts.last()) {
            2nat
        } else {
            0nat
        }
    }
}

/// Twenty points when `text` tells of a fix.
pub open spec fn fix_points(text: Seq<char>) -> nat {
    if contains_spec(text, "fix"@) || contains_spec(text, "corrig"@) || contains_spec(
        text,
        "résolu"@,
    ) || contains_spec(text, "resolve"@) {
        20
    } else {
        0
    }
}

/// Fifteen points when `text` tells of a test or a proof.
pub open spec fn proof_points(text: Seq<char>) -> nat {
    if contains_spec(text, "test"@) || contains_spec(text, "validation"@) || contains_spec(
        text,
        "preuve"@,
    ) {
        15
    } else {
        0
    }
}

/// Thirty points for a solution of at least 80 bytes, white space at the
/// ends aside.
pub open spec fn length_points(solution: Seq<char>) -> nat {
    if utf8_len(trimmed(solution)) >= 80 {
        30
    } else {
        0
    }
}

/// The score of `solution` for a chapter with the given id, title and
/// context.
pub open spec fn fallback_score(
    chapter_id: Seq<char>,
    chapter_title: Seq<char>,
    context: Seq<char>,
    solution: Seq<char>,
) -> nat {
    let text = lower_of(solution);
    capped(
        length_points(solution) + keyword_points(split(chapter_id, false), text, 2)
            + keyword_points(split(chapter_title, true), text, 3) + context_points(
            split(lower_of(context), false),
            text,
        ) + fix_points(text) + proof_points(text),
    )
}

proof fn lemma_capped_add(a: nat, b: nat)
    ensures
        capped(capped(a) + b) == capped(a + b),
        capped(a + capped(b)) == capped(a + b),
{
}

proof fn lemma_skip_spaces_back_bounds(s: Seq<char>, j: int)
    requires
        0 <= j <= s.len(),
    ensures
        0 <= skip_spaces_back(s, j) <= j,
    decreases j,
{
    if 0 < j && is_space_spec(s[j - 1]) {
        lemma_skip_spaces_back_bounds(s, j - 1);
    }
}

/// How many bytes `c` takes in UTF-8.
fn char_len_utf8(c: char) -> (r: usize)
    ensures
        r == char_utf8_len(c),
{
    let u = c as u32;
    if u < 0x80 {
        1
    } else if u < 0x800 {
        2
    } else if u < 0x10000 {
        3
    } else {
        4
    }
}

/// Whether `v[lo..hi]` takes more than `k` bytes in UTF-8.
fn utf8_len_exceeds(v: &Vec<char>, lo: usize, hi: usize, k: usize) -> (r: bool)
    requires
        lo <= hi <= v@.len(),
        k <= 1000,
    ensures
        r == (utf8_len(v@.subrange(lo as int, hi as int)) > k),
{
    let mut acc: usize = 0;
    let mut j: usize = lo;
    while j < hi
        invariant
            lo <= j <= hi <= v@.len(),
            k <= 1000,
            acc == utf8_len(v@.subrange(lo as int, j as int)),
            acc <= k,
        decreases hi - j,
    {
        assert(v@.subrange(lo as int, j + 1).drop_last() =~= v@.subrange(lo as int, j as int));
        acc = acc + char_len_utf8(v[j]);
        j = j + 1;
        if acc > k {
            proof {
                lemma_utf8_len_prefix(v@.subrange(lo as int, hi as int), (j - lo) as int);
                assert(v@.subrange(lo as int, hi as int).subrange(0, (j - lo) as int) =~= v@.subrange(
                    lo as int,
                    j as int,
                ));
            }
            return true;
        }
    }
    false
}

proof fn lemma_utf8_len_prefix(s: Seq<char>, i: int)
    requires
        0 <= i <= s.len(),
    ensures
        utf8_len(s.subrange(0, i)) <= utf8_len(s),
    decreases s.len(),
{
    if i < s.len() {
        assert(s.drop_last().subrange(0, i) =~= s.subrange(0, i));
        lemma_utf8_len_prefix(s.drop_last(), i);
    } else {
        assert(s.subrange(0, i) =~= s);
    }
}

/// Whether `c` separates words: white space where `ws`, else anything that
/// is not alphanumeric.
fn is_sep(c: char, ws: bool) -> (r: bool)
    ensures
        r == is_sep_spec(c, ws),
{
    if ws {
        is_space(c)
    } else {
        !is_alphanumeric(c)
    }
}

proof fn lemma_split_nonempty(s: Seq<char>, ws: bool)
    ensures
        split(s, ws).len() >= 1,
    decreases s.len(),
{
    if s.len() > 0 {
        lemma_split_nonempty(s.drop_last(), ws);
    }
}

/// The pieces of `s` between separators, empty ones included.
pub fn split_words(s: &str, ws: bool) -> (r: Vec<Vec<char>>)
    ensures
        views(r@) == split(s@, ws),
{
    let cs = chars_of(s);
    let mut done: Vec<Vec<char>> = Vec::new();
    let mut cur: Vec<char> = Vec::new();
    let mut i: usize = 0;
    assert(cs@.subrange(0, 0) =~= Seq::<char>::empty());
    assert(views(done@).push(cur@) =~= split(cs@.subrange(0, 0), ws));
    while i < cs.len()
        invariant
            cs@ == s@,
            i <= cs@.len(),
            views(done@).push(cur@) == split(cs@.subrange(0, i as int), ws),
        decreases cs.len() - i,
    {
        let c = cs[i];
        let ghost prev = cs@.subrange(0, i as int);
        let ghost next = cs@.subrange(0, i + 1);
        assert(next.drop_last() =~= prev);
        assert(next.last() == c);
        proof {
            lemma_split_nonempty(prev, ws);
        }
        if is_sep(c, ws) {
            let ghost old_done = done@;
            let ghost old_cur = cur@;
            done.push(cur);
            cur = Vec::new();
            assert(views(done@) =~= views(old_done).push(old_cur));
            assert(views(done@).push(cur@) =~= split(next, ws));
        } else {
            let ghost old_cur = cur@;
            cur.push(c);
            assert(views(done@).push(cur@) =~= views(done@).push(old_cur).update(
                views(done@).len() as int,
                old_cur.push(c),
            ));
        }
        i = i + 1;
    }
    assert(cs@.subrange(0, cs@.len() as int) =~= cs@);
    let ghost old_done = done@;
    let ghost last = cur@;
    done.push(cur);
    assert(views(done@) =~= views(old_done).push(last));
    done
}

/// `keyword_points` of `ts` against `text`, at most `MAX_SCORE`.
fn keyword_score(text: &str, ts: &Vec<Vec<char>>, min_bytes: usize) -> (r: u64)
    requires
        min_bytes <= 1000,
    ensures
        r == capped(keyword_points(views(ts@), text@, min_bytes as nat)),
{
    let mut acc: u64 = 0;
    let mut i: usize = 0;
    while i < ts.len()
        invariant
            min_bytes <= 1000,
            i <= ts@.len(),
            acc == capped(keyword_points(views(ts@).subrange(0, i as int), text@, min_bytes as nat)),
        decreases ts.len() - i,
    {
        let t = &ts[i];
        let ghost pre = views(ts@).subrange(0, i as int);
        let ghost nxt = views(ts@).subrange(0, i + 1);
        assert(nxt.drop_last() =~= pre);
        assert(nxt.last() == t@);
        let mut pts: u64 = 0;
        if utf8_len_exceeds(t, 0, t.len(), min_bytes) {
            assert(t@.subrange(0, t@.len() as int) =~= t@);
            let word = string_from_chars(t);
            let lower = lowercase(word.as_str());
            if contains_str(text, lower.as_str()) {
                pts = 5;
            }
        } else {
            assert(t@.subrange(0, t@.len() as int) =~= t@);
        }
        proof {
            lemma_capped_add(keyword_points(pre, text@, min_bytes as nat), pts as nat);
        }
        acc = if acc + pts > MAX_SCORE {
            MAX_SCORE
        } else {
            acc + pts
        };
        i = i + 1;
    }
    assert(views(ts@).subrange(0, ts@.len() as int) =~= views(ts@));
    acc
}

/// `context_points` of `ts` against `text`, at most `MAX_SCORE`.
fn context_score(text: &str, ts: &Vec<Vec<char>>) -> (r: u64)
    ensures
        r == capped(context_points(views(ts@), text@)),
{
    let mut acc: u64 = 0;
    let mut taken: usize = 0;
    let mut i: usize = 0;
    while i < ts.len()
        invariant
            i <= ts@.len(),
            taken <= i,
            taken == count_long(views(ts@).subrange(0, i as int)),
            acc == capped(context_points(views(ts@).subrange(0, i as int), text@)),
        decreases ts.len() - i,
    {
        let t = &ts[i];
        let ghost pre = views(ts@).subrange(0, i as int);
        let ghost nxt = views(ts@).subrange(0, i + 1);
        assert(nxt.drop_last() =~= pre);
        assert(nxt.last() == t@);
        assert(t@.subrange(0, t@.len() as int) =~= t@);
        let mut pts: u64 = 0;
        if utf8_len_exceeds(t, 0, t.len(), 3) {
            if taken < MAX_CONTEXT_WORDS {
                let word = string_from_chars(t);
                if contains_str(text, word.as_str()) {
                    pts = 2;
                }
            }
            taken = taken + 1;
        }
        proof {
            lemma_capped_add(context_points(pre, text@), pts as nat);
        }
        acc = if acc + pts > MAX_SCORE {
            MAX_SCORE
        } else {
            acc + pts
        };
        i = i + 1;
    }
    assert(views(ts@).subrange(0, ts@.len() as int) =~= views(ts@));
    acc
}

/// Whether `solution` takes at least 80 bytes, white space at the ends aside.
fn long_enough(solution: &str) -> (r: bool)
    ensures
        r == (utf8_len(trimmed(solution@)) >= 80),
{
    let cs = chars_of(solution);
    let n = cs.len();
    let mut start: usize = 0;
    while start < n && is_space(cs[start])
        invariant
            cs@ == solution@,
            n == cs@.len(),
            start <= n,
            skip_spaces(cs@, start as int) == skip_spaces(cs@, 0),
        decreases n - start,
    {
        start = start + 1;
    }
    let mut end: usize = n;
    while end > start && is_space(cs[end - 1])
        invariant
            cs@ == solution@,
            n == cs@.len(),
            start <= end <= n,
            skip_spaces(cs@, 0) == start,
            skip_spaces_back(cs@, end as int) == skip_spaces_back(cs@, n as int),
        decreases end,
    {
        end = end - 1;
    }
    proof {
        lemma_skip_spaces_back_bounds(cs@, end as int);
    }
    if end <= start {
        assert(trimmed(cs@) =~= Seq::<char>::empty());
        false
    } else {
        utf8_len_exceeds(&cs, start, end, 79)
    }
}

/// Scores `solution` without an AI: thirty points for at least 80 bytes,
/// five for each chapter-id word of more than two bytes and each title word
/// of more than three that the lower-cased solution contains, two for each
/// of the first twenty context words of at least four bytes that it
/// contains, twenty for words of a fix and fifteen for words of a test. The
/// score is capped at 100 and passes from 60.
pub fn fallback_ticket_validation(
    chapter_id: &str,
    chapter_title: &str,
    chapter_context: Option<&str>,
    solution: &str,
) -> (r: TicketValidationReport)
    ensures
        r.score as nat == fallback_score(
            chapter_id@,
            chapter_title@,
            match chapter_context {
                Some(c) => c@,
                None => Seq::empty(),
            },
            solution@,
        ),
        r.valid == (r.score >= PASS_SCORE),
        !r.used_ai,
        r.feedback@ == if r.valid {
            "Validation automatique: solution suffisamment argumentée. Vous pouvez passer au ticket suivant."@
        } else {
            "Validation automatique: détails insuffisants. Expliquez le problème, le correctif appliqué et la preuve de réussite (tests/logs)."@
        },
{
    let lower = lowercase(solution);
    let text = lower.as_str();
    let context = match chapter_context {
        Some(c) => c,
        None => "",
    };
    proof {
        reveal_strlit("");
    }
    let context_lower = lowercase(context);
    let ghost ctx: Seq<char> = match chapter_context {
        Some(c) => c@,
        None => Seq::empty(),
    };
    assert(context@ == ctx);
    let len_pts: u64 = if long_enough(solution) {
        30
    } else {
        0
    };
    let id_pts = keyword_score(text, &split_words(chapter_id, false), 2);
    let title_pts = keyword_score(text, &split_words(chapter_title, true), 3);
    let ctx_pts = context_score(text, &split_words(context_lower.as_str(), false));
    let fix_pts: u64 = if contains_str(text, "fix") || contains_str(text, "corrig") || contains_str(
        text,
        "résolu",
    ) || contains_str(text, "resolve") {
        20
    } else {
        0
    };
    let proof_pts: u64 = if contains_str(text, "test") || contains_str(text, "validation")
        || contains_str(text, "preuve") {
        15
    } else {
        0
    };
    let total = len_pts + id_pts + title_pts + ctx_pts + fix_pts + proof_pts;
    let score: u64 = if total > MAX_SCORE {
        MAX_SCORE
    } else {
        total
    };
    proof {
        let a = length_points(solution@);
        let b = keyword_points(split(chapter_id@, false), lower@, 2);
        let c = keyword_points(split(chapter_title@, true), lower@, 3);
        let d = context_points(split(lower_of(ctx), false), lower@);
        let e = fix_points(lower@);
        let f = proof_points(lower@);
        lemma_capped_add(a, b);
        lemma_capped_add(a + b, c);
        lemma_capped_add(a + b + c, d);
        lemma_capped_add(a, capped(b));
        lemma_capped_add(a + capped(b), c);
        lemma_capped_add(a + b, capped(c));
        lemma_capped_add(a + b + capped(c), d);
        lemma_capped_add(a + b + c, capped(d));
        assert(score == capped(a + b + c + d + e + f));
    }
    let valid = score >= PASS_SCORE;
    let feedback = if valid {
        String::from_str(
            "Validation automatique: solution suffisamment argumentée. Vous pouvez passer au ticket suivant.",
        )
    } else {
        String::from_str(
            "Validation automatique: détails insuffisants. Expliquez le problème, le correctif appliqué et la preuve de réussite (tests/logs).",
        )
    };
    TicketValidationReport {
        valid,
        score: score as u8,
        feedback,
        used_ai: false,
        validated_at: current_timestamp(),
    }
}

} // verus!
