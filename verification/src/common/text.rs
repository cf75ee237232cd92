//! Character-level helpers for the text that forms carry: whitespace,
//! trimming and comparison, stated over the characters of a string.

use vstd::prelude::*;
use vstd::string::*;

verus! {

/// The characters that `char::is_whitespace` accepts: the Unicode
/// `White_Space` property.
pub open spec fn is_white_space(c: char) -> bool {
    ||| ('\u{9}' <= c && c <= '\u{d}')
    ||| c == ' '
    ||| c == '\u{85}'
    ||| c == '\u{a0}'
    ||| c == '\u{1680}'
    ||| ('\u{2000}' <= c && c <= '\u{200a}')
    ||| c == '\u{2028}'
    ||| c == '\u{2029}'
    ||| c == '\u{202f}'
    ||| c == '\u{205f}'
    ||| c == '\u{3000}'
}

/// `s` without its leading whitespace.
pub open spec fn trim_start(s: Seq<char>) -> Seq<char>
    decreases s.len(),
{
    if s.len() > 0 && is_white_space(s[0]) {
        trim_start(s.drop_first())
    } else {
        s
    }
}

/// `s` without its trailing whitespace.
pub open spec fn trim_end(s: Seq<char>) -> Seq<char>
    decreases s.len(),
{
    if s.len() > 0 && is_white_space(s.last()) {
        trim_end(s.drop_last())
    } else {
        s
    }
}

/// `s` without leading and trailing whitespace, as `str::trim` gives it.
pub open spec fn trim(s: Seq<char>) -> Seq<char> {
    trim_end(trim_start(s))
}

/// Every character of `s` is whitespace (the empty text included).
pub open spec fn is_blank(s: Seq<char>) -> bool {
    forall|i: int| 0 <= i < s.len() ==> #[trigger] is_white_space(s[i])
}

/// Decides `is_white_space`.
pub fn is_white_space_char(c: char) -> (r: bool)
    ensures
        r == is_white_space(c),
{
    ('\u{9}' <= c && c <= '\u{d}') || c == ' ' || c == '\u{85}' || c == '\u{a0}' || c
        == '\u{1680}' || ('\u{2000}' <= c && c <= '\u{200a}') || c == '\u{2028}' || c == '\u{2029}'
        || c == '\u{202f}' || c == '\u{205f}' || c == '\u{3000}'
}

proof fn lemma_trim_start_step(s: Seq<char>, i: int)
    requires
        0 <= i < s.len(),
        is_white_space(s[i]),
    ensures
        trim_start(s.subrange(i, s.len() as int)) == trim_start(s.subrange(i + 1, s.len() as int)),
{
    assert(s.subrange(i, s.len() as int).drop_first() =~= s.subrange(i + 1, s.len() as int));
}

proof fn lemma_trim_end_step(s: Seq<char>, i: int, j: int)
    requires
        0 <= i < j <= s.len(),
        is_white_space(s[j - 1]),
    ensures
        trim_end(s.subrange(i, j)) == trim_end(s.subrange(i, j - 1)),
{
    assert(s.subrange(i, j).drop_last() =~= s.subrange(i, j - 1));
}

/// `str::trim`: the text without leading and trailing whitespace.
pub fn trim_str(s: &str) -> (r: &str)
    ensures
        r@ == trim(s@),
{
    let n = s.unicode_len();
    let mut i: usize = 0;
    assert(s@.subrange(0, n as int) =~= s@);
    loop
        invariant
            i <= n,
            n == s@.len(),
            trim_start(s@) == trim_start(s@.subrange(i as int, n as int)),
        ensures
            i <= n,
            trim_start(s@) == trim_start(s@.subrange(i as int, n as int)),
            i == n || !is_white_space(s@[i as int]),
        decreases n - i,
    {
        if i == n {
            break;
        }
        let c = s.get_char(i);
        if !is_white_space_char(c) {
            break;
        }
        proof {
            lemma_trim_start_step(s@, i as int);
        }
        i = i + 1;
    }
    if i < n {
        assert(s@.subrange(i as int, n as int)[0] == s@[i as int]);
    }
    assert(trim_start(s@) == s@.subrange(i as int, n as int));
    let mut j: usize = n;
    loop
        invariant
            i <= j <= n,
            n == s@.len(),
            trim_start(s@) == s@.subrange(i as int, n as int),
            trim(s@) == trim_end(s@.subrange(i as int, j as int)),
        ensures
            i <= j <= n,
            trim(s@) == trim_end(s@.subrange(i as int, j as int)),
            j == i || !is_white_space(s@[j - 1]),
        decreases j - i,
    {
        if j == i {
            break;
        }
        let c = s.get_char(j - 1);
        if !is_white_space_char(c) {
            break;
        }
        proof {
            lemma_trim_end_step(s@, i as int, j as int);
        }
        j = j - 1;
    }
    if i < j {
        assert(s@.subrange(i as int, j as int).last() == s@[j - 1]);
    }
    assert(trim(s@) == s@.subrange(i as int, j as int));
    s.substring_char(i, j)
}

/// A text is blank exactly when trimming leaves nothing of it.
pub proof fn lemma_blank_iff_trim_empty(s: Seq<char>)
    ensures
        is_blank(s) <==> trim(s).len() == 0,
    decreases s.len(),
{
    if s.len() == 0 {
    } else if is_white_space(s[0]) {
        lemma_blank_iff_trim_empty(s.drop_first());
        if is_blank(s.drop_first()) {
            assert forall|i: int| 0 <= i < s.len() implies #[trigger] is_white_space(s[i]) by {
                if i > 0 {
                    assert(s[i] == s.drop_first()[i - 1]);
                }
            }
        } else {
            let k = choose|k: int| 0 <= k < s.drop_first().len() && !is_white_space(s.drop_first()[k]);
            assert(s[k + 1] == s.drop_first()[k]);
        }
    } else {
        lemma_trim_start_keeps_first(s);
    }
}

proof fn lemma_trim_start_keeps_first(s: Seq<char>)
    requires
        s.len() > 0,
        !is_white_space(s[0]),
    ensures
        trim(s).len() > 0,
        !is_blank(s),
    decreases s.len(),
{
    lemma_trim_end_keeps_first(s);
}

proof fn lemma_trim_end_keeps_first(s: Seq<char>)
    requires
        s.len() > 0,
        !is_white_space(s[0]),
    ensures
        trim_end(s).len() > 0,
        trim_end(s)[0] == s[0],
    decreases s.len(),
{
    if is_white_space(s.last()) {
        if s.len() == 1 {
        } else {
            assert(s.drop_last()[0] == s[0]);
            lemma_trim_end_keeps_first(s.drop_last());
        }
    }
}

proof fn lemma_trim_start_ends_on_text(s: Seq<char>)
    ensures
        trim_start(s).len() == 0 || !is_white_space(trim_start(s)[0]),
    decreases s.len(),
{
    if s.len() > 0 && is_white_space(s[0]) {
        lemma_trim_start_ends_on_text(s.drop_first());
    }
}

proof fn lemma_trim_end_ends_on_text(s: Seq<char>)
    ensures
        trim_end(s).len() == 0 || !is_white_space(trim_end(s).last()),
    decreases s.len(),
{
    if s.len() > 0 && is_white_space(s.last()) {
        lemma_trim_end_ends_on_text(s.drop_last());
    }
}

/// Trimming twice is trimming once: a trimmed text has no whitespace left
/// at either end.
pub proof fn lemma_trim_idempotent(s: Seq<char>)
    ensures
        trim(trim(s)) == trim(s),
{
    let u = trim_start(s);
    let v = trim_end(u);
    lemma_trim_start_ends_on_text(s);
    lemma_trim_end_ends_on_text(u);
    if u.len() > 0 {
        lemma_trim_end_keeps_first(u);
    }
    assert(trim_start(v) == v);
    assert(trim_end(v) == v);
}

/// The whitespace that `trim` takes off the front of `s`.
pub open spec fn lead_space(s: Seq<char>) -> Seq<char> {
    s.subrange(0, s.len() - trim_start(s).len())
}

/// The whitespace that `trim` takes off the back of `s`.
pub open spec fn trail_space(s: Seq<char>) -> Seq<char> {
    let u = trim_start(s);
    u.subrange(trim_end(u).len() as int, u.len() as int)
}

proof fn lemma_trim_start_is_suffix(s: Seq<char>)
    ensures
        trim_start(s).len() <= s.len(),
        trim_start(s) == s.subrange(s.len() - trim_start(s).len(), s.len() as int),
        is_blank(s.subrange(0, s.len() - trim_start(s).len())),
    decreases s.len(),
{
    if s.len() > 0 && is_white_space(s[0]) {
        let t = s.drop_first();
        lemma_trim_start_is_suffix(t);
        let k = t.len() - trim_start(t).len();
        assert(t.subrange(k, t.len() as int) =~= s.subrange(k + 1, s.len() as int));
        assert forall|i: int| 0 <= i < k + 1 implies #[trigger] is_white_space(
            s.subrange(0, k + 1)[i],
        ) by {
            if i > 0 {
                assert(s.subrange(0, k + 1)[i] == t.subrange(0, k)[i - 1]);
            }
        }
    } else {
        assert(s.subrange(0, 0).len() == 0);
        assert(s.subrange(0, s.len() as int) =~= s);
    }
}

proof fn lemma_trim_end_is_prefix(s: Seq<char>)
    ensures
        trim_end(s).len() <= s.len(),
        trim_end(s) == s.subrange(0, trim_end(s).len() as int),
        is_blank(s.subrange(trim_end(s).len() as int, s.len() as int)),
    decreases s.len(),
{
    if s.len() > 0 && is_white_space(s.last()) {
        let t = s.drop_last();
        lemma_trim_end_is_prefix(t);
        let m = trim_end(t).len() as int;
        assert(t.subrange(0, m) =~= s.subrange(0, m));
        assert forall|i: int| 0 <= i < s.len() - m implies #[trigger] is_white_space(
            s.subrange(m, s.len() as int)[i],
        ) by {
            if i < t.len() - m {
                assert(s.subrange(m, s.len() as int)[i] == t.subrange(m, t.len() as int)[i]);
            } else {
                assert(s.subrange(m, s.len() as int)[i] == s.last());
            }
        }
    } else {
        assert(s.subrange(0, s.len() as int) =~= s);
    }
}

/// A text is its trimmed text framed by whitespace: the leading and
/// trailing whitespace that `trim` takes off, and nothing else.
pub proof fn lemma_trim_frame(s: Seq<char>)
    ensures
        s == lead_space(s) + trim(s) + trail_space(s),
        is_blank(lead_space(s)),
        is_blank(trail_space(s)),
{
    let u = trim_start(s);
    lemma_trim_start_is_suffix(s);
    lemma_trim_end_is_prefix(u);
    let k = s.len() - u.len();
    let m = trim_end(u).len() as int;
    assert(u == s.subrange(k, s.len() as int));
    assert(s =~= s.subrange(0, k) + u);
    assert(u =~= trim_end(u) + u.subrange(m, u.len() as int));
    assert(s =~= lead_space(s) + trim(s) + trail_space(s));
}

/// Decides `is_blank`.
pub fn is_blank_str(s: &str) -> (r: bool)
    ensures
        r == is_blank(s@),
{
    let n = s.unicode_len();
    let mut i: usize = 0;
    while i < n
        invariant
            i <= n,
            n == s@.len(),
            forall|k: int| 0 <= k < i ==> #[trigger] is_white_space(s@[k]),
        decreases n - i,
    {
        let c = s.get_char(i);
        if !is_white_space_char(c) {
            return false;
        }
        i = i + 1;
    }
    true
}

/// Compares two texts character by character.
pub fn text_eq(a: &str, b: &str) -> (r: bool)
    ensures
        r == (a@ == b@),
{
    let n = a.unicode_len();
    let m = b.unicode_len();
    if n != m {
        return false;
    }
    let mut i: usize = 0;
    while i < n
        invariant
            i <= n,
            n == a@.len(),
            m == b@.len(),
            n == m,
            forall|k: int| 0 <= k < i ==> a@[k] == b@[k],
        decreases n - i,
    {
        if a.get_char(i) != b.get_char(i) {
            return false;
        }
        i = i + 1;
    }
    assert(a@ =~= b@);
    true
}

/// How many bytes UTF-8 spends on a character (`char::len_utf8`).
pub open spec fn utf8_width(c: char) -> nat {
    if (c as u32) < 0x80 {
        1
    } else if (c as u32) < 0x800 {
        2
    } else if (c as u32) < 0x10000 {
        3
    } else {
        4
    }
}

/// The length of a text in bytes of UTF-8 (what `str::len` counts).
pub open spec fn utf8_len(s: Seq<char>) -> nat
    decreases s.len(),
{
    if s.len() == 0 {
        0
    } else {
        utf8_len(s.drop_last()) + utf8_width(s.last())
    }
}

proof fn lemma_utf8_len_prefix_grows(s: Seq<char>, i: int, j: int)
    requires
        0 <= i <= j <= s.len(),
    ensures
        utf8_len(s.subrange(0, i)) <= utf8_len(s.subrange(0, j)),
    decreases j - i,
{
    if i < j {
        lemma_utf8_len_prefix_grows(s, i, j - 1);
        assert(s.subrange(0, j).drop_last() =~= s.subrange(0, j - 1));
    }
}

/// Decides whether a text takes at most `limit` bytes of UTF-8.
pub fn utf8_len_at_most(s: &str, limit: usize) -> (r: bool)
    ensures
        r == (utf8_len(s@) <= limit),
{
    let n = s.unicode_len();
    let mut i: usize = 0;
    let mut total: usize = 0;
    while i < n
        invariant
            i <= n,
            n == s@.len(),
            total == utf8_len(s@.subrange(0, i as int)),
            total <= limit,
        decreases n - i,
    {
        let c = s.get_char(i);
        let w: usize = if (c as u32) < 0x80 {
            1
        } else if (c as u32) < 0x800 {
            2
        } else if (c as u32) < 0x10000 {
            3
        } else {
            4
        };
        assert(s@.subrange(0, i + 1).drop_last() =~= s@.subrange(0, i as int));
        if w > limit - total {
            proof {
                lemma_utf8_len_prefix_grows(s@, i + 1, n as int);
                assert(s@.subrange(0, n as int) =~= s@);
            }
            return false;
        }
        total = total + w;
        i = i + 1;
    }
    assert(s@.subrange(0, n as int) =~= s@);
    true
}

} // verus!
