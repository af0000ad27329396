//! Title sanitizing: emoji removal, whitespace collapsing, and the file-name
//! form used for downloaded stream artifacts.

use vstd::prelude::*;

verus! {

/// The Unicode `White_Space` characters, as `char::is_whitespace` reads them.
pub open spec fn is_space(c: char) -> bool {
    let v = c as u32;
    (0x9 <= v && v <= 0xd) || v == 0x20 || v == 0x85 || v == 0xa0 || v == 0x1680 || (0x2000 <= v
        && v <= 0x200a) || v == 0x2028 || v == 0x2029 || v == 0x202f || v == 0x205f || v == 0x3000
}

/// Whether `c` is a whitespace character.
pub fn is_space_char(c: char) -> (r: bool)
    ensures
        r == is_space(c),
{
    let v = c as u32;
    (0x9 <= v && v <= 0xd) || v == 0x20 || v == 0x85 || v == 0xa0 || v == 0x1680 || (0x2000 <= v
        && v <= 0x200a) || v == 0x2028 || v == 0x2029 || v == 0x202f || v == 0x205f || v == 0x3000
}

/// Reads `s` left to right, keeping its words and one space between two
/// words. The flag says that whitespace has been seen since the last word.
pub open spec fn squeeze(s: Seq<char>) -> (Seq<char>, bool)
    decreases s.len(),
{
    if s.len() == 0 {
        (Seq::empty(), false)
    } else {
        let prev = squeeze(s.drop_last());
        let c = s.last();
        if is_space(c) {
            (prev.0, prev.0.len() > 0)
        } else if prev.1 {
            (prev.0.push(' ').push(c), false)
        } else {
            (prev.0.push(c), false)
        }
    }
}

/// The words of `s` joined by single spaces; `s` itself when it has no word.
pub open spec fn collapse_spaces(s: Seq<char>) -> Seq<char> {
    let w = squeeze(s).0;
    if w.len() == 0 {
        s
    } else {
        w
    }
}

/// A character that an emoji filter of presentation, modifier and modifier
/// base characters removes.
pub uninterp spec fn emoji_char(c: char) -> bool;

/// Whitespace never carries an emoji property.
pub open spec fn is_emoji(c: char) -> bool {
    emoji_char(c) && !is_space(c)
}

/// Relies on `regex::Regex::replace_all` with a one-character class of the
/// `Emoji_Presentation`, `Emoji_Modifier_Base` and `Emoji_Modifier`
/// properties, replaced by nothing: every character of the class is dropped
/// and the others are kept in order. No whitespace character has any of the
/// three properties.
#[verifier::external_body]
fn strip_emoji(s: &str) -> (r: String)
    ensures
        r@ == s@.filter(|c: char| !(emoji_char(c) && !is_space(c))),
{
    let re = regex::Regex::new(
        r"[\p{Emoji_Presentation}\p{Emoji_Modifier_Base}\p{Emoji_Modifier}]",
    ).unwrap();
    re.replace_all(s, "").into_owned()
}

/// `s` without its emoji, with whitespace collapsed.
pub open spec fn sanitized(s: Seq<char>) -> Seq<char> {
    collapse_spaces(s.filter(|c: char| !is_emoji(c)))
}

/// The characters of `s`, in order.
pub fn chars_of(s: &str) -> (r: Vec<char>)
    ensures
        r@ == s@,
{
    let n = s.unicode_len();
    let mut out: Vec<char> = Vec::new();
    let mut i: usize = 0;
    while i < n
        invariant
            n == s@.len(),
            i <= n,
            out@ == s@.subrange(0, i as int),
        decreases n - i,
    {
        let c = s.get_char(i);
        out.push(c);
        i += 1;
    }
    assert(out@ == s@);
    out
}

/// Relies on `FromIterator<&char>` for `String`: the characters, in order.
#[verifier::external_body]
pub(crate) fn string_of(chars: &Vec<char>) -> (r: String)
    ensures
        r@ == chars@,
{
    chars.iter().collect()
}

/// Collapses every run of whitespace into one space and trims both ends; a
/// string made of whitespace alone is returned as it is.
pub fn remove_multiple_spaces(s: &str) -> (r: String)
    ensures
        r@ == collapse_spaces(s@),
{
    let chars = chars_of(s);
    let mut out: Vec<char> = Vec::new();
    let mut gap = false;
    let mut i: usize = 0;
    while i < chars.len()
        invariant
            chars@ == s@,
            i <= chars.len(),
            (out@, gap) == squeeze(s@.subrange(0, i as int)),
        decreases chars.len() - i,
    {
        let c = chars[i];
        assert(s@.subrange(0, i + 1).drop_last() == s@.subrange(0, i as int));
        if is_space_char(c) {
            gap = out.len() > 0;
        } else {
            if gap {
                out.push(' ');
            }
            out.push(c);
            gap = false;
        }
        i += 1;
    }
    assert(s@.subrange(0, chars.len() as int) == s@);
    if out.len() == 0 {
        s.to_owned()
    } else {
        string_of(&out)
    }
}

/// Drops emoji and collapses whitespace: the base of every intermediate
/// file name.
pub fn remove_emojis(s: &str) -> (r: String)
    ensures
        r@ == sanitized(s@),
{
    let plain = strip_emoji(s);
    assert((|c: char| !(emoji_char(c) && !is_space(c))) =~= (|c: char| !is_emoji(c)));
    remove_multiple_spaces(plain.as_str())
}

/// How many characters of a title an artifact file name keeps at most.
pub const TITLE_BUDGET: usize = 201;

/// The index of the last space in `h`, or -1 where it has none.
pub open spec fn last_space(h: Seq<char>) -> int
    decreases h.len(),
{
    if h.len() == 0 {
        -1
    } else if h.last() == ' ' {
        h.len() - 1
    } else {
        last_space(h.drop_last())
    }
}

/// A title cut to the budget; a cut title backs off to its last space.
pub open spec fn truncated(t: Seq<char>) -> Seq<char> {
    if t.len() > 201 {
        let h = t.subrange(0, 201);
        let k = last_space(h);
        if k >= 0 {
            h.subrange(0, k)
        } else {
            h
        }
    } else {
        t
    }
}

/// A line break becomes a space and a path separator a pipe.
pub open spec fn fs_safe_char(c: char) -> char {
    if c == '\n' {
        ' '
    } else if c == '/' {
        '|'
    } else {
        c
    }
}

/// `s` without its trailing periods.
pub open spec fn trim_dots(s: Seq<char>) -> Seq<char>
    decreases s.len(),
{
    if s.len() > 0 && s.last() == '.' {
        trim_dots(s.drop_last())
    } else {
        s
    }
}

/// The file-safe stem that an already sanitized title gives.
pub open spec fn file_stem(t: Seq<char>) -> Seq<char> {
    collapse_spaces(trim_dots(truncated(t).map_values(|c: char| fs_safe_char(c))))
}

proof fn lemma_last_space(h: Seq<char>)
    ensures
        -1 <= last_space(h) < h.len(),
        last_space(h) >= 0 ==> h[last_space(h)] == ' ',
        forall|j: int| last_space(h) < j < h.len() ==> h[j] != ' ',
        h.contains(' ') ==> last_space(h) >= 0,
    decreases h.len(),
{
    if h.len() > 0 {
        let p = h.drop_last();
        lemma_last_space(p);
        if h.contains(' ') && h.last() != ' ' {
            let j = choose|j: int| 0 <= j < h.len() && h[j] == ' ';
            assert(p[j] == ' ');
        }
        assert forall|j: int| last_space(h) < j < h.len() implies h[j] != ' ' by {
            if j < h.len() - 1 {
                assert(h[j] == p[j]);
            }
        }
    }
}

fn copy_prefix(v: &Vec<char>, n: usize) -> (r: Vec<char>)
    requires
        n <= v.len(),
    ensures
        r@ == v@.subrange(0, n as int),
{
    let mut out: Vec<char> = Vec::new();
    let mut i: usize = 0;
    while i < n
        invariant
            n <= v.len(),
            i <= n,
            out@ == v@.subrange(0, i as int),
        decreases n - i,
    {
        out.push(v[i]);
        i += 1;
    }
    out
}

fn truncate_chars(t: &Vec<char>) -> (r: Vec<char>)
    ensures
        r@ == truncated(t@),
{
    if t.len() > TITLE_BUDGET {
        let ghost h = t@.subrange(0, 201);
        let mut k: usize = TITLE_BUDGET;
        while k > 0 && t[k - 1] != ' '
            invariant
                k <= 201 < t.len(),
                h == t@.subrange(0, 201),
                last_space(h) == last_space(t@.subrange(0, k as int)),
            decreases k,
        {
            assert(t@.subrange(0, k as int).drop_last() == t@.subrange(0, k - 1));
            k -= 1;
        }
        if k == 0 {
            copy_prefix(t, TITLE_BUDGET)
        } else {
            assert(h.subrange(0, k - 1) == t@.subrange(0, k - 1));
            copy_prefix(t, k - 1)
        }
    } else {
        copy_prefix(t, t.len())
    }
}

/// Cuts a title longer than the budget to its first 201 characters, then
/// backs off to the last space among them where there is one, so that no
/// word is split.
pub fn truncate_title(title: &str) -> (r: String)
    ensures
        r@ == truncated(title@),
        title@.len() > 201 && title@.subrange(0, 201).contains(' ') ==> r@.len() < 201
            && r@.is_prefix_of(title@) && title@[r@.len() as int] == ' ',
{
    let t = chars_of(title);
    let r = truncate_chars(&t);
    proof {
        if title@.len() > 201 {
            lemma_last_space(title@.subrange(0, 201));
        }
    }
    string_of(&r)
}

/// The file-safe stem of a sanitized title: cut to the budget, line breaks
/// and path separators replaced, trailing periods trimmed, whitespace
/// collapsed.
pub fn file_stem_of(title: &str) -> (r: String)
    ensures
        r@ == file_stem(title@),
{
    let t = chars_of(title);
    let cut = truncate_chars(&t);
    let mut out: Vec<char> = Vec::new();
    let mut i: usize = 0;
    while i < cut.len()
        invariant
            i <= cut.len(),
            out@ == cut@.subrange(0, i as int).map_values(|c: char| fs_safe_char(c)),
        decreases cut.len() - i,
    {
        let c = cut[i];
        let d = if c == '\n' {
            ' '
        } else if c == '/' {
            '|'
        } else {
            c
        };
        out.push(d);
        i += 1;
        assert(out@ == cut@.subrange(0, i as int).map_values(|c: char| fs_safe_char(c)));
    }
    assert(cut@.subrange(0, cut.len() as int) == cut@);
    let ghost mapped = out@;
    while out.len() > 0 && out[out.len() - 1] == '.'
        invariant
            trim_dots(out@) == trim_dots(mapped),
        decreases out.len(),
    {
        out.pop();
    }
    let joined = string_of(&out);
    remove_multiple_spaces(joined.as_str())
}

/// A string in collapsed form: no whitespace but single inner spaces.
pub open spec fn is_collapsed(w: Seq<char>) -> bool {
    &&& forall|i: int| 0 <= i < w.len() ==> w[i] == ' ' || !is_space(#[trigger] w[i])
    &&& w.len() > 0 ==> w[0] != ' ' && w.last() != ' '
    &&& forall|i: int| 0 <= i < w.len() - 1 ==> !(#[trigger] w[i] == ' ' && w[i + 1] == ' ')
}

proof fn lemma_squeeze_shape(s: Seq<char>)
    ensures
        is_collapsed(squeeze(s).0),
        squeeze(s).1 ==> squeeze(s).0.len() > 0,
        forall|i: int|
            0 <= i < squeeze(s).0.len() ==> #[trigger] squeeze(s).0[i] == ' ' || s.contains(
                squeeze(s).0[i],
            ),
    decreases s.len(),
{
    if s.len() > 0 {
        let p = s.drop_last();
        lemma_squeeze_shape(p);
        let w = squeeze(s).0;
        let pw = squeeze(p).0;
        assert forall|i: int| 0 <= i < w.len() implies #[trigger] w[i] == ' ' || s.contains(w[i]) by {
            if i < pw.len() {
                assert(w[i] == pw[i]);
                if pw[i] != ' ' {
                    let j = choose|j: int| 0 <= j < p.len() && p[j] == pw[i];
                    assert(s[j] == w[i]);
                }
            } else {
                assert(w[i] == ' ' || w[i] == s[s.len() - 1]);
            }
        }
        assert forall|i: int| 0 <= i < w.len() - 1 implies !(#[trigger] w[i] == ' ' && w[i + 1]
            == ' ') by {
            if i + 1 < pw.len() {
                assert(w[i] == pw[i] && w[i + 1] == pw[i + 1]);
            }
        }
    }
}

proof fn lemma_squeeze_prefix(w: Seq<char>, k: int)
    requires
        is_collapsed(w),
        0 <= k <= w.len(),
    ensures
        k > 0 && w[k - 1] == ' ' ==> squeeze(w.subrange(0, k)) == (w.subrange(0, k - 1), true),
        !(k > 0 && w[k - 1] == ' ') ==> squeeze(w.subrange(0, k)) == (w.subrange(0, k), false),
    decreases k,
{
    if k > 0 {
        lemma_squeeze_prefix(w, k - 1);
        let p = w.subrange(0, k);
        assert(p.drop_last() == w.subrange(0, k - 1));
        assert(p.last() == w[k - 1]);
        if k >= 2 && w[k - 2] == ' ' {
            assert(w.subrange(0, k - 2).push(' ').push(w[k - 1]) == p);
        } else {
            assert(w.subrange(0, k - 1).push(w[k - 1]) == p);
        }
    }
}

proof fn lemma_filter_keeps_all(s: Seq<char>, pred: spec_fn(char) -> bool)
    requires
        forall|i: int| 0 <= i < s.len() ==> pred(#[trigger] s[i]),
    ensures
        s.filter(pred) == s,
    decreases s.len(),
{
    reveal(Seq::filter);
    if s.len() > 0 {
        lemma_filter_keeps_all(s.drop_last(), pred);
        assert(s.drop_last().push(s.last()) == s);
    }
}

/// Sanitizing a title twice gives what sanitizing it once gives.
pub proof fn lemma_sanitize_idempotent(s: Seq<char>)
    ensures
        sanitized(sanitized(s)) == sanitized(s),
{
    let pred = |c: char| !is_emoji(c);
    let y = s.filter(pred);
    let t = sanitized(s);
    lemma_squeeze_shape(y);
    assert forall|i: int| 0 <= i < t.len() implies pred(#[trigger] t[i]) by {
        if squeeze(y).0.len() == 0 {
            s.lemma_filter_pred(pred, i);
        } else if t[i] != ' ' {
            let j = choose|j: int| 0 <= j < y.len() && y[j] == t[i];
            s.lemma_filter_pred(pred, j);
        }
    }
    lemma_filter_keeps_all(t, pred);
    if squeeze(y).0.len() != 0 {
        lemma_squeeze_prefix(t, t.len() as int);
        assert(t.subrange(0, t.len() as int) == t);
    }
}

} // verus!
