//! Whitespace trimming: the single normalization step applied to task titles.
use vstd::prelude::*;
use vstd::string::StrSliceExecFns;

verus! {

/// The Unicode `White_Space` property of a character: the set that
/// `char::is_whitespace`, and with it `str::trim`, tests.
pub open spec fn is_unicode_whitespace(c: char) -> bool {
    let n = c as u32;
    ||| n == 0x20
    ||| (0x09 <= n && n <= 0x0D)
    ||| n == 0x85
    ||| n == 0xA0
    ||| n == 0x1680
    ||| (0x2000 <= n && n <= 0x200A)
    ||| n == 0x2028
    ||| n == 0x2029
    ||| n == 0x202F
    ||| n == 0x205F
    ||| n == 0x3000
}

/// Whether the character has the Unicode `White_Space` property.
fn char_is_whitespace(c: char) -> (r: bool)
    ensures
        r == is_unicode_whitespace(c),
{
    let n = c as u32;
    n == 0x20 || (0x09 <= n && n <= 0x0D) || n == 0x85 || n == 0xA0 || n == 0x1680 || (0x2000 <= n
        && n <= 0x200A) || n == 0x2028 || n == 0x2029 || n == 0x202F || n == 0x205F || n == 0x3000
}

/// The sequence without its leading whitespace.
pub open spec fn trim_leading(s: Seq<char>) -> Seq<char>
    decreases s.len(),
{
    if s.len() > 0 && is_unicode_whitespace(s[0]) {
        trim_leading(s.drop_first())
    } else {
        s
    }
}

/// The sequence without its trailing whitespace.
pub open spec fn trim_trailing(s: Seq<char>) -> Seq<char>
    decreases s.len(),
{
    if s.len() > 0 && is_unicode_whitespace(s[s.len() - 1]) {
        trim_trailing(s.drop_last())
    } else {
        s
    }
}

/// What `str::trim` returns: the input without leading and trailing whitespace.
pub open spec fn trimmed(s: Seq<char>) -> Seq<char> {
    trim_trailing(trim_leading(s))
}

/// Non-empty and free of surrounding whitespace: the shape of every stored title.
pub open spec fn trimmed_nonempty(s: Seq<char>) -> bool {
    s.len() > 0 && !is_unicode_whitespace(s[0]) && !is_unicode_whitespace(s[s.len() - 1])
}

proof fn lemma_trim_leading_at(s: Seq<char>, lo: int)
    requires
        0 <= lo <= s.len(),
        forall|k: int| 0 <= k < lo ==> is_unicode_whitespace(s[k]),
        lo == s.len() || !is_unicode_whitespace(s[lo]),
    ensures
        trim_leading(s) =~= s.subrange(lo, s.len() as int),
    decreases lo,
{
    if lo == 0 {
        assert(s.subrange(0, s.len() as int) =~= s);
    } else {
        let t = s.drop_first();
        lemma_trim_leading_at(t, lo - 1);
        assert(t.subrange(lo - 1, t.len() as int) =~= s.subrange(lo, s.len() as int));
    }
}

proof fn lemma_trim_trailing_at(s: Seq<char>, hi: int)
    requires
        0 <= hi <= s.len(),
        forall|k: int| hi <= k < s.len() ==> is_unicode_whitespace(s[k]),
        hi == 0 || !is_unicode_whitespace(s[hi - 1]),
    ensures
        trim_trailing(s) =~= s.subrange(0, hi),
    decreases s.len(),
{
    if hi == s.len() {
        assert(s.subrange(0, s.len() as int) =~= s);
    } else {
        let t = s.drop_last();
        lemma_trim_trailing_at(t, hi);
        assert(t.subrange(0, hi) =~= s.subrange(0, hi));
    }
}

/// A trimmed sequence is either empty or has no whitespace at either end.
pub proof fn lemma_trimmed_shape(s: Seq<char>)
    ensures
        trimmed(s).len() > 0 ==> trimmed_nonempty(trimmed(s)),
{
    lemma_trim_leading_suffix(s);
    let t = trim_leading(s);
    lemma_trim_trailing_prefix(t);
    let r = trim_trailing(t);
    if r.len() > 0 {
        lemma_trim_trailing_no_trailing(t);
        lemma_trim_leading_no_leading(s);
    }
}

/// Trimming changes nothing on a sequence that is already trimmed and
/// non-empty: there is no other normalization.
pub proof fn lemma_trim_of_trimmed(s: Seq<char>)
    requires
        trimmed_nonempty(s),
    ensures
        trimmed(s) =~= s,
{
    lemma_trim_leading_at(s, 0);
    assert(trim_leading(s) =~= s);
    lemma_trim_trailing_at(s, s.len() as int);
}

proof fn lemma_trim_leading_no_leading(s: Seq<char>)
    ensures
        trim_leading(s).len() > 0 ==> !is_unicode_whitespace(trim_leading(s)[0]),
    decreases s.len(),
{
    if s.len() > 0 && is_unicode_whitespace(s[0]) {
        lemma_trim_leading_no_leading(s.drop_first());
    }
}

proof fn lemma_trim_leading_suffix(s: Seq<char>)
    ensures
        trim_leading(s).len() <= s.len(),
    decreases s.len(),
{
    if s.len() > 0 && is_unicode_whitespace(s[0]) {
        lemma_trim_leading_suffix(s.drop_first());
    }
}

proof fn lemma_trim_trailing_prefix(s: Seq<char>)
    ensures
        trim_trailing(s).len() <= s.len(),
        forall|i: int| 0 <= i < trim_trailing(s).len() ==> trim_trailing(s)[i] == s[i],
    decreases s.len(),
{
    if s.len() > 0 && is_unicode_whitespace(s[s.len() - 1]) {
        let t = s.drop_last();
        lemma_trim_trailing_prefix(t);
        assert forall|i: int| 0 <= i < trim_trailing(s).len() implies trim_trailing(s)[i]
            == s[i] by {
            assert(trim_trailing(s)[i] == t[i]);
        }
    }
}

proof fn lemma_trim_trailing_no_trailing(s: Seq<char>)
    ensures
        trim_trailing(s).len() > 0 ==> !is_unicode_whitespace(
            trim_trailing(s)[trim_trailing(s).len() - 1],
        ),
    decreases s.len(),
{
    if s.len() > 0 && is_unicode_whitespace(s[s.len() - 1]) {
        lemma_trim_trailing_no_trailing(s.drop_last());
    }
}

/// The input without leading and trailing Unicode whitespace, as a fresh
/// `String`.
pub fn trim_str(s: &str) -> (r: String)
    ensures
        r@ == trimmed(s@),
{
    let n = s.unicode_len();
    let mut lo: usize = 0;
    loop
        invariant
            lo <= n,
            n == s@.len(),
            forall|k: int| 0 <= k < lo ==> is_unicode_whitespace(s@[k]),
        ensures
            lo <= n,
            forall|k: int| 0 <= k < lo ==> is_unicode_whitespace(s@[k]),
            lo == n || !is_unicode_whitespace(s@[lo as int]),
        decreases n - lo,
    {
        if lo == n {
            break;
        }
        if !char_is_whitespace(s.get_char(lo)) {
            break;
        }
        lo = lo + 1;
    }
    let mut hi: usize = n;
    loop
        invariant
            lo <= hi <= n,
            n == s@.len(),
            forall|k: int| hi <= k < n ==> is_unicode_whitespace(s@[k]),
        ensures
            lo <= hi <= n,
            forall|k: int| hi <= k < n ==> is_unicode_whitespace(s@[k]),
            hi == lo || !is_unicode_whitespace(s@[hi - 1]),
        decreases hi,
    {
        if hi == lo {
            break;
        }
        if !char_is_whitespace(s.get_char(hi - 1)) {
            break;
        }
        hi = hi - 1;
    }
    let sub = s.substring_char(lo, hi);
    proof {
        lemma_trim_leading_at(s@, lo as int);
        let t = s@.subrange(lo as int, s@.len() as int);
        lemma_trim_trailing_at(t, hi - lo);
        assert(t.subrange(0, hi - lo) =~= s@.subrange(lo as int, hi as int));
    }
    sub.to_owned()
}

} // verus!
