//! Text helpers: Unicode whitespace, blank tests, trimming and equality.

use vstd::prelude::*;
use vstd::string::StrSliceExecFns;
use vstd::string::StringExecFns;

verus! {

/// The Unicode `White_Space` property, the definition that `str::trim` and
/// `char::is_whitespace` use.
pub open spec fn spec_is_whitespace(c: char) -> bool {
    let u = c as u32;
    ||| 0x09 <= u <= 0x0d
    ||| u == 0x20
    ||| u == 0x85
    ||| u == 0xa0
    ||| u == 0x1680
    ||| 0x2000 <= u <= 0x200a
    ||| u == 0x2028
    ||| u == 0x2029
    ||| u == 0x202f
    ||| u == 0x205f
    ||| u == 0x3000
}

/// A text is blank when every character of it is whitespace (the empty text included).
pub open spec fn spec_is_blank(s: Seq<char>) -> bool {
    forall|i: int| 0 <= i < s.len() ==> spec_is_whitespace(#[trigger] s[i])
}

/// Whether `c` is Unicode whitespace.
pub fn is_whitespace(c: char) -> (res: bool)
    ensures
        res == spec_is_whitespace(c),
{
    let u = c as u32;
    (0x09 <= u && u <= 0x0d) || u == 0x20 || u == 0x85 || u == 0xa0 || u == 0x1680 || (0x2000
        <= u && u <= 0x200a) || u == 0x2028 || u == 0x2029 || u == 0x202f || u == 0x205f || u
        == 0x3000
}

/// Whether `s` holds only whitespace, i.e. `s.trim().is_empty()`.
pub fn is_blank(s: &str) -> (res: bool)
    ensures
        res == spec_is_blank(s@),
{
    let n = s.unicode_len();
    let mut i: usize = 0;
    while i < n
        invariant
            n == s@.len(),
            i <= n,
            forall|j: int| 0 <= j < i ==> spec_is_whitespace(#[trigger] s@[j]),
        decreases n - i,
    {
        if !is_whitespace(s.get_char(i)) {
            return false;
        }
        i = i + 1;
    }
    true
}

/// `s` without its leading whitespace.
pub open spec fn spec_trim_start(s: Seq<char>) -> Seq<char>
    decreases s.len(),
{
    if s.len() > 0 && spec_is_whitespace(s[0]) {
        spec_trim_start(s.drop_first())
    } else {
        s
    }
}

/// `s` without its trailing whitespace.
pub open spec fn spec_trim_end(s: Seq<char>) -> Seq<char>
    decreases s.len(),
{
    if s.len() > 0 && spec_is_whitespace(s.last()) {
        spec_trim_end(s.drop_last())
    } else {
        s
    }
}

/// `s` without leading and trailing whitespace, as `str::trim` returns it.
pub open spec fn spec_trim(s: Seq<char>) -> Seq<char> {
    spec_trim_end(spec_trim_start(s))
}

/// A blank text trims to nothing, and a text that trims to nothing is blank.
pub proof fn lemma_trim_empty_iff_blank(s: Seq<char>)
    ensures
        spec_trim(s).len() == 0 <==> spec_is_blank(s),
    decreases s.len(),
{
    if s.len() > 0 && spec_is_whitespace(s[0]) {
        lemma_trim_empty_iff_blank(s.drop_first());
        assert(spec_is_blank(s) <==> spec_is_blank(s.drop_first())) by {
            if spec_is_blank(s.drop_first()) {
                assert forall|i: int| 0 <= i < s.len() implies spec_is_whitespace(#[trigger] s[i]) by {
                    if i > 0 {
                        assert(s[i] == s.drop_first()[i - 1]);
                    }
                }
            }
            if spec_is_blank(s) {
                assert forall|i: int| 0 <= i < s.drop_first().len() implies spec_is_whitespace(
                    #[trigger] s.drop_first()[i],
                ) by {
                    assert(s.drop_first()[i] == s[i + 1]);
                }
            }
        }
    } else {
        if s.len() > 0 {
            assert(!spec_is_whitespace(s[0]));
            lemma_trim_end_keeps_first(s);
        }
    }
}

/// A trimmed text is blank only when it is empty.
pub proof fn lemma_trim_idempotent_blank(s: Seq<char>)
    ensures
        spec_is_blank(spec_trim(s)) ==> spec_trim(s).len() == 0,
{
    lemma_trim_start_shape(s);
    let t = spec_trim_start(s);
    lemma_trim_end_shape(t);
    let u = spec_trim_end(t);
    if u.len() > 0 {
        assert(!spec_is_whitespace(u.last()));
    }
}

/// The trimmed start of a text does not begin with whitespace.
proof fn lemma_trim_start_shape(s: Seq<char>)
    ensures
        spec_trim_start(s).len() > 0 ==> !spec_is_whitespace(spec_trim_start(s)[0]),
    decreases s.len(),
{
    if s.len() > 0 && spec_is_whitespace(s[0]) {
        lemma_trim_start_shape(s.drop_first());
    }
}

/// The trimmed end of a text does not end with whitespace.
proof fn lemma_trim_end_shape(s: Seq<char>)
    ensures
        spec_trim_end(s).len() > 0 ==> !spec_is_whitespace(spec_trim_end(s).last()),
    decreases s.len(),
{
    if s.len() > 0 && spec_is_whitespace(s.last()) {
        lemma_trim_end_shape(s.drop_last());
    }
}

/// Trimming the end of a text whose first character is not whitespace keeps that character.
proof fn lemma_trim_end_keeps_first(s: Seq<char>)
    requires
        s.len() > 0,
        !spec_is_whitespace(s[0]),
    ensures
        spec_trim_end(s).len() > 0,
        spec_trim_end(s)[0] == s[0],
    decreases s.len(),
{
    if spec_is_whitespace(s.last()) {
        assert(s.len() > 1);
        assert(s.drop_last()[0] == s[0]);
        lemma_trim_end_keeps_first(s.drop_last());
    }
}

/// Trimming the start cuts off a blank prefix: what is left is `s` from
/// some index `i` on, and everything before `i` is whitespace.
proof fn lemma_trim_start_cut(s: Seq<char>) -> (i: int)
    ensures
        0 <= i <= s.len(),
        spec_trim_start(s) == s.subrange(i, s.len() as int),
        spec_is_blank(s.subrange(0, i)),
    decreases s.len(),
{
    if s.len() > 0 && spec_is_whitespace(s[0]) {
        let rest = s.drop_first();
        let k = lemma_trim_start_cut(rest);
        assert(rest.subrange(k, rest.len() as int) =~= s.subrange(k + 1, s.len() as int));
        assert forall|m: int| 0 <= m < k + 1 implies spec_is_whitespace(#[trigger] s.subrange(0, k + 1)[m]) by {
            if m > 0 {
                assert(s.subrange(0, k + 1)[m] == rest.subrange(0, k)[m - 1]);
            }
        }
        k + 1
    } else {
        assert(s.subrange(0, s.len() as int) =~= s);
        assert(s.subrange(0, 0).len() == 0);
        0
    }
}

/// Trimming the end cuts off a blank suffix: what is left is `s` up to
/// some index `j`, and everything from `j` on is whitespace.
proof fn lemma_trim_end_cut(s: Seq<char>) -> (j: int)
    ensures
        0 <= j <= s.len(),
        spec_trim_end(s) == s.subrange(0, j),
        spec_is_blank(s.subrange(j, s.len() as int)),
    decreases s.len(),
{
    if s.len() > 0 && spec_is_whitespace(s.last()) {
        let rest = s.drop_last();
        let k = lemma_trim_end_cut(rest);
        assert(rest.subrange(0, k) =~= s.subrange(0, k));
        assert forall|m: int|
            0 <= m < s.len() - k implies spec_is_whitespace(#[trigger] s.subrange(k, s.len() as int)[m]) by {
            if m < rest.len() - k {
                assert(s.subrange(k, s.len() as int)[m] == rest.subrange(k, rest.len() as int)[m]);
            } else {
                assert(s.subrange(k, s.len() as int)[m] == s.last());
            }
        }
        k
    } else {
        assert(s.subrange(0, s.len() as int) =~= s);
        s.len() as int
    }
}

/// What trimming does: it removes a blank prefix and a blank suffix and
/// nothing else, and a non-empty result neither begins nor ends with
/// whitespace.
pub proof fn lemma_trim_cuts(s: Seq<char>)
    ensures
        exists|i: int, j: int|
            0 <= i <= j <= s.len() && #[trigger] s.subrange(i, j) == spec_trim(s) && spec_is_blank(
                s.subrange(0, i),
            ) && spec_is_blank(s.subrange(j, s.len() as int)),
        spec_trim(s).len() > 0 ==> !spec_is_whitespace(spec_trim(s)[0]) && !spec_is_whitespace(
            spec_trim(s).last(),
        ),
{
    let i = lemma_trim_start_cut(s);
    let t = spec_trim_start(s);
    let j = lemma_trim_end_cut(t);
    assert(t.subrange(0, j) =~= s.subrange(i, i + j));
    assert(t.subrange(j, t.len() as int) =~= s.subrange(i + j, s.len() as int));
    assert(s.subrange(i, i + j) == spec_trim(s));
    lemma_trim_start_shape(s);
    lemma_trim_end_shape(t);
    if spec_trim(s).len() > 0 {
        lemma_trim_end_keeps_first(t);
    }
}

/// Whether `a` and `b` hold the same characters.
pub fn str_eq(a: &str, b: &str) -> (res: bool)
    ensures
        res == (a@ == b@),
{
    let n = a.unicode_len();
    let m = b.unicode_len();
    if n != m {
        return false;
    }
    let mut i: usize = 0;
    while i < n
        invariant
            n == a@.len(),
            m == b@.len(),
            n == m,
            i <= n,
            forall|j: int| 0 <= j < i ==> a@[j] == b@[j],
        decreases n - i,
    {
        if a.get_char(i) != b.get_char(i) {
            return false;
        }
        i = i + 1;
    }
    assert(a@ =~= b@);
    true
}

/// `s` with leading and trailing whitespace removed (`str::trim`), as an owned text.
pub fn trim(s: &str) -> (res: String)
    ensures
        res@ == spec_trim(s@),
{
    let n = s.unicode_len();
    let mut i: usize = 0;
    assert(s@.subrange(0, n as int) =~= s@);
    while i < n && is_whitespace(s.get_char(i))
        invariant
            n == s@.len(),
            i <= n,
            spec_trim_start(s@) == spec_trim_start(s@.subrange(i as int, n as int)),
        decreases n - i,
    {
        assert(s@.subrange(i as int, n as int).drop_first() =~= s@.subrange(i + 1, n as int));
        i = i + 1;
    }
    assert(spec_trim_start(s@) == s@.subrange(i as int, n as int)) by {
        if i < n {
            assert(s@.subrange(i as int, n as int)[0] == s@[i as int]);
        }
    }
    let mut j: usize = n;
    while j > i && is_whitespace(s.get_char(j - 1))
        invariant
            n == s@.len(),
            i <= j <= n,
            spec_trim(s@) == spec_trim_end(s@.subrange(i as int, j as int)),
        decreases j - i,
    {
        assert(s@.subrange(i as int, j as int).drop_last() =~= s@.subrange(i as int, j - 1));
        j = j - 1;
    }
    assert(spec_trim(s@) == s@.subrange(i as int, j as int)) by {
        if j > i {
            assert(s@.subrange(i as int, j as int).last() == s@[j - 1]);
        }
    }
    let t = s.substring_char(i, j);
    String::from_str(t)
}

/// An optional text, kept only when it holds something other than whitespace.
pub open spec fn non_blank_view(value: Option<Seq<char>>) -> Option<Seq<char>> {
    match value {
        Some(v) => if spec_is_blank(v) {
            None
        } else {
            Some(v)
        },
        None => None,
    }
}

/// `value` when it holds something other than whitespace; `None` otherwise
/// (`value.filter(|s| !s.trim().is_empty())`).
pub fn non_blank(value: Option<String>) -> (res: Option<String>)
    ensures
        match value {
            Some(v) => if spec_is_blank(v@) { res is None } else { res == Some(v) },
            None => res is None,
        },
{
    match value {
        Some(v) => {
            if is_blank(v.as_str()) {
                None
            } else {
                Some(v)
            }
        },
        None => None,
    }
}

} // verus!
