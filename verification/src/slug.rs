//! Slugs: URL-safe names derived from post titles.
//!
//! A slug is the lowercased title with spaces turned into dashes, every
//! character that is neither alphanumeric nor a dash dropped, and dashes
//! trimmed from both ends. `slug_of` states the whole derivation.

use vstd::prelude::*;

use vstd::string::StrSliceExecFns;

verus! {

/// What lowercasing a string yields, a function of its characters alone.
pub uninterp spec fn lower_of(s: Seq<char>) -> Seq<char>;

/// Relies on str::to_lowercase: the Unicode lowercase mapping of the
/// characters, and nothing for an empty string. Its output is a fixed
/// point of the mapping — lowercasing leaves no character that another
/// pass would change — so `lower_of` is idempotent on what it returns.
#[verifier::external_body]
fn lowercase(s: &str) -> (r: String)
    ensures
        r@ == lower_of(s@),
        lower_of(r@) == r@,
        s@.len() == 0 ==> r@.len() == 0,
{
    s.to_lowercase()
}

/// Whether a character counts as alphanumeric, a property of the character
/// alone.
pub uninterp spec fn is_alphanumeric_char(c: char) -> bool;

/// Relies on char::is_alphanumeric: the Unicode alphanumeric property of
/// the character.
#[verifier::external_body]
fn char_alphanumeric(c: char) -> (r: bool)
    ensures
        r == is_alphanumeric_char(c),
{
    c.is_alphanumeric()
}

/// A space becomes a dash; every other character stands as it is.
pub open spec fn slug_char(c: char) -> char {
    if c == ' ' {
        '-'
    } else {
        c
    }
}

/// Whether a slug keeps a (mapped) character: alphanumeric or dash.
pub open spec fn slug_keeps(c: char) -> bool {
    is_alphanumeric_char(c) || c == '-'
}

/// The kept, mapped characters of a sequence, in order.
pub open spec fn slug_core(s: Seq<char>) -> Seq<char>
    decreases s.len(),
{
    if s.len() == 0 {
        Seq::empty()
    } else {
        let rest = slug_core(s.drop_last());
        if slug_keeps(slug_char(s.last())) {
            rest.push(slug_char(s.last()))
        } else {
            rest
        }
    }
}

/// A sequence with its leading dashes dropped.
pub open spec fn drop_leading_dashes(s: Seq<char>) -> Seq<char>
    decreases s.len(),
{
    if s.len() > 0 && s.first() == '-' {
        drop_leading_dashes(s.drop_first())
    } else {
        s
    }
}

/// A sequence with its trailing dashes dropped.
pub open spec fn drop_trailing_dashes(s: Seq<char>) -> Seq<char>
    decreases s.len(),
{
    if s.len() > 0 && s.last() == '-' {
        drop_trailing_dashes(s.drop_last())
    } else {
        s
    }
}

/// The slug of a title: lowercase, spaces to dashes, keep alphanumerics
/// and dashes, trim dashes at both ends.
pub open spec fn slug_of(title: Seq<char>) -> Seq<char> {
    drop_trailing_dashes(drop_leading_dashes(slug_core(lower_of(title))))
}

/// When the first `k` characters are dashes and the next one is not,
/// dropping leading dashes is dropping exactly those `k`.
proof fn lemma_drop_leading(s: Seq<char>, k: int)
    requires
        0 <= k <= s.len(),
        forall|j: int| 0 <= j < k ==> s[j] == '-',
        k == s.len() || s[k] != '-',
    ensures
        drop_leading_dashes(s) == s.subrange(k, s.len() as int),
    decreases k,
{
    if k == 0 {
        assert(s.subrange(0, s.len() as int) =~= s);
    } else {
        assert(s.first() == '-');
        lemma_drop_leading(s.drop_first(), k - 1);
        assert(s.drop_first().subrange(k - 1, s.drop_first().len() as int) =~= s.subrange(
            k,
            s.len() as int,
        ));
    }
}

/// When everything from position `e` on is a dash and the character before
/// `e` is not, dropping trailing dashes is cutting exactly at `e`.
proof fn lemma_drop_trailing(s: Seq<char>, e: int)
    requires
        0 <= e <= s.len(),
        forall|j: int| e <= j < s.len() ==> s[j] == '-',
        e == 0 || s[e - 1] != '-',
    ensures
        drop_trailing_dashes(s) == s.subrange(0, e),
    decreases s.len() - e,
{
    if e == s.len() {
        if s.len() > 0 && s.last() == '-' {
            assert(false);
        }
        assert(s.subrange(0, e) =~= s);
    } else {
        assert(s.last() == '-');
        lemma_drop_trailing(s.drop_last(), e);
        assert(s.drop_last().subrange(0, e) =~= s.subrange(0, e));
    }
}

/// The slug of a title, as `slug_of` states it.
pub fn generate_slug(title: &str) -> (r: String)
    ensures
        r@ == slug_of(title@),
{
    let lowered = lowercase(title);
    let s = lowered.as_str();
    let n = s.unicode_len();
    let mut kept: Vec<char> = Vec::new();
    let mut i: usize = 0;
    while i < n
        invariant
            i <= n,
            n == s@.len(),
            s@ == lower_of(title@),
            kept@ == slug_core(s@.subrange(0, i as int)),
        decreases n - i,
    {
        let c = s.get_char(i);
        let d = if c == ' ' {
            '-'
        } else {
            c
        };
        if char_alphanumeric(d) || d == '-' {
            kept.push(d);
        }
        proof {
            assert(s@.subrange(0, i + 1).drop_last() =~= s@.subrange(0, i as int));
            assert(s@.subrange(0, i + 1).last() == s@[i as int]);
        }
        i = i + 1;
    }
    proof {
        assert(s@.subrange(0, n as int) =~= s@);
    }
    let len = kept.len();
    let mut start: usize = 0;
    while start < len && kept[start] == '-'
        invariant
            start <= len,
            len == kept@.len(),
            forall|j: int| 0 <= j < start ==> kept@[j] == '-',
        decreases len - start,
    {
        start = start + 1;
    }
    let mut end: usize = len;
    while end > start && kept[end - 1] == '-'
        invariant
            start <= end <= len,
            len == kept@.len(),
            forall|j: int| end <= j < len ==> kept@[j] == '-',
        decreases end,
    {
        end = end - 1;
    }
    let mut out: Vec<char> = Vec::new();
    let mut j: usize = start;
    while j < end
        invariant
            start <= j <= end <= len,
            len == kept@.len(),
            out@ == kept@.subrange(start as int, j as int),
        decreases end - j,
    {
        out.push(kept[j]);
        proof {
            assert(kept@.subrange(start as int, j + 1).drop_last() =~= kept@.subrange(
                start as int,
                j as int,
            ));
        }
        j = j + 1;
    }
    proof {
        let t = kept@;
        lemma_drop_leading(t, start as int);
        let u = t.subrange(start as int, len as int);
        assert(forall|j: int|
            end - start <= j < u.len() ==> u[j] == '-') by {
            assert(forall|j: int| end <= j < len ==> t[j] == '-');
        }
        lemma_drop_trailing(u, end - start as int);
        assert(u.subrange(0, end - start as int) =~= t.subrange(start as int, end as int));
        assert(out@ == t.subrange(start as int, end as int));
    }
    chars_to_string(&out)
}

/// Relies on String's FromIterator implementation: the characters,
/// collected in order.
#[verifier::external_body]
pub(crate) fn chars_to_string(v: &Vec<char>) -> (r: String)
    ensures
        r@ == v@,
{
    v.iter().collect()
}

} // verus!
