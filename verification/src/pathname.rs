//! Pathname and character-sequence helpers the pipeline decisions are built
//! from. Paths are plain strings; joining appends the platform's separator.

use vstd::prelude::*;
use crate::config::Platform;

verus! {

/// Both platform families accept these as path separators.
pub open spec fn is_sep_char(c: char) -> bool {
    c == '/' || c == '\\'
}

/// The separator the platform's own tools write.
pub open spec fn spec_sep(platform: Platform) -> Seq<char> {
    match platform {
        Platform::Posix => "/"@,
        Platform::Windows => "\\"@,
    }
}

/// `base`, the platform separator, then `component`.
pub open spec fn spec_join(platform: Platform, base: Seq<char>, component: Seq<char>) -> Seq<char> {
    base + spec_sep(platform) + component
}

/// Join one component onto a base path with the platform's separator.
pub fn join(platform: Platform, base: &str, component: &str) -> (r: String)
    ensures
        r@ == spec_join(platform, base@, component@),
{
    let mut out = String::from_str(base);
    match platform {
        Platform::Posix => out.append("/"),
        Platform::Windows => out.append("\\"),
    }
    out.append(component);
    out
}

/// `s` ends in `suffix`.
pub open spec fn spec_ends_with(s: Seq<char>, suffix: Seq<char>) -> bool {
    suffix.len() <= s.len() && s.subrange(s.len() - suffix.len(), s.len() as int) == suffix
}

/// Whether `s` ends in `suffix`.
pub fn ends_with(s: &str, suffix: &str) -> (r: bool)
    ensures
        r == spec_ends_with(s@, suffix@),
{
    let n = s.unicode_len();
    let m = suffix.unicode_len();
    if m > n {
        return false;
    }
    let mut i: usize = 0;
    while i < m
        invariant
            m <= n,
            n == s@.len(),
            m == suffix@.len(),
            i <= m,
            forall|j: int| 0 <= j < i ==> s@[n - m + j] == suffix@[j],
        decreases m - i,
    {
        if s.get_char(n - m + i) != suffix.get_char(i) {
            proof {
                let tail = s@.subrange(s@.len() - m, s@.len() as int);
                assert(tail[i as int] == s@[n - m + i]);
            }
            return false;
        }
        i = i + 1;
    }
    proof {
        assert(s@.subrange(s@.len() - m, s@.len() as int) =~= suffix@);
    }
    true
}

/// The character sequences of a sequence of strings.
pub open spec fn str_views(v: Seq<String>) -> Seq<Seq<char>> {
    v.map(|i: int, s: String| s@)
}

/// `s` begins with `prefix`.
pub open spec fn spec_starts_with(s: Seq<char>, prefix: Seq<char>) -> bool {
    prefix.len() <= s.len() && s.subrange(0, prefix.len() as int) == prefix
}

/// Whether `s` begins with `prefix`.
pub fn starts_with(s: &str, prefix: &str) -> (r: bool)
    ensures
        r == spec_starts_with(s@, prefix@),
{
    let n = s.unicode_len();
    let m = prefix.unicode_len();
    if m > n {
        return false;
    }
    matches_at(s, prefix, 0)
}

/// `needle` occurs somewhere in `s`.
pub open spec fn spec_contains(s: Seq<char>, needle: Seq<char>) -> bool {
    exists|i: int|
        0 <= i && i + needle.len() <= s.len() && #[trigger] s.subrange(i, i + needle.len())
            == needle
}

/// Whether `needle` is exactly the slice of `s` that starts at `i`.
fn matches_at(s: &str, needle: &str, i: usize) -> (r: bool)
    requires
        i + needle@.len() <= s@.len(),
    ensures
        r == (s@.subrange(i as int, i + needle@.len()) == needle@),
{
    let m = needle.unicode_len();
    let n = s.unicode_len();
    let mut j: usize = 0;
    while j < m
        invariant
            m == needle@.len(),
            n == s@.len(),
            i + m <= n,
            j <= m,
            forall|t: int| 0 <= t < j ==> s@[i + t] == needle@[t],
        decreases m - j,
    {
        if s.get_char(i + j) != needle.get_char(j) {
            proof {
                let window = s@.subrange(i as int, i + needle@.len());
                assert(window[j as int] == s@[i + j]);
            }
            return false;
        }
        j = j + 1;
    }
    proof {
        let window = s@.subrange(i as int, i + needle@.len());
        assert forall|t: int| 0 <= t < needle@.len() implies window[t] == needle@[t] by {
            assert(s@[i + t] == needle@[t]);
        }
        assert(window =~= needle@);
    }
    true
}

/// Whether `needle` occurs somewhere in `s`.
pub fn contains(s: &str, needle: &str) -> (r: bool)
    ensures
        r == spec_contains(s@, needle@),
{
    let n = s.unicode_len();
    let m = needle.unicode_len();
    if m > n {
        return false;
    }
    if m == 0 {
        proof {
            let w = s@.subrange(0, 0 + needle@.len() as int);
            assert(w =~= needle@);
        }
        return true;
    }
    let mut i: usize = 0;
    while i <= n - m
        invariant
            1 <= m <= n,
            n == s@.len(),
            m == needle@.len(),
            i <= n - m + 1,
            forall|k: int|
                0 <= k < i ==> #[trigger] s@.subrange(k, k + needle@.len()) != needle@,
        decreases n - i,
    {
        if matches_at(s, needle, i) {
            return true;
        }
        i = i + 1;
    }
    false
}

/// The last path component of `s`: the characters after the last separator,
/// or all of `s` when it holds none.
pub open spec fn file_name_of(s: Seq<char>) -> Seq<char>
    decreases s.len(),
{
    if s.len() == 0 {
        s
    } else if is_sep_char(s[s.len() - 1]) {
        Seq::<char>::empty()
    } else {
        file_name_of(s.take(s.len() - 1)) + seq![s[s.len() - 1]]
    }
}

/// A suffix of `s` that starts right after a separator (or at the start of
/// `s`) and holds no separator is exactly the last component.
proof fn lemma_file_name_suffix(s: Seq<char>, k: int)
    requires
        0 <= k <= s.len(),
        forall|j: int| k <= j < s.len() ==> !is_sep_char(s[j]),
        k == 0 || is_sep_char(s[k - 1]),
    ensures
        file_name_of(s) == s.subrange(k, s.len() as int),
    decreases s.len(),
{
    if s.len() == k {
        if k == 0 {
            assert(file_name_of(s) =~= s.subrange(k, s.len() as int));
        } else {
            assert(is_sep_char(s[s.len() - 1]));
            assert(file_name_of(s) =~= s.subrange(k, s.len() as int));
        }
    } else {
        assert(!is_sep_char(s[s.len() - 1]));
        let head = s.take(s.len() - 1);
        lemma_file_name_suffix(head, k);
        assert(file_name_of(s) == file_name_of(head) + seq![s[s.len() - 1]]);
        assert(head.subrange(k, head.len() as int) + seq![s[s.len() - 1]] =~= s.subrange(
            k,
            s.len() as int,
        ));
    }
}

/// The last path component of `path`.
pub fn file_name(path: &str) -> (r: String)
    ensures
        r@ == file_name_of(path@),
{
    let n = path.unicode_len();
    let mut start: usize = 0;
    let mut i: usize = 0;
    while i < n
        invariant
            n == path@.len(),
            i <= n,
            start <= i,
            forall|j: int| start <= j < i ==> !is_sep_char(path@[j]),
            start == 0 || is_sep_char(path@[start - 1]),
        decreases n - i,
    {
        let c = path.get_char(i);
        if c == '/' || c == '\\' {
            start = i + 1;
        }
        i = i + 1;
    }
    proof {
        lemma_file_name_suffix(path@, start as int);
    }
    let tail = path.substring_char(start, n);
    String::from_str(tail)
}

} // verus!
