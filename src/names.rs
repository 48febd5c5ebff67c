use vstd::prelude::*;
use vstd::string::StrSliceExecFns;

verus! {

/// A path separator: `/` or `\`.
pub open spec fn is_separator(c: char) -> bool {
    c == '/' || c == '\\'
}

/// `k` is the index of the first `.` of `s`, or its length when it has none.
pub open spec fn is_first_dot(s: Seq<char>, k: int) -> bool {
    &&& 0 <= k <= s.len()
    &&& forall|i: int| 0 <= i < k ==> #[trigger] s[i] != '.'
    &&& k < s.len() ==> s[k] == '.'
}

/// `k` is one past the last separator of `s`, or 0 when it has none.
pub open spec fn is_after_last_separator(s: Seq<char>, k: int) -> bool {
    &&& 0 <= k <= s.len()
    &&& forall|i: int| k <= i < s.len() ==> !is_separator(#[trigger] s[i])
    &&& k > 0 ==> is_separator(s[k - 1])
}

/// The index of the first `.` of `s`, or its length.
pub open spec fn first_dot(s: Seq<char>) -> int {
    choose|k: int| is_first_dot(s, k)
}

/// One past the last separator of `s`, or 0.
pub open spec fn after_last_separator(s: Seq<char>) -> int {
    choose|k: int| is_after_last_separator(s, k)
}

/// `s` without its first `.` and all that follows.
pub open spec fn strip_extension(s: Seq<char>) -> Seq<char> {
    s.subrange(0, first_dot(s))
}

/// The last component of `s`: what follows its last separator.
pub open spec fn last_component(s: Seq<char>) -> Seq<char> {
    s.subrange(after_last_separator(s), s.len() as int)
}

/// The icon-state name of an image path: its last component, cut at the
/// first `.` of the whole path.
pub open spec fn state_name(path: Seq<char>) -> Seq<char> {
    last_component(strip_extension(path))
}

/// The directory part of a path: what precedes its last separator, or `.`
/// when it has none.
pub open spec fn directory_of(path: Seq<char>) -> Seq<char> {
    let k = after_last_separator(path);
    if k == 0 { seq!['.'] } else { path.subrange(0, k - 1) }
}

/// Only one index is the first `.`.
pub proof fn lemma_first_dot_unique(s: Seq<char>, k: int)
    requires
        is_first_dot(s, k),
    ensures
        first_dot(s) == k,
{
    let j = first_dot(s);
    assert(is_first_dot(s, j));
    if j < k {
        assert(s[j] != '.');
    } else if k < j {
        assert(s[k] != '.');
    }
}

/// Only one index is one past the last separator.
pub proof fn lemma_after_last_separator_unique(s: Seq<char>, k: int)
    requires
        is_after_last_separator(s, k),
    ensures
        after_last_separator(s) == k,
{
    let j = after_last_separator(s);
    assert(is_after_last_separator(s, j));
    if j < k {
        assert(!is_separator(s[k - 1]));
    } else if k < j {
        assert(!is_separator(s[j - 1]));
    }
}

fn find_first_dot(s: &str) -> (k: usize)
    ensures
        is_first_dot(s@, k as int),
        first_dot(s@) == k,
{
    let n = s.unicode_len();
    let mut k: usize = 0;
    while k < n
        invariant
            n == s@.len(),
            k <= n,
            forall|i: int| 0 <= i < k ==> #[trigger] s@[i] != '.',
        decreases n - k,
    {
        if s.get_char(k) == '.' {
            proof { lemma_first_dot_unique(s@, k as int); }
            return k;
        }
        k += 1;
    }
    proof { lemma_first_dot_unique(s@, k as int); }
    k
}

fn find_after_last_separator(s: &str) -> (k: usize)
    ensures
        is_after_last_separator(s@, k as int),
        after_last_separator(s@) == k,
{
    let n = s.unicode_len();
    let mut k: usize = n;
    while k > 0
        invariant
            n == s@.len(),
            k <= n,
            forall|i: int| k <= i < n ==> !is_separator(#[trigger] s@[i]),
        decreases k,
    {
        let c = s.get_char(k - 1);
        if c == '/' || c == '\\' {
            proof { lemma_after_last_separator_unique(s@, k as int); }
            return k;
        }
        k -= 1;
    }
    proof { lemma_after_last_separator_unique(s@, k as int); }
    k
}

/// Keeps what follows the last `/` or `\` of `text`, dropping the rest.
pub fn trim_path_before_last_slash(text: String) -> (r: String)
    ensures
        r@ == last_component(text@),
{
    let k = find_after_last_separator(text.as_str());
    let n = text.as_str().unicode_len();
    text.as_str().substring_char(k, n).to_owned()
}

/// The icon-state name of an image path: cut at the first `.`, then keep
/// the last path component (`"a/b/c.png"` gives `"c"`).
pub fn derive_state_name(path: &str) -> (r: String)
    ensures
        r@ == state_name(path@),
{
    let k = find_first_dot(path);
    let stem = path.substring_char(0, k).to_owned();
    trim_path_before_last_slash(stem)
}

/// The directory of `caller_path`: what precedes its last `/` or `\`, or
/// `.` when it has none.
pub fn config_dir(caller_path: &str) -> (r: String)
    ensures
        r@ == directory_of(caller_path@),
{
    let k = find_after_last_separator(caller_path);
    if k == 0 {
        let dot = ".".to_owned();
        proof { reveal_strlit("."); }
        dot
    } else {
        caller_path.substring_char(0, k - 1).to_owned()
    }
}

} // verus!
