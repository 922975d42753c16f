//! Character-level helpers on strings, each proved against its `Seq<char>` statement.
use vstd::prelude::*;

verus! {

/// `s` begins with `p`.
pub open spec fn has_prefix(s: Seq<char>, p: Seq<char>) -> bool {
    p.len() <= s.len() && s.subrange(0, p.len() as int) == p
}

/// `p` occurs in `s` starting at index `i`.
pub open spec fn occurs_at(s: Seq<char>, p: Seq<char>, i: int) -> bool {
    0 <= i && i + p.len() <= s.len() && s.subrange(i, i + p.len()) == p
}

/// `p` occurs somewhere in `s`.
pub open spec fn has_infix(s: Seq<char>, p: Seq<char>) -> bool {
    exists|i: int| occurs_at(s, p, i)
}

/// `s` with every colon turned into a slash.
pub open spec fn colons_to_slashes(s: Seq<char>) -> Seq<char> {
    s.map_values(|c: char| if c == ':' { '/' } else { c })
}

/// The index of the last `c` in `s`, if any.
pub open spec fn last_index_of(s: Seq<char>, c: char) -> Option<int> {
    if exists|i: int| 0 <= i < s.len() && s[i] == c {
        Some(choose|i: int| 0 <= i < s.len() && s[i] == c && forall|j: int| i < j < s.len() ==> s[j] != c)
    } else {
        None
    }
}

/// Whether `p` occurs in `s` at index `i`.
pub fn occurs_at_exec(s: &str, p: &str, i: usize) -> (r: bool)
    ensures
        r == occurs_at(s@, p@, i as int),
{
    let n = s.unicode_len();
    let m = p.unicode_len();
    if i > n || m > n - i {
        return false;
    }
    let mut k: usize = 0;
    while k < m
        invariant
            n == s@.len(),
            m == p@.len(),
            i + m <= n,
            k <= m,
            forall|j: int| 0 <= j < k ==> s@[i + j] == p@[j],
        decreases m - k,
    {
        if s.get_char(i + k) != p.get_char(k) {
            assert(s@.subrange(i as int, i + m)[k as int] != p@[k as int]);
            return false;
        }
        k = k + 1;
    }
    assert(s@.subrange(i as int, i + m) =~= p@);
    true
}

/// Whether `s` begins with `p`.
pub fn starts_with(s: &str, p: &str) -> (r: bool)
    ensures
        r == has_prefix(s@, p@),
{
    occurs_at_exec(s, p, 0)
}

/// Whether `s` and `t` hold the same characters.
pub fn same_text(s: &str, t: &str) -> (r: bool)
    ensures
        r == (s@ == t@),
{
    if s.unicode_len() != t.unicode_len() {
        return false;
    }
    let r = starts_with(s, t);
    assert(s@ =~= s@.subrange(0, t@.len() as int));
    r
}

/// Whether `p` occurs anywhere in `s`.
pub fn contains(s: &str, p: &str) -> (r: bool)
    ensures
        r == has_infix(s@, p@),
{
    let n = s.unicode_len();
    let mut i: usize = 0;
    while i <= n
        invariant
            n == s@.len(),
            forall|j: int| 0 <= j < i ==> !occurs_at(s@, p@, j),
        decreases n + 1 - i,
    {
        if occurs_at_exec(s, p, i) {
            return true;
        }
        if i == n {
            assert forall|j: int| !occurs_at(s@, p@, j) by {
                if j > n {
                    assert(!occurs_at(s@, p@, j));
                }
            }
            return false;
        }
        i = i + 1;
    }
    false
}

/// The index of the last `c` in `s`, if any.
pub fn rfind_char(s: &str, c: char) -> (r: Option<usize>)
    ensures
        r matches Some(i) ==> last_index_of(s@, c) == Some(i as int) && i < s@.len() && s@[i as int] == c,
        r is None ==> last_index_of(s@, c) is None,
{
    let n = s.unicode_len();
    let mut i: usize = n;
    while i > 0
        invariant
            n == s@.len(),
            i <= n,
            forall|j: int| i <= j < n ==> s@[j] != c,
        decreases i,
    {
        if s.get_char(i - 1) == c {
            let k: usize = i - 1;
            assert(0 <= k < s@.len() && s@[k as int] == c && forall|j: int| k < j < s@.len() ==> s@[j] != c);
            proof {
                let w = choose|w: int| 0 <= w < s@.len() && s@[w] == c && forall|j: int| w < j < s@.len() ==> s@[j] != c;
                if w < k {
                    assert(s@[k as int] != c);
                } else if w > k {
                    assert(s@[w] != c);
                }
            }
            return Some(k);
        }
        i = i - 1;
    }
    None
}

/// `s` with every colon turned into a slash.
pub fn replace_colons(s: &str) -> (r: String)
    ensures
        r@ == colons_to_slashes(s@),
{
    let n = s.unicode_len();
    let mut out = String::new();
    let mut i: usize = 0;
    proof {
        reveal_strlit("/");
    }
    while i < n
        invariant
            n == s@.len(),
            i <= n,
            out@ == colons_to_slashes(s@.subrange(0, i as int)),
            "/"@ == seq!['/'],
        decreases n - i,
    {
        let c = s.get_char(i);
        if c == ':' {
            out.append("/");
        } else {
            out.append(s.substring_char(i, i + 1));
        }
        assert(colons_to_slashes(s@.subrange(0, i + 1)) =~= colons_to_slashes(s@.subrange(0, i as int)) + colons_to_slashes(s@.subrange(i as int, i + 1)));
        i = i + 1;
    }
    assert(s@.subrange(0, n as int) =~= s@);
    out
}

/// A character allowed in an element of a D-Bus object path: `[A-Za-z0-9_]`.
pub open spec fn path_element_char(c: char) -> bool {
    ('a' as u32 <= c as u32 && c as u32 <= 'z' as u32)
        || ('A' as u32 <= c as u32 && c as u32 <= 'Z' as u32)
        || ('0' as u32 <= c as u32 && c as u32 <= '9' as u32)
        || c == '_'
}

/// `s` can stand as one element of an object path: non-empty, of allowed characters.
pub open spec fn is_path_element(s: Seq<char>) -> bool {
    s.len() > 0 && forall|i: int| 0 <= i < s.len() ==> path_element_char(#[trigger] s[i])
}

/// `s` is a valid D-Bus object path: a leading slash, then non-empty elements
/// of allowed characters separated by single slashes, with no trailing slash.
pub open spec fn valid_object_path(s: Seq<char>) -> bool {
    &&& s.len() >= 1
    &&& s[0] == '/'
    &&& forall|i: int| 0 <= i < s.len() ==> #[trigger] s[i] == '/' || path_element_char(s[i])
    &&& forall|i: int| 0 <= i < s.len() - 1 && #[trigger] s[i] == '/' ==> s[i + 1] != '/'
    &&& s.len() > 1 ==> s[s.len() - 1] != '/'
}

/// A slash followed by an element is a valid path.
pub proof fn lemma_root_element(b: Seq<char>)
    requires
        is_path_element(b),
    ensures
        valid_object_path(seq!['/'] + b),
{
    let s = seq!['/'] + b;
    assert forall|i: int| 0 <= i < s.len() implies #[trigger] s[i] == '/' || path_element_char(s[i]) by {
        if i > 0 {
            assert(s[i] == b[i - 1]);
        }
    }
    assert forall|i: int| 0 <= i < s.len() - 1 && #[trigger] s[i] == '/' implies s[i + 1] != '/' by {
        if i > 0 {
            assert(s[i] == b[i - 1]);
            assert(path_element_char(b[i - 1]));
        }
        assert(s[i + 1] == b[i]);
        assert(path_element_char(b[i]));
    }
    assert(s[s.len() - 1] == b[b.len() - 1]);
    assert(path_element_char(b[b.len() - 1]));
}

/// A valid path other than the root, extended by a slash and an element, is a
/// valid path.
pub proof fn lemma_extend_path(a: Seq<char>, b: Seq<char>)
    requires
        valid_object_path(a),
        a.len() > 1,
        is_path_element(b),
    ensures
        valid_object_path(a + seq!['/'] + b),
{
    let s = a + seq!['/'] + b;
    let n = a.len();
    assert forall|i: int| 0 <= i < s.len() implies #[trigger] s[i] == '/' || path_element_char(s[i]) by {
        if i < n {
            assert(s[i] == a[i]);
        } else if i > n {
            assert(s[i] == b[i - n - 1]);
        }
    }
    assert forall|i: int| 0 <= i < s.len() - 1 && #[trigger] s[i] == '/' implies s[i + 1] != '/' by {
        if i < n - 1 {
            assert(s[i] == a[i]);
            assert(s[i + 1] == a[i + 1]);
        } else if i == n - 1 {
            assert(s[i] == a[i]);
            assert(a[n - 1] != '/');
        } else if i == n {
            assert(s[i + 1] == b[0]);
            assert(path_element_char(b[0]));
        } else {
            assert(s[i] == b[i - n - 1]);
            assert(path_element_char(b[i - n - 1]));
        }
    }
    assert(s[s.len() - 1] == b[b.len() - 1]);
    assert(path_element_char(b[b.len() - 1]));
}

/// An element holds no colon, so turning colons into slashes leaves it alone.
pub proof fn lemma_element_has_no_colon(b: Seq<char>)
    requires
        is_path_element(b),
    ensures
        colons_to_slashes(b) == b,
{
    assert forall|i: int| 0 <= i < b.len() implies colons_to_slashes(b)[i] == b[i] by {
        assert(path_element_char(b[i]));
    }
    assert(colons_to_slashes(b) =~= b);
}

/// Whether `s` can stand as one element of an object path.
pub fn check_path_element(s: &str) -> (r: bool)
    ensures
        r == is_path_element(s@),
{
    let n = s.unicode_len();
    if n == 0 {
        return false;
    }
    let mut i: usize = 0;
    while i < n
        invariant
            n == s@.len(),
            i <= n,
            forall|j: int| 0 <= j < i ==> path_element_char(#[trigger] s@[j]),
        decreases n - i,
    {
        let c = s.get_char(i);
        let v = c as u32;
        if !((97 <= v && v <= 122) || (65 <= v && v <= 90) || (48 <= v && v <= 57) || c == '_') {
            return false;
        }
        i = i + 1;
    }
    true
}

} // verus!
