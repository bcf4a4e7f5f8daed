use vstd::prelude::*;
use vstd::string::StrSliceExecFns;
use vstd::string::StringExecFns;

verus! {

/// The characters that Unicode gives the White_Space property, which is what
/// splitting on whitespace runs goes by.
pub open spec fn unicode_white_space(c: char) -> bool {
    let u = c as u32;
    (0x9 <= u && u <= 0xd) || u == 0x20 || u == 0x85 || u == 0xa0 || u == 0x1680 || (0x2000 <= u
        && u <= 0x200a) || u == 0x2028 || u == 0x2029 || u == 0x202f || u == 0x205f || u == 0x3000
}

/// The literal `"PHP"` starts at index `i` of `s`.
pub open spec fn marker_at(s: Seq<char>, i: int) -> bool {
    0 <= i && i + 3 <= s.len() && s[i] == 'P' && s[i + 1] == 'H' && s[i + 2] == 'P'
}

/// The first `"PHP"` of `s` starts at index `i`.
pub open spec fn first_marker_at(s: Seq<char>, i: int) -> bool {
    marker_at(s, i) && forall|j: int| 0 <= j < i ==> !marker_at(s, j)
}

/// What follows the first `"PHP"` of `s`, if `s` holds one.
pub open spec fn after_marker(s: Seq<char>) -> Option<Seq<char>> {
    if exists|i: int| first_marker_at(s, i) {
        let i = choose|i: int| first_marker_at(s, i);
        Some(s.subrange(i + 3, s.len() as int))
    } else {
        None
    }
}

/// `r[a..b]` is the first whitespace-delimited token of `r`: only whitespace
/// comes before it, it holds none, and whitespace or the end comes after it.
pub open spec fn token_span(r: Seq<char>, a: int, b: int) -> bool {
    &&& 0 <= a < b <= r.len()
    &&& forall|j: int| 0 <= j < a ==> unicode_white_space(#[trigger] r[j])
    &&& forall|j: int| a <= j < b ==> !unicode_white_space(#[trigger] r[j])
    &&& b == r.len() || unicode_white_space(r[b])
}

/// The first whitespace-delimited token of `r`; none where `r` is empty or
/// whitespace only.
pub open spec fn first_token(r: Seq<char>) -> Option<Seq<char>> {
    if exists|a: int, b: int| token_span(r, a, b) {
        let (a, b) = choose|a: int, b: int| token_span(r, a, b);
        Some(r.subrange(a, b))
    } else {
        None
    }
}

/// `k` is the index of the first `-` of `t`, or its length where it has none.
pub open spec fn dash_cut(t: Seq<char>, k: int) -> bool {
    &&& 0 <= k <= t.len()
    &&& forall|j: int| 0 <= j < k ==> #[trigger] t[j] != '-'
    &&& k == t.len() || t[k] == '-'
}

/// The part of `t` before its first `-` (all of `t` where it has none).
pub open spec fn before_dash(t: Seq<char>) -> Seq<char> {
    let k = choose|k: int| dash_cut(t, k);
    t.subrange(0, k)
}

/// The display form of a version report: `v` and the version number, that is
/// the first token after the first `"PHP"`, cut at its first `-`.
pub open spec fn formatted_version(s: Seq<char>) -> Option<Seq<char>> {
    match after_marker(s) {
        None => None,
        Some(r) => match first_token(r) {
            None => None,
            Some(t) => Some(seq!['v'] + before_dash(t)),
        },
    }
}

proof fn lemma_first_marker_unique(s: Seq<char>, i: int, j: int)
    requires
        first_marker_at(s, i),
        first_marker_at(s, j),
    ensures
        i == j,
{
    if i < j {
        assert(!marker_at(s, i));
    } else if j < i {
        assert(!marker_at(s, j));
    }
}

proof fn lemma_token_span_unique(r: Seq<char>, a1: int, b1: int, a2: int, b2: int)
    requires
        token_span(r, a1, b1),
        token_span(r, a2, b2),
    ensures
        a1 == a2,
        b1 == b2,
{
    if a1 < a2 {
        assert(unicode_white_space(r[a1]));
    } else if a2 < a1 {
        assert(unicode_white_space(r[a2]));
    }
    if b1 < b2 {
        assert(!unicode_white_space(r[b1]));
    } else if b2 < b1 {
        assert(!unicode_white_space(r[b2]));
    }
}

proof fn lemma_dash_cut_unique(t: Seq<char>, k1: int, k2: int)
    requires
        dash_cut(t, k1),
        dash_cut(t, k2),
    ensures
        k1 == k2,
{
    if k1 < k2 {
        assert(t[k1] != '-');
    } else if k2 < k1 {
        assert(t[k2] != '-');
    }
}

/// Where the first `"PHP"` of `s` is followed by whitespace `w`, then a token `t`
/// without whitespace, then whitespace or the end, the display form is `v`
/// followed by the part of `t` before its first `-`.
pub proof fn law_version_token(s: Seq<char>, i: int, w: Seq<char>, t: Seq<char>, tail: Seq<char>)
    requires
        first_marker_at(s, i),
        s.subrange(i + 3, s.len() as int) == w + t + tail,
        forall|j: int| 0 <= j < w.len() ==> unicode_white_space(#[trigger] w[j]),
        t.len() > 0,
        forall|j: int| 0 <= j < t.len() ==> !unicode_white_space(#[trigger] t[j]),
        tail.len() == 0 || unicode_white_space(tail[0]),
    ensures
        formatted_version(s) == Some(seq!['v'] + before_dash(t)),
{
    let r = s.subrange(i + 3, s.len() as int);
    let c = choose|c: int| first_marker_at(s, c);
    lemma_first_marker_unique(s, i, c);
    assert(after_marker(s) == Some(r));
    let a = w.len() as int;
    let b = a + t.len();
    assert forall|j: int| 0 <= j < a implies unicode_white_space(#[trigger] r[j]) by {
        assert(r[j] == w[j]);
    }
    assert forall|j: int| a <= j < b implies !unicode_white_space(#[trigger] r[j]) by {
        assert(r[j] == t[j - a]);
    }
    if b < r.len() {
        assert(r[b] == tail[0]);
    }
    assert(token_span(r, a, b));
    let (a2, b2) = choose|a2: int, b2: int| token_span(r, a2, b2);
    lemma_token_span_unique(r, a, b, a2, b2);
    assert(r.subrange(a, b) =~= t);
}

/// Output that holds no `"PHP"` has no display form.
pub proof fn law_no_marker(s: Seq<char>)
    requires
        forall|i: int| !marker_at(s, i),
    ensures
        formatted_version(s) is None,
{
}

/// Output whose first `"PHP"` is followed by nothing but whitespace has no
/// display form.
pub proof fn law_nothing_after_marker(s: Seq<char>, i: int)
    requires
        first_marker_at(s, i),
        forall|j: int| i + 3 <= j < s.len() ==> unicode_white_space(#[trigger] s[j]),
    ensures
        formatted_version(s) is None,
{
    let r = s.subrange(i + 3, s.len() as int);
    let c = choose|c: int| first_marker_at(s, c);
    lemma_first_marker_unique(s, i, c);
    assert(after_marker(s) == Some(r));
    if exists|a: int, b: int| token_span(r, a, b) {
        let (a, b) = choose|a: int, b: int| token_span(r, a, b);
        assert(unicode_white_space(s[i + 3 + a]));
        assert(r[a] == s[i + 3 + a]);
    }
}

/// Tells whether `c` is whitespace in Unicode's sense.
pub fn is_white_space(c: char) -> (r: bool)
    ensures
        r == unicode_white_space(c),
{
    let u = c as u32;
    (0x9 <= u && u <= 0xd) || u == 0x20 || u == 0x85 || u == 0xa0 || u == 0x1680 || (0x2000 <= u
        && u <= 0x200a) || u == 0x2028 || u == 0x2029 || u == 0x202f || u == 0x205f || u == 0x3000
}

/// Index of the first `"PHP"` of `s`.
fn find_marker(s: &str) -> (r: Option<usize>)
    ensures
        match r {
            Some(i) => first_marker_at(s@, i as int),
            None => forall|i: int| !marker_at(s@, i),
        },
{
    let n = s.unicode_len();
    let mut i: usize = 0;
    while i < n && n - i >= 3
        invariant
            n == s@.len(),
            i <= n,
            forall|j: int| 0 <= j < i ==> !marker_at(s@, j),
        decreases n - i,
    {
        if s.get_char(i) == 'P' && s.get_char(i + 1) == 'H' && s.get_char(i + 2) == 'P' {
            return Some(i);
        }
        i = i + 1;
    }
    None
}

/// Bounds of the first whitespace-delimited token of `r`.
fn find_token(r: &str) -> (res: Option<(usize, usize)>)
    ensures
        match res {
            Some((a, b)) => token_span(r@, a as int, b as int),
            None => forall|j: int| 0 <= j < r@.len() ==> unicode_white_space(#[trigger] r@[j]),
        },
{
    let n = r.unicode_len();
    let mut a: usize = 0;
    while a < n && is_white_space(r.get_char(a))
        invariant
            n == r@.len(),
            a <= n,
            forall|j: int| 0 <= j < a ==> unicode_white_space(#[trigger] r@[j]),
        decreases n - a,
    {
        a = a + 1;
    }
    if a == n {
        return None;
    }
    let mut b: usize = a + 1;
    while b < n && !is_white_space(r.get_char(b))
        invariant
            n == r@.len(),
            a < b <= n,
            forall|j: int| a <= j < b ==> !unicode_white_space(#[trigger] r@[j]),
        decreases n - b,
    {
        b = b + 1;
    }
    Some((a, b))
}

/// Index of the first `-` of `t`, or its length where it has none.
fn find_dash(t: &str) -> (k: usize)
    ensures
        dash_cut(t@, k as int),
{
    let n = t.unicode_len();
    let mut k: usize = 0;
    while k < n && t.get_char(k) != '-'
        invariant
            n == t@.len(),
            k <= n,
            forall|j: int| 0 <= j < k ==> #[trigger] t@[j] != '-',
        decreases n - k,
    {
        k = k + 1;
    }
    k
}

/// Formats the output of `php -v` for display: `v` followed by the version
/// number, the first token after the first `"PHP"` up to its first `-`.
/// Gives `None` where the output holds no `"PHP"`, or nothing but whitespace
/// after it.
pub fn format_php_version(php_stdout: String) -> (r: Option<String>)
    ensures
        r is Some <==> formatted_version(php_stdout@) is Some,
        r is Some ==> r->0@ == formatted_version(php_stdout@)->0,
{
    let s = php_stdout.as_str();
    let n = s.unicode_len();
    let i = match find_marker(s) {
        Some(i) => i,
        None => {
            return None;
        },
    };
    let rest = s.substring_char(i + 3, n);
    proof {
        let c = choose|c: int| first_marker_at(s@, c);
        lemma_first_marker_unique(s@, i as int, c);
        assert(after_marker(s@) == Some(rest@));
    }
    let (a, b) = match find_token(rest) {
        Some(span) => span,
        None => {
            proof {
                if exists|a: int, b: int| token_span(rest@, a, b) {
                    let (a, b) = choose|a: int, b: int| token_span(rest@, a, b);
                    assert(unicode_white_space(rest@[a]));
                }
            }
            return None;
        },
    };
    let token = rest.substring_char(a, b);
    proof {
        let (a2, b2) = choose|a2: int, b2: int| token_span(rest@, a2, b2);
        lemma_token_span_unique(rest@, a as int, b as int, a2, b2);
        assert(first_token(rest@) == Some(token@));
    }
    let k = find_dash(token);
    let number = token.substring_char(0, k);
    proof {
        let k2 = choose|k2: int| dash_cut(token@, k2);
        lemma_dash_cut_unique(token@, k as int, k2);
        assert(before_dash(token@) == number@);
    }
    let mut out = String::from_str("v");
    proof {
        reveal_strlit("v");
    }
    out.append(number);
    assert(out@ =~= seq!['v'] + number@);
    Some(out)
}

} // verus!
