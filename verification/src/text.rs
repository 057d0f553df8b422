//! Operations on key text.
use vstd::prelude::*;

verus! {

/// The characters that make a key expression stand for more than one key.
pub open spec fn is_wildcard(c: char) -> bool {
    c == '*' || c == '+' || c == '$'
}

/// Whether a wildcard occurs anywhere in `s`.
pub open spec fn has_wildcard(s: Seq<char>) -> bool {
    exists|i: int| 0 <= i < s.len() && is_wildcard(#[trigger] s[i])
}

/// The number of characters before the first wildcard of `s`, or all of them.
pub open spec fn literal_len(s: Seq<char>) -> nat
    decreases s.len(),
{
    if s.len() == 0 || is_wildcard(s[0]) {
        0
    } else {
        1 + literal_len(s.drop_first())
    }
}

/// The part of `s` before its first wildcard; `s` itself where there is none.
pub open spec fn literal_prefix(s: Seq<char>) -> Seq<char> {
    s.take(literal_len(s) as int)
}

/// `literal_len` is the position of the first wildcard, or the length.
pub proof fn lemma_literal_len(s: Seq<char>)
    ensures
        literal_len(s) <= s.len(),
        forall|i: int| 0 <= i < literal_len(s) ==> !is_wildcard(#[trigger] s[i]),
        literal_len(s) < s.len() ==> is_wildcard(s[literal_len(s) as int]),
        has_wildcard(s) <==> literal_len(s) < s.len(),
    decreases s.len(),
{
    if s.len() > 0 && !is_wildcard(s[0]) {
        let rest = s.drop_first();
        lemma_literal_len(rest);
        assert forall|i: int| 0 <= i < literal_len(s) implies !is_wildcard(#[trigger] s[i]) by {
            if i > 0 {
                assert(rest[i - 1] == s[i]);
            }
        }
        if has_wildcard(s) {
            let i = choose|i: int| 0 <= i < s.len() && is_wildcard(#[trigger] s[i]);
            assert(rest[i - 1] == s[i]);
        }
    } else if s.len() > 0 {
        assert(is_wildcard(s[0]));
    }
}

/// A length that has no wildcard before it and one at it is `literal_len`.
proof fn lemma_literal_len_unique(s: Seq<char>, n: nat)
    requires
        n <= s.len(),
        forall|i: int| 0 <= i < n ==> !is_wildcard(#[trigger] s[i]),
        n < s.len() ==> is_wildcard(s[n as int]),
    ensures
        literal_len(s) == n,
{
    lemma_literal_len(s);
}

/// Text without a wildcard before `s` stands before the part of `s` up to its first wildcard.
pub proof fn lemma_literal_prefix_of_sum(front: Seq<char>, s: Seq<char>)
    requires
        !has_wildcard(front),
    ensures
        literal_prefix(front + s) == front + literal_prefix(s),
        has_wildcard(front + s) <==> has_wildcard(s),
{
    let sum = front + s;
    let n = (front.len() + literal_len(s)) as nat;
    lemma_literal_len(s);
    assert forall|i: int| 0 <= i < n implies !is_wildcard(#[trigger] sum[i]) by {
        if i < front.len() {
            assert(sum[i] == front[i]);
        } else {
            assert(sum[i] == s[i - front.len()]);
        }
    }
    if n < sum.len() {
        assert(sum[n as int] == s[literal_len(s) as int]);
    }
    lemma_literal_len_unique(sum, n);
    lemma_literal_len(sum);
    assert(sum.take(n as int) =~= front + s.take(literal_len(s) as int));
}

/// The position of the first wildcard of `s`, counted in characters.
pub fn find_wildcard(s: &str) -> (pos: Option<usize>)
    ensures
        pos is Some <==> has_wildcard(s@),
        pos matches Some(p) ==> p == literal_len(s@),
        pos is None ==> forall|i: int|
            0 <= i < s@.len() ==> #[trigger] s@[i] != '*' && s@[i] != '+' && s@[i] != '$',
        pos matches Some(p) ==> {
            &&& p < s@.len()
            &&& s@[p as int] == '*' || s@[p as int] == '+' || s@[p as int] == '$'
            &&& forall|i: int|
                0 <= i < p ==> #[trigger] s@[i] != '*' && s@[i] != '+' && s@[i] != '$'
        },
{
    let len: usize = s.unicode_len();
    let mut count: usize = 0;
    for c in it: s.chars()
        invariant
            it.seq() == s@,
            count == it.index(),
            len == s@.len(),
            forall|i: int| 0 <= i < it.index() ==> !is_wildcard(#[trigger] s@[i]),
    {
        if c == '*' || c == '+' || c == '$' {
            proof {
                lemma_literal_len_unique(s@, count as nat);
                lemma_literal_len(s@);
            }
            return Some(count);
        }
        count = count + 1;
    }
    proof {
        lemma_literal_len(s@);
    }
    None
}

/// The part of `s` before its first wildcard, or all of it.
pub fn literal_prefix_of(s: &str) -> (prefix: &str)
    ensures
        prefix@ == literal_prefix(s@),
        prefix@.is_prefix_of(s@),
        forall|i: int|
            0 <= i < prefix@.len() ==> #[trigger] s@[i] != '*' && s@[i] != '+' && s@[i] != '$',
        prefix@.len() < s@.len() ==> {
            let next = s@[prefix@.len() as int];
            next == '*' || next == '+' || next == '$'
        },
{
    let len: usize = s.unicode_len();
    proof {
        lemma_literal_len(s@);
    }
    match find_wildcard(s) {
        Some(pos) => s.substring_char(0, pos),
        None => s.substring_char(0, len),
    }
}

/// What follows `prefix` in `key`, if `key` starts with `prefix`.
pub fn strip_prefix<'a>(key: &'a str, prefix: &str) -> (rest: Option<&'a str>)
    ensures
        rest is Some <==> prefix@.is_prefix_of(key@),
        rest matches Some(r) ==> r@ == key@.skip(prefix@.len() as int),
        rest matches Some(r) ==> key@ == prefix@ + r@,
        rest is None ==> forall|r: Seq<char>| key@ != #[trigger] (prefix@ + r),
{
    let key_len: usize = key.unicode_len();
    let prefix_len: usize = prefix.unicode_len();
    if prefix_len > key_len {
        return None;
    }
    let head = key.substring_char(0, prefix_len);
    if head.to_owned() == prefix.to_owned() {
        Some(key.substring_char(prefix_len, key_len))
    } else {
        None
    }
}

/// Whether `s` starts with `@`, the mark of the router's own administration keys.
pub open spec fn is_admin(s: Seq<char>) -> bool {
    s.len() > 0 && s[0] == '@'
}

/// Whether `s` starts with `@`.
pub fn is_admin_key(s: &str) -> (admin: bool)
    ensures
        admin == is_admin(s@),
        admin <==> s@.len() > 0 && s@[0] == '@',
{
    !s.is_empty() && s.get_char(0) == '@'
}

/// The characters with the Unicode property `White_Space`.
pub open spec fn is_white_space(c: char) -> bool {
    let u = c as u32;
    ||| 0x09 <= u <= 0x0d
    ||| u == 0x20
    ||| u == 0x85
    ||| u == 0xa0
    ||| u == 0x1680
    ||| 0x2000 <= u <= 0x200a
    ||| u == 0x2028
    ||| u == 0x2029
    ||| u == 0x202f
    ||| u == 0x205f
    ||| u == 0x3000
}

/// Whether `c` has the Unicode property `White_Space`.
pub fn white_space(c: char) -> (white: bool)
    ensures
        white == is_white_space(c),
{
    let u: u32 = c as u32;
    (0x09 <= u && u <= 0x0d) || u == 0x20 || u == 0x85 || u == 0xa0 || u == 0x1680 || (0x2000 <= u
        && u <= 0x200a) || u == 0x2028 || u == 0x2029 || u == 0x202f || u == 0x205f || u == 0x3000
}

/// `s` without its leading white space.
pub open spec fn trimmed_start(s: Seq<char>) -> Seq<char>
    decreases s.len(),
{
    if s.len() > 0 && is_white_space(s[0]) {
        trimmed_start(s.drop_first())
    } else {
        s
    }
}

/// `s` without its trailing white space.
pub open spec fn trimmed_end(s: Seq<char>) -> Seq<char>
    decreases s.len(),
{
    if s.len() > 0 && is_white_space(s.last()) {
        trimmed_end(s.drop_last())
    } else {
        s
    }
}

/// `s` without white space at either end.
pub open spec fn trimmed(s: Seq<char>) -> Seq<char> {
    trimmed_end(trimmed_start(s))
}

proof fn lemma_trimmed_start(s: Seq<char>, n: int)
    requires
        0 <= n <= s.len(),
        forall|i: int| 0 <= i < n ==> is_white_space(#[trigger] s[i]),
        n < s.len() ==> !is_white_space(s[n]),
    ensures
        trimmed_start(s) == s.skip(n),
    decreases n,
{
    if n > 0 {
        assert(is_white_space(s[0]));
        let rest = s.drop_first();
        assert forall|i: int| 0 <= i < n - 1 implies is_white_space(#[trigger] rest[i]) by {
            assert(rest[i] == s[i + 1]);
        }
        lemma_trimmed_start(rest, n - 1);
        assert(rest.skip(n - 1) =~= s.skip(n));
    } else {
        assert(s.skip(0) =~= s);
    }
}

proof fn lemma_trimmed_end(s: Seq<char>, n: int)
    requires
        0 <= n <= s.len(),
        forall|i: int| n <= i < s.len() ==> is_white_space(#[trigger] s[i]),
        n > 0 ==> !is_white_space(s[n - 1]),
    ensures
        trimmed_end(s) == s.take(n),
    decreases s.len() - n,
{
    if n < s.len() {
        assert(is_white_space(s.last()));
        let rest = s.drop_last();
        assert forall|i: int| n <= i < rest.len() implies is_white_space(#[trigger] rest[i]) by {
            assert(rest[i] == s[i]);
        }
        lemma_trimmed_end(rest, n);
        assert(rest.take(n) =~= s.take(n));
    } else {
        assert(s.take(n) =~= s);
    }
}

/// `s` without white space at either end.
pub fn trim(s: &str) -> (t: &str)
    ensures
        t@ == trimmed(s@),
{
    let len: usize = s.unicode_len();
    let mut count: usize = 0;
    let mut start: usize = 0;
    let mut end: usize = 0;
    for c in it: s.chars()
        invariant
            it.seq() == s@,
            count == it.index(),
            len == s@.len(),
            start <= end <= count,
            end == 0 ==> start == 0 && forall|i: int|
                0 <= i < count ==> is_white_space(#[trigger] s@[i]),
            end > 0 ==> {
                &&& start < end
                &&& forall|i: int| 0 <= i < start ==> is_white_space(#[trigger] s@[i])
                &&& !is_white_space(s@[start as int])
                &&& !is_white_space(s@[end - 1])
                &&& forall|i: int| end <= i < count ==> is_white_space(#[trigger] s@[i])
            },
    {
        if !white_space(c) {
            if end == 0 {
                start = count;
            }
            end = count + 1;
        }
        count = count + 1;
    }
    proof {
        if end == 0 {
            lemma_trimmed_start(s@, len as int);
            assert(s@.subrange(0, 0) =~= s@.skip(len as int));
        } else {
            lemma_trimmed_start(s@, start as int);
            let tail = s@.skip(start as int);
            assert forall|i: int| end - start <= i < tail.len() implies is_white_space(
                #[trigger] tail[i],
            ) by {
                assert(tail[i] == s@[i + start]);
            }
            lemma_trimmed_end(tail, end - start);
            assert(tail.take(end - start) =~= s@.subrange(start as int, end as int));
        }
    }
    s.substring_char(start, end)
}

proof fn lemma_leading_white_space(s: Seq<char>) -> (n: int)
    ensures
        0 <= n <= s.len(),
        forall|i: int| 0 <= i < n ==> is_white_space(#[trigger] s[i]),
        n < s.len() ==> !is_white_space(s[n]),
    decreases s.len(),
{
    if s.len() > 0 && is_white_space(s[0]) {
        let rest = s.drop_first();
        let m = lemma_leading_white_space(rest);
        assert forall|i: int| 0 <= i < m + 1 implies is_white_space(#[trigger] s[i]) by {
            if i > 0 {
                assert(rest[i - 1] == s[i]);
            }
        }
        if m + 1 < s.len() {
            assert(rest[m] == s[m + 1]);
        }
        m + 1
    } else {
        0
    }
}

proof fn lemma_trailing_white_space(s: Seq<char>) -> (n: int)
    ensures
        0 <= n <= s.len(),
        forall|i: int| n <= i < s.len() ==> is_white_space(#[trigger] s[i]),
        n > 0 ==> !is_white_space(s[n - 1]),
    decreases s.len(),
{
    if s.len() > 0 && is_white_space(s.last()) {
        let rest = s.drop_last();
        let m = lemma_trailing_white_space(rest);
        assert forall|i: int| m <= i < s.len() implies is_white_space(#[trigger] s[i]) by {
            if i < rest.len() {
                assert(rest[i] == s[i]);
            }
        }
        m
    } else {
        s.len() as int
    }
}

/// Trimming takes white space off the two ends and nothing else: what is left is the part of `s`
/// between two places, all before and all behind is white space, and neither end of it is.
pub proof fn trim_takes_off_only_white_space(s: Seq<char>) -> (cut: (int, int))
    ensures
        0 <= cut.0 <= cut.1 <= s.len(),
        trimmed(s) == s.subrange(cut.0, cut.1),
        forall|i: int| 0 <= i < cut.0 ==> is_white_space(#[trigger] s[i]),
        forall|i: int| cut.1 <= i < s.len() ==> is_white_space(#[trigger] s[i]),
        cut.0 < cut.1 ==> !is_white_space(s[cut.0]) && !is_white_space(s[cut.1 - 1]),
{
    let start = lemma_leading_white_space(s);
    lemma_trimmed_start(s, start);
    let tail = s.skip(start);
    let len = lemma_trailing_white_space(tail);
    lemma_trimmed_end(tail, len);
    assert(tail.take(len) =~= s.subrange(start, start + len));
    assert forall|i: int| start + len <= i < s.len() implies is_white_space(#[trigger] s[i]) by {
        assert(tail[i - start] == s[i]);
    }
    if len > 0 {
        assert(tail[len - 1] == s[start + len - 1]);
    }
    (start, start + len)
}

/// Text with no white space at either end is left as it is.
pub proof fn lemma_trimmed_fixed(s: Seq<char>)
    requires
        s.len() > 0 ==> !is_white_space(s[0]) && !is_white_space(s.last()),
    ensures
        trimmed(s) == s,
{
}

proof fn lemma_trimmed_end_shape(s: Seq<char>)
    ensures
        trimmed_end(s).is_prefix_of(s),
        trimmed_end(s).len() > 0 ==> !is_white_space(trimmed_end(s).last()),
    decreases s.len(),
{
    if s.len() > 0 && is_white_space(s.last()) {
        lemma_trimmed_end_shape(s.drop_last());
    }
}

proof fn lemma_trimmed_start_shape(s: Seq<char>)
    ensures
        trimmed_start(s).len() > 0 ==> !is_white_space(trimmed_start(s)[0]),
    decreases s.len(),
{
    if s.len() > 0 && is_white_space(s[0]) {
        lemma_trimmed_start_shape(s.drop_first());
    }
}

/// Trimming twice gives what trimming once gives, and leaves no white space at either end.
pub proof fn trim_is_idempotent(s: Seq<char>)
    ensures
        trimmed(trimmed(s)) == trimmed(s),
        trimmed(s).len() > 0 ==> !is_white_space(trimmed(s)[0]) && !is_white_space(
            trimmed(s).last(),
        ),
{
    lemma_trimmed_start_shape(s);
    lemma_trimmed_end_shape(trimmed_start(s));
    lemma_trimmed_fixed(trimmed(s));
}

} // verus!
