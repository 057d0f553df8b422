//! Which texts are key expressions.
use vstd::prelude::*;

verus! {

/// Whether `s` is a `/`-separated list of non-empty chunks without `#` and `?`.
pub open spec fn well_chunked(s: Seq<char>) -> bool {
    &&& s.len() > 0
    &&& s[0] != '/'
    &&& s.last() != '/'
    &&& forall|i: int| 0 <= i < s.len() - 1 && #[trigger] s[i] == '/' ==> s[i + 1] != '/'
    &&& !s.contains('#')
    &&& !s.contains('?')
}

/// Whether a chunk of `s` starts at `i`.
pub open spec fn starts_chunk(s: Seq<char>, i: int) -> bool {
    i == 0 || s[i - 1] == '/'
}

/// Whether a chunk of `s` ends before `i`.
pub open spec fn ends_chunk(s: Seq<char>, i: int) -> bool {
    i == s.len() || (i < s.len() && s[i] == '/')
}

/// Whether the `$` at `i` is in its place: before a `*`, with no `$` behind that, and not in a chunk
/// that is only `$*`.
pub open spec fn dollar_in_place(s: Seq<char>, i: int) -> bool {
    &&& i + 1 < s.len()
    &&& s[i + 1] == '*'
    &&& !(i + 2 < s.len() && s[i + 2] == '$')
    &&& !(starts_chunk(s, i) && ends_chunk(s, i + 2))
}

/// Whether the `*` at `i` is in its place: behind a `$`, or in a chunk that is only `*` or `**`.
pub open spec fn star_in_place(s: Seq<char>, i: int) -> bool {
    ||| i > 0 && s[i - 1] == '$'
    ||| starts_chunk(s, i) && ends_chunk(s, i + 1)
    ||| starts_chunk(s, i) && i + 1 < s.len() && s[i + 1] == '*' && ends_chunk(s, i + 2)
    ||| i > 0 && s[i - 1] == '*' && starts_chunk(s, i - 1) && ends_chunk(s, i + 1)
}

/// Whether the chunk that starts at `i` is `**`, and a chunk that starts with `*` follows it.
pub open spec fn star_after_double_star(s: Seq<char>, i: int) -> bool {
    &&& starts_chunk(s, i)
    &&& i + 3 < s.len()
    &&& s[i + 1] == '*'
    &&& s[i + 2] == '/'
    &&& s[i + 3] == '*'
}

/// Whether `s` is a key expression in canonical form.
pub open spec fn is_keyexpr(s: Seq<char>) -> bool {
    &&& well_chunked(s)
    &&& forall|i: int| 0 <= i < s.len() && #[trigger] s[i] == '$' ==> dollar_in_place(s, i)
    &&& forall|i: int|
        0 <= i < s.len() && #[trigger] s[i] == '*' ==> star_in_place(s, i)
            && !star_after_double_star(s, i)
}

/// Whether `s` names a single key: well-chunked text without `*` and `$`.
pub open spec fn plain_key(s: Seq<char>) -> bool {
    well_chunked(s) && !s.contains('*') && !s.contains('$')
}

/// The text of `s` as a key expression, if it is one.
///
/// Calls `zenoh_keyexpr::keyexpr::new` and, where it accepts `s`, `keyexpr::as_str`. Believed of
/// them: exactly the key expressions in canonical form are accepted, and an accepted text is handed
/// back unchanged.
#[verifier::external_body]
pub(crate) fn parse_keyexpr(s: &str) -> (accepted: Option<String>)
    ensures
        accepted is Some <==> is_keyexpr(s@),
        accepted matches Some(k) ==> k@ == s@,
{
    match zenoh_keyexpr::keyexpr::new(s) {
        Ok(valid) => Some(valid.as_str().to_owned()),
        Err(_) => None,
    }
}

/// Text that names a single key is a key expression.
pub proof fn plain_key_is_a_keyexpr(s: Seq<char>)
    requires
        plain_key(s),
    ensures
        is_keyexpr(s),
{
    assert forall|i: int| 0 <= i < s.len() implies #[trigger] s[i] != '$' && s[i] != '*' by {
        assert(s.contains(s[i]));
    }
}

/// A key expression stays one when chunks without `*` and `$` are put before it.
pub proof fn prepended_chunks_keep_a_keyexpr(front: Seq<char>, key: Seq<char>)
    requires
        plain_key(front),
        is_keyexpr(key),
    ensures
        is_keyexpr(front + seq!['/'] + key),
{
    let s = front + seq!['/'] + key;
    let n = front.len() + 1;
    assert forall|i: int| 0 <= i < front.len() implies #[trigger] s[i] == front[i]
        && front.contains(s[i]) by {}
    assert(s[front.len() as int] == '/');
    assert forall|i: int| n <= i < s.len() implies #[trigger] s[i] == key[i - n]
        && key.contains(s[i]) by {}
    assert(s.last() == key.last());
    assert forall|i: int| 0 <= i < s.len() - 1 && #[trigger] s[i] == '/' implies s[i + 1]
        != '/' by {
        if i < front.len() {
            assert(front[i] == '/');
            assert(front.last() == front[front.len() - 1]);
            assert(s[i + 1] == front[i + 1]);
        } else if i == front.len() {
            assert(s[i + 1] == key[0]);
        } else {
            assert(key[i - n] == '/');
            assert(s[i + 1] == key[i + 1 - n]);
        }
    }
    assert forall|i: int| n <= i < s.len() implies #[trigger] starts_chunk(s, i) == starts_chunk(
        key,
        i - n,
    ) by {
        if i > n {
            assert(s[i - 1] == key[i - 1 - n]);
        }
    }
    assert forall|i: int| n <= i <= s.len() implies #[trigger] ends_chunk(s, i) == ends_chunk(
        key,
        i - n,
    ) by {}
    assert forall|i: int| 0 <= i < s.len() && #[trigger] s[i] == '$' implies dollar_in_place(
        s,
        i,
    ) by {
        assert(i >= n);
        assert(key[i - n] == '$');
        assert(dollar_in_place(key, i - n));
    }
    assert forall|i: int| 0 <= i < s.len() && #[trigger] s[i] == '*' implies star_in_place(s, i)
        && !star_after_double_star(s, i) by {
        assert(i >= n);
        assert(key[i - n] == '*');
        assert(star_in_place(key, i - n));
        if i > n {
            assert(s[i - 1] == key[i - 1 - n]);
        }
    }
}

/// Which single chunks are key expressions: `*`, `**`, and text in which `*` occurs only behind `$`
/// and `$` only before `*`, never twice in a row and never alone.
pub proof fn single_chunk_is_a_keyexpr(c: Seq<char>)
    requires
        !c.contains('/'),
    ensures
        is_keyexpr(c) <==> {
            &&& c.len() > 0
            &&& !c.contains('#')
            &&& !c.contains('?')
            &&& {
                ||| c == seq!['*']
                ||| c == seq!['*', '*']
                ||| {
                    &&& c != seq!['$', '*']
                    &&& forall|i: int|
                        0 <= i < c.len() && #[trigger] c[i] == '$' ==> i + 1 < c.len() && c[i + 1]
                            == '*' && !(i + 2 < c.len() && c[i + 2] == '$')
                    &&& forall|i: int|
                        0 <= i < c.len() && #[trigger] c[i] == '*' ==> i > 0 && c[i - 1] == '$'
                }
            }
        },
{
    assert forall|i: int| 0 <= i < c.len() implies #[trigger] c[i] != '/' by {
        assert(c.contains(c[i]));
    }
    if is_keyexpr(c) && c != seq!['*'] && c != seq!['*', '*'] {
        assert forall|i: int| 0 <= i < c.len() && #[trigger] c[i] == '$' implies i + 1 < c.len()
            && c[i + 1] == '*' && !(i + 2 < c.len() && c[i + 2] == '$') by {
            assert(dollar_in_place(c, i));
        }
        assert forall|i: int| 0 <= i < c.len() && #[trigger] c[i] == '*' implies i > 0 && c[i - 1]
            == '$' by {
            assert(star_in_place(c, i));
            if !(i > 0 && c[i - 1] == '$') {
                if c.len() == 1 {
                    assert(c =~= seq!['*']);
                } else {
                    assert(c =~= seq!['*', '*']);
                }
            }
        }
        if c == seq!['$', '*'] {
            assert(c[0] == '$');
            assert(dollar_in_place(c, 0));
        }
    }
    if c == seq!['*'] || c == seq!['*', '*'] {
        assert(c.len() > 0 && !c.contains('#') && !c.contains('?'));
        assert(c.last() == '*');
        assert forall|i: int| 0 <= i < c.len() && #[trigger] c[i] == '*' implies star_in_place(
            c,
            i,
        ) && !star_after_double_star(c, i) by {}
    }
    if c.len() > 0 {
        assert(c.last() == c[c.len() - 1]);
        assert(c != seq!['$', '*'] ==> !(c.len() == 2 && c[0] == '$' && c[1] == '*')) by {
            if c.len() == 2 && c[0] == '$' && c[1] == '*' {
                assert(c =~= seq!['$', '*']);
            }
        }
    }
}

/// Two texts with a `/` between them are a key expression exactly if each of them is one, unless the
/// first ends in a chunk `**` and the second starts with `*`.
pub proof fn joined_chunks_are_a_keyexpr(a: Seq<char>, b: Seq<char>)
    ensures
        is_keyexpr(a + seq!['/'] + b) <==> {
            &&& is_keyexpr(a)
            &&& is_keyexpr(b)
            &&& !{
                &&& b[0] == '*'
                &&& a.len() >= 2
                &&& a[a.len() - 1] == '*'
                &&& a[a.len() - 2] == '*'
                &&& a.len() == 2 || a[a.len() - 3] == '/'
            }
        },
{
    let s = a + seq!['/'] + b;
    let n = a.len() + 1;
    assert forall|i: int| 0 <= i < a.len() implies #[trigger] s[i] == a[i] by {}
    assert(s[a.len() as int] == '/');
    assert forall|i: int| 0 <= i < b.len() implies #[trigger] b[i] == s[i + n] by {}
    assert forall|i: int| n <= i < s.len() implies #[trigger] s[i] == b[i - n] by {}
    lemma_joined_well_chunked(a, b);
    if well_chunked(a) && well_chunked(b) {
        assert forall|i: int| 0 <= i < a.len() implies dollar_in_place(s, i) == dollar_in_place(
            a,
            i,
        ) && star_in_place(s, i) == star_in_place(a, i) by {}
        assert forall|i: int| 0 <= i < b.len() implies dollar_in_place(s, i + n)
            == dollar_in_place(b, i) && (s[i + n] == '*' ==> star_in_place(s, i + n)
            == star_in_place(b, i)) && star_after_double_star(s, i + n) == star_after_double_star(
            b,
            i,
        ) by {}
        if is_keyexpr(s) {
            assert forall|i: int| 0 <= i < a.len() && #[trigger] a[i] == '$' implies dollar_in_place(
                a,
                i,
            ) by {
                assert(s[i] == '$');
            }
            assert forall|i: int| 0 <= i < a.len() && #[trigger] a[i] == '*' implies star_in_place(
                a,
                i,
            ) && !star_after_double_star(a, i) by {
                assert(s[i] == '*');
            }
            assert forall|i: int| 0 <= i < b.len() && #[trigger] b[i] == '$' implies dollar_in_place(
                b,
                i,
            ) by {
                assert(s[i + n] == '$');
            }
            assert forall|i: int| 0 <= i < b.len() && #[trigger] b[i] == '*' implies star_in_place(
                b,
                i,
            ) && !star_after_double_star(b, i) by {
                assert(s[i + n] == '*');
            }
            if a.len() >= 2 {
                assert(s[a.len() - 2] == a[a.len() - 2]);
                assert(!(s[a.len() - 2] == '*' && star_after_double_star(s, a.len() - 2)));
                assert(s[n as int] == b[0]);
            }
        }
        if is_keyexpr(a) && is_keyexpr(b) && !(b[0] == '*' && a.len() >= 2 && a[a.len() - 1] == '*'
            && a[a.len() - 2] == '*' && (a.len() == 2 || a[a.len() - 3] == '/')) {
            assert forall|i: int| 0 <= i < s.len() && #[trigger] s[i] == '$' implies dollar_in_place(
                s,
                i,
            ) by {
                if i < a.len() {
                    assert(a[i] == '$');
                } else {
                    assert(b[i - n] == '$');
                    assert(dollar_in_place(s, (i - n) + n) == dollar_in_place(b, i - n));
                }
            }
            assert forall|i: int| 0 <= i < s.len() && #[trigger] s[i] == '*' implies star_in_place(
                s,
                i,
            ) && !star_after_double_star(s, i) by {
                if i < a.len() {
                    assert(a[i] == '*');
                    assert(!star_after_double_star(a, i));
                    assert(s[n as int] == b[0]);
                } else {
                    assert(b[i - n] == '*');
                    assert(star_in_place(s, (i - n) + n) == star_in_place(b, i - n));
                    assert(star_after_double_star(s, (i - n) + n) == star_after_double_star(
                        b,
                        i - n,
                    ));
                }
            }
        }
    }
}

proof fn lemma_joined_well_chunked(a: Seq<char>, b: Seq<char>)
    ensures
        well_chunked(a + seq!['/'] + b) <==> well_chunked(a) && well_chunked(b),
{
    let s = a + seq!['/'] + b;
    let n = a.len() + 1;
    assert forall|i: int| 0 <= i < a.len() implies #[trigger] a[i] == s[i] && s.contains(a[i]) by {
        assert(s[i] == a[i]);
    }
    assert(s[a.len() as int] == '/');
    assert forall|i: int| 0 <= i < b.len() implies #[trigger] b[i] == s[i + n] && s.contains(
        b[i],
    ) by {
        assert(s[i + n] == b[i]);
    }
    if well_chunked(s) {
        assert(a.len() > 0) by {
            if a.len() == 0 {
                assert(s[0] == '/');
            }
        }
        assert(b.len() > 0) by {
            if b.len() == 0 {
                assert(s.last() == '/');
            }
        }
        assert(s[a.len() - 1] != '/' && s[n as int] != '/') by {
            assert(s[a.len() as int] == '/');
            if s[a.len() - 1] == '/' {
                assert(s[a.len() - 1 + 1] != '/');
            }
        }
        assert(a[0] == s[0] && a.last() == s[a.len() - 1] && b[0] == s[n as int]);
        assert(b.last() == s.last());
        assert forall|i: int| 0 <= i < a.len() - 1 && #[trigger] a[i] == '/' implies a[i + 1]
            != '/' by {
            assert(s[i] == '/');
            assert(s[i + 1] == a[i + 1]);
        }
        assert forall|i: int| 0 <= i < b.len() - 1 && #[trigger] b[i] == '/' implies b[i + 1]
            != '/' by {
            assert(s[i + n] == '/');
            assert(s[i + n + 1] == b[i + 1]);
        }
    }
    if well_chunked(a) && well_chunked(b) {
        assert(s[0] == a[0] && s.last() == b.last());
        assert forall|i: int| 0 <= i < s.len() - 1 && #[trigger] s[i] == '/' implies s[i + 1]
            != '/' by {
            if i < a.len() {
                assert(a[i] == '/');
                assert(a.last() == a[a.len() - 1]);
                assert(s[i + 1] == a[i + 1]);
            } else if i == a.len() {
                assert(s[i + 1] == b[0]);
            } else {
                assert(b[i - n] == '/');
                assert(s[i + 1] == b[i + 1 - n]);
            }
        }
        assert forall|i: int| 0 <= i < s.len() implies #[trigger] s[i] != '#' && s[i] != '?' by {
            if i < a.len() {
                assert(a.contains(a[i]));
            } else if i > a.len() {
                assert(b.contains(b[i - n]));
            }
        }
    }
}

} // verus!
