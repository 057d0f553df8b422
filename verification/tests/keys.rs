//! Rewriting wire expressions, with the key expressions of the network.

use grpc_hook::interceptor::GrpcHookInterceptor;
use grpc_hook::message::{Mapping, WireExpr};

fn rewrite(new_key: &str) -> WireExpr {
    let mut wire_expr =
        WireExpr { scope: 7, suffix: "old".to_owned(), mapping: Mapping::Receiver };
    GrpcHookInterceptor::apply_rewrite(&mut wire_expr, new_key);
    wire_expr
}

fn taken(new_key: &str) -> bool {
    let wire_expr = rewrite(new_key);
    if wire_expr.scope == 0 {
        assert_eq!(wire_expr.suffix, new_key.trim());
        assert_eq!(wire_expr.mapping, Mapping::Sender);
        true
    } else {
        assert_eq!(
            wire_expr,
            WireExpr { scope: 7, suffix: "old".to_owned(), mapping: Mapping::Receiver }
        );
        false
    }
}

fn well_chunked(s: &[char]) -> bool {
    !s.is_empty()
        && s[0] != '/'
        && s[s.len() - 1] != '/'
        && (1..s.len()).all(|i| !(s[i - 1] == '/' && s[i] == '/'))
        && !s.contains(&'#')
        && !s.contains(&'?')
}

fn starts_chunk(s: &[char], i: usize) -> bool {
    i == 0 || s[i - 1] == '/'
}

fn ends_chunk(s: &[char], i: usize) -> bool {
    i == s.len() || (i < s.len() && s[i] == '/')
}

fn dollar_in_place(s: &[char], i: usize) -> bool {
    i + 1 < s.len()
        && s[i + 1] == '*'
        && !(i + 2 < s.len() && s[i + 2] == '$')
        && !(starts_chunk(s, i) && ends_chunk(s, i + 2))
}

fn star_in_place(s: &[char], i: usize) -> bool {
    (i > 0 && s[i - 1] == '$')
        || (starts_chunk(s, i) && ends_chunk(s, i + 1))
        || (starts_chunk(s, i) && i + 1 < s.len() && s[i + 1] == '*' && ends_chunk(s, i + 2))
        || (i > 0 && s[i - 1] == '*' && starts_chunk(s, i - 1) && ends_chunk(s, i + 1))
}

fn star_after_double_star(s: &[char], i: usize) -> bool {
    starts_chunk(s, i)
        && i + 3 < s.len()
        && s[i + 1] == '*'
        && s[i + 2] == '/'
        && s[i + 3] == '*'
}

fn is_keyexpr(s: &[char]) -> bool {
    well_chunked(s)
        && (0..s.len()).all(|i| s[i] != '$' || dollar_in_place(s, i))
        && (0..s.len())
            .all(|i| s[i] != '*' || (star_in_place(s, i) && !star_after_double_star(s, i)))
}

#[test]
fn short_texts_are_taken_exactly_if_they_are_key_expressions() {
    let alphabet = ['a', '/', '*', '$', '\u{e9}', '?'];
    let mut texts: Vec<Vec<char>> = vec![Vec::new()];
    let mut longest = texts.clone();
    for _ in 0..6 {
        let mut longer = Vec::new();
        for text in &longest {
            for c in alphabet {
                let mut next = text.clone();
                next.push(c);
                longer.push(next);
            }
        }
        texts.extend(longer.iter().cloned());
        longest = longer;
    }
    let mut accepted: usize = 0;
    for text in &texts {
        let key: String = text.iter().collect();
        assert_eq!(taken(&key), is_keyexpr(text), "{}", key);
        accepted += usize::from(is_keyexpr(text));
    }
    assert!(accepted > 100);
}

#[test]
fn long_wildcard_texts_are_taken_exactly_if_they_are_key_expressions() {
    let alphabet = ['a', '/', '*', '$'];
    for code in 0..4usize.pow(8) {
        let text: Vec<char> = (0..8u32).map(|i| alphabet[code / 4usize.pow(i) % 4]).collect();
        let key: String = text.iter().collect();
        assert_eq!(taken(&key), is_keyexpr(&text), "{}", key);
    }
}

#[test]
fn rewritten_expression_is_the_whole_key() {
    assert_eq!(
        rewrite("tenant_42/raw/data"),
        WireExpr { scope: 0, suffix: "tenant_42/raw/data".to_owned(), mapping: Mapping::Sender }
    );
}

#[test]
fn white_space_at_the_ends_does_not_count() {
    assert_eq!(
        rewrite(" \t a/b \u{3000}\n"),
        WireExpr { scope: 0, suffix: "a/b".to_owned(), mapping: Mapping::Sender }
    );
    assert!(taken("a b/c"));
}

#[test]
fn wildcards_are_taken_in_canonical_form() {
    assert!(taken("a/**"));
    assert!(taken("*/**"));
    assert!(taken("a$*b/c"));
    assert!(taken("+"));
    assert!(!taken("**/*"));
    assert!(!taken("**/**"));
    assert!(!taken("a*"));
    assert!(!taken("$*"));
    assert!(!taken("a$*$*"));
    assert!(!taken("a$b"));
}

#[test]
fn what_is_no_key_expression_is_not_taken() {
    for key in ["", "   ", "/a", "a/", "a//b", "a#b", "a?b"] {
        assert!(!taken(key), "{}", key);
    }
}

#[test]
fn second_rewrite_changes_nothing() {
    for key in [" a/b ", "a//b", "", "x/**"] {
        let mut wire_expr = rewrite(key);
        GrpcHookInterceptor::apply_rewrite(&mut wire_expr, key);
        assert_eq!(wire_expr, rewrite(key));
    }
}
