//! Placeholder substitution for entry-point templates.
//!
//! Templates carry the literal token `{{PROJECT_NAME}}`; [`substitute`]
//! replaces every occurrence with the project name. The lemmas here show
//! that the name appears in the result wherever the template held the
//! token, and that, for a name without `'{'` and a template in which
//! every `"{{"` begins a full token, no occurrence of the raw token
//! survives substitution.

use vstd::prelude::*;
use vstd::string::StrSliceExecFns;
use vstd::string::StringExecFns;

verus! {

/// The placeholder token as a character sequence.
pub open spec fn token_seq() -> Seq<char> {
    "{{PROJECT_NAME}}"@
}

/// The token occurs in `s` starting at index `i`.
pub open spec fn token_at(s: Seq<char>, i: int) -> bool {
    0 <= i && i + 16 <= s.len() && s.subrange(i, i + 16) == token_seq()
}

/// The token occurs somewhere in `s`.
pub open spec fn has_token(s: Seq<char>) -> bool {
    exists|i: int| token_at(s, i)
}

/// No two adjacent `'{'` characters anywhere in `s`.
pub open spec fn dbrace_free(s: Seq<char>) -> bool {
    forall|i: int| 0 <= i && i + 1 < s.len() ==> !(#[trigger] s[i] == '{' && s[i + 1] == '{')
}

/// No `'{'` character at all in `s`.
pub open spec fn lbrace_free(s: Seq<char>) -> bool {
    forall|i: int| 0 <= i < s.len() ==> #[trigger] s[i] != '{'
}

/// Every adjacent pair of `'{'` characters in `s` starts a full token.
pub open spec fn braces_only_in_tokens(s: Seq<char>) -> bool {
    forall|i: int|
        0 <= i && i + 1 < s.len() && (#[trigger] s[i] == '{' && s[i + 1] == '{') ==> token_at(s, i)
}

/// The suffix of the substitution result produced from position `i` on:
/// at a token occurrence the name is emitted and the scan jumps past the
/// token, otherwise the character is copied.
pub open spec fn subst_from(t: Seq<char>, name: Seq<char>, i: int) -> Seq<char>
    decreases t.len() - i when 0 <= i <= t.len()
{
    if i < 0 || i >= t.len() {
        Seq::empty()
    } else if token_at(t, i) {
        name + subst_from(t, name, i + 16)
    } else {
        seq![t[i]] + subst_from(t, name, i + 1)
    }
}

/// The template with every occurrence of the token replaced by `name`.
pub open spec fn spec_subst(t: Seq<char>, name: Seq<char>) -> Seq<char> {
    subst_from(t, name, 0)
}

/// Shape of the token itself: its length and its brace characters.
pub proof fn lemma_token_shape()
    ensures
        token_seq().len() == 16,
        token_seq()[0] == '{',
        token_seq()[1] == '{',
        token_seq()[15] == '}',
        forall|k: int| 2 <= k < 16 ==> #[trigger] token_seq()[k] != '{',
{
    reveal_strlit("{{PROJECT_NAME}}");
    assert(token_seq().len() == 16);
    assert forall|k: int| 2 <= k < 16 implies #[trigger] token_seq()[k] != '{' by {
        assert(token_seq() =~= token_seq());
    }
}

/// Concatenation preserves freedom from `"{{"` when the junction is safe.
pub proof fn lemma_dbrace_free_concat(a: Seq<char>, b: Seq<char>)
    requires
        dbrace_free(a),
        dbrace_free(b),
        a.len() > 0 && b.len() > 0 ==> !(a.last() == '{' && b.first() == '{'),
    ensures
        dbrace_free(a + b),
{
    let c = a + b;
    assert forall|i: int| 0 <= i && i + 1 < c.len() implies !(#[trigger] c[i] == '{' && c[i + 1]
        == '{') by {
        if i + 1 < a.len() {
            assert(c[i] == a[i] && c[i + 1] == a[i + 1]);
        } else if i + 1 == a.len() {
            assert(c[i] == a.last() && c[i + 1] == b.first());
        } else {
            assert(c[i] == b[i - a.len()] && c[i + 1] == b[i + 1 - a.len()]);
        }
    }
}

/// Substitution of a `'{'`-free, non-empty name into a template whose
/// `"{{"` pairs all start tokens yields a `"{{"`-free result; the first
/// character of a non-empty result is the name's or the template's.
proof fn lemma_subst_from_dbrace_free(t: Seq<char>, name: Seq<char>, i: int)
    requires
        braces_only_in_tokens(t),
        name.len() > 0,
        lbrace_free(name),
        0 <= i <= t.len(),
    ensures
        dbrace_free(subst_from(t, name, i)),
        i < t.len() ==> subst_from(t, name, i).len() > 0,
        i < t.len() ==> subst_from(t, name, i).first() == (if token_at(t, i) {
            name.first()
        } else {
            t[i]
        }),
    decreases t.len() - i,
{
    lemma_token_shape();
    if i >= t.len() {
    } else if token_at(t, i) {
        lemma_subst_from_dbrace_free(t, name, i + 16);
        let rest = subst_from(t, name, i + 16);
        assert(dbrace_free(name));
        lemma_dbrace_free_concat(name, rest);
        assert((name + rest).first() == name.first());
    } else {
        lemma_subst_from_dbrace_free(t, name, i + 1);
        let rest = subst_from(t, name, i + 1);
        let head = seq![t[i]];
        assert(dbrace_free(head));
        if head.last() == '{' && rest.len() > 0 && rest.first() == '{' {
            if i + 1 < t.len() {
                if token_at(t, i + 1) {
                    assert(rest.first() == name.first());
                    assert(false);
                } else {
                    assert(rest.first() == t[i + 1]);
                    assert(t[i] == '{' && t[i + 1] == '{');
                    assert(token_at(t, i));
                    assert(false);
                }
            } else {
                assert(rest.len() == 0);
                assert(false);
            }
        }
        lemma_dbrace_free_concat(head, rest);
        assert((head + rest).first() == t[i]);
    }
}

/// `"{{"`-free and not ending in `'{'`: text that stays `"{{"`-free under
/// concatenation with more such text.
pub open spec fn brace_safe(s: Seq<char>) -> bool {
    dbrace_free(s) && (s.len() > 0 ==> s.last() != '{')
}

/// Text without `'{'` is trivially safe to concatenate.
pub proof fn lemma_lbrace_free_brace_safe(s: Seq<char>)
    requires
        lbrace_free(s),
    ensures
        brace_safe(s),
{
}

/// Concatenation preserves safety.
pub proof fn lemma_brace_safe_concat(a: Seq<char>, b: Seq<char>)
    requires
        brace_safe(a),
        brace_safe(b),
    ensures
        brace_safe(a + b),
{
    lemma_dbrace_free_concat(a, b);
    if b.len() > 0 {
        assert((a + b).last() == b.last());
    } else {
        assert(a + b =~= a);
    }
}

/// A `"{{"`-free sequence holds no token occurrence.
pub proof fn lemma_dbrace_free_no_token(s: Seq<char>)
    requires
        dbrace_free(s),
    ensures
        !has_token(s),
{
    lemma_token_shape();
    assert forall|i: int| !token_at(s, i) by {
        if token_at(s, i) {
            assert(s.subrange(i, i + 16)[0] == s[i]);
            assert(s.subrange(i, i + 16)[1] == s[i + 1]);
            assert(s[i] == '{' && s[i + 1] == '{');
            assert(false);
        }
    }
}

/// Substituting a non-empty, `'{'`-free name into a template whose `"{{"`
/// pairs all begin full tokens leaves no occurrence of the raw token.
pub proof fn lemma_subst_no_token(t: Seq<char>, name: Seq<char>)
    requires
        braces_only_in_tokens(t),
        name.len() > 0,
        lbrace_free(name),
    ensures
        !has_token(spec_subst(t, name)),
{
    lemma_subst_from_dbrace_free(t, name, 0);
    lemma_dbrace_free_no_token(spec_subst(t, name));
}

/// A template assembled as `pre + token + post`, with `"{{"`-free parts
/// and a safe junction, has its `"{{"` pairs only at the token.
pub proof fn lemma_template_shape(pre: Seq<char>, post: Seq<char>)
    requires
        dbrace_free(pre),
        dbrace_free(post),
        pre.len() > 0 ==> pre.last() != '{',
    ensures
        braces_only_in_tokens(pre + token_seq() + post),
        token_at(pre + token_seq() + post, pre.len() as int),
{
    lemma_token_shape();
    let k = pre.len() as int;
    let full = pre + token_seq() + post;
    assert(full.subrange(k, k + 16) =~= token_seq());
    assert(token_at(full, k));
    assert forall|i: int|
        0 <= i && i + 1 < full.len() && (#[trigger] full[i] == '{' && full[i + 1] == '{') implies
        token_at(full, i) by {
        if i + 1 < k {
            assert(full[i] == pre[i] && full[i + 1] == pre[i + 1]);
            assert(false);
        } else if i + 1 == k {
            assert(full[i] == pre.last());
            assert(false);
        } else if i == k {
        } else if i < k + 16 {
            // Inside the token but past its start: position i + 1 lies in
            // token_seq()[2..], which holds no '{'.
            assert(full[i + 1] == token_seq()[i + 1 - k]);
            assert(false);
        } else {
            assert(full[i] == post[i - k - 16] && full[i + 1] == post[i + 1 - k - 16]);
            assert(false);
        }
    }
}

/// Two token occurrences cannot overlap: past its start, the token holds
/// no second `"{{"`.
proof fn lemma_tokens_do_not_overlap(t: Seq<char>, j: int, k: int)
    requires
        token_at(t, j),
        j < k < j + 16,
    ensures
        !token_at(t, k),
{
    lemma_token_shape();
    if token_at(t, k) {
        let off = k - j;
        assert(t.subrange(j, j + 16)[off] == t[k]);
        assert(t.subrange(k, k + 16)[0] == t[k]);
        assert(token_seq()[off] == '{');
        assert(off == 1);
        assert(t.subrange(j, j + 16)[2] == t[j + 2]);
        assert(t.subrange(k, k + 16)[1] == t[k + 1]);
        assert(t[j + 2] == token_seq()[2]);
        assert(t[k + 1] == token_seq()[1]);
        assert(false);
    }
}

/// The scan from position `i` reaches the token occurrence at `k` and
/// emits the name there.
proof fn lemma_subst_from_contains_name(t: Seq<char>, name: Seq<char>, i: int, k: int)
    requires
        token_at(t, k),
        0 <= i <= k,
        name.len() > 0,
    ensures
        crate::text::has_substr(subst_from(t, name, i), name),
    decreases k - i,
{
    let n = name.len() as int;
    if i == k {
        let rest = subst_from(t, name, i + 16);
        let s = name + rest;
        assert(subst_from(t, name, i) == s);
        assert(s.subrange(0, n) =~= name);
        assert(crate::text::substr_at(s, 0, name));
    } else if token_at(t, i) {
        if k < i + 16 {
            lemma_tokens_do_not_overlap(t, i, k);
        }
        lemma_subst_from_contains_name(t, name, i + 16, k);
        let rest = subst_from(t, name, i + 16);
        let p = choose|p: int| crate::text::substr_at(rest, p, name);
        let s = name + rest;
        assert(s.subrange(n + p, n + p + n) =~= rest.subrange(p, p + n));
        assert(crate::text::substr_at(s, n + p, name));
    } else {
        lemma_subst_from_contains_name(t, name, i + 1, k);
        let rest = subst_from(t, name, i + 1);
        let p = choose|p: int| crate::text::substr_at(rest, p, name);
        let s = seq![t[i]] + rest;
        assert(s.subrange(1 + p, 1 + p + n) =~= rest.subrange(p, p + n));
        assert(crate::text::substr_at(s, 1 + p, name));
    }
}

/// Wherever the template holds a token, the substituted name occurs in
/// the result.
pub proof fn lemma_subst_contains_name(t: Seq<char>, name: Seq<char>)
    requires
        has_token(t),
        name.len() > 0,
    ensures
        crate::text::has_substr(spec_subst(t, name), name),
{
    let k = choose|k: int| token_at(t, k);
    lemma_subst_from_contains_name(t, name, 0, k);
}

/// Whether the token occurs in `t` at character position `i`.
fn token_match_at(t: &str, i: usize, len: usize) -> (b: bool)
    requires
        len == t@.len(),
        i <= len,
    ensures
        b == token_at(t@, i as int),
{
    proof {
        lemma_token_shape();
    }
    if len - i < 16 {
        proof {
            if token_at(t@, i as int) {
                assert(false);
            }
        }
        return false;
    }
    let tok = "{{PROJECT_NAME}}";
    proof {
        reveal_strlit("{{PROJECT_NAME}}");
    }
    let mut j: usize = 0;
    let mut ok = true;
    while j < 16
        invariant
            0 <= j <= 16,
            len == t@.len(),
            i + 16 <= len,
            tok@ == token_seq(),
            token_seq().len() == 16,
            ok == (forall|k: int| 0 <= k < j ==> t@[i + k] == token_seq()[k]),
        decreases 16 - j,
    {
        let a = t.get_char(i + j);
        let b = tok.get_char(j);
        if a != b {
            ok = false;
        }
        j += 1;
    }
    proof {
        if ok {
            assert(t@.subrange(i as int, i + 16) =~= token_seq());
        } else {
            if token_at(t@, i as int) {
                let sub = t@.subrange(i as int, i + 16);
                assert forall|k: int| 0 <= k < 16 implies t@[i + k] == token_seq()[k] by {
                    assert(sub[k] == t@[i + k]);
                }
                assert(false);
            }
        }
    }
    ok
}

/// Replace every occurrence of the placeholder token in `t` with `name`.
pub fn substitute(t: &str, name: &str) -> (r: String)
    ensures
        r@ == spec_subst(t@, name@),
{
    let len = t.unicode_len();
    let mut out = String::new();
    let mut i: usize = 0;
    while i < len
        invariant
            0 <= i <= len,
            len == t@.len(),
            spec_subst(t@, name@) == out@ + subst_from(t@, name@, i as int),
        decreases len - i,
    {
        let ghost prev = out@;
        if token_match_at(t, i, len) {
            out.append(name);
            proof {
                assert(subst_from(t@, name@, i as int) == name@ + subst_from(
                    t@,
                    name@,
                    i + 16,
                ));
                assert(prev + (name@ + subst_from(t@, name@, i + 16)) =~= (prev + name@)
                    + subst_from(t@, name@, i + 16));
            }
            i += 16;
        } else {
            let c = t.substring_char(i, i + 1);
            out.append(c);
            proof {
                assert(c@ =~= seq![t@[i as int]]);
                assert(subst_from(t@, name@, i as int) == seq![t@[i as int]] + subst_from(
                    t@,
                    name@,
                    i + 1,
                ));
                assert(prev + (seq![t@[i as int]] + subst_from(t@, name@, i + 1)) =~= (prev
                    + c@) + subst_from(t@, name@, i + 1));
            }
            i += 1;
        }
    }
    proof {
        assert(spec_subst(t@, name@) =~= out@ + Seq::<char>::empty());
        assert(out@ + Seq::<char>::empty() =~= out@);
    }
    out
}

} // verus!
