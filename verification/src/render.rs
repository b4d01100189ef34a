//! Rendering of the dependency manifest and of line-structured files.

use vstd::prelude::*;
use vstd::string::StrSliceExecFns;
use vstd::string::StringExecFns;
use crate::subst::{brace_safe, lbrace_free, lemma_brace_safe_concat, lemma_lbrace_free_brace_safe};
use crate::text::str_views;

verus! {

/// One dependency line of the manifest, without separator.
pub open spec fn dep_entry(d: Seq<char>) -> Seq<char> {
    "    \""@ + d + "\": \"latest\""@
}

/// The dependency lines joined with `",\n"` separators.
pub open spec fn dep_lines(deps: Seq<Seq<char>>) -> Seq<char>
    decreases deps.len(),
{
    if deps.len() == 0 {
        Seq::empty()
    } else if deps.len() == 1 {
        dep_entry(deps[0])
    } else {
        dep_lines(deps.drop_last()) + ",\n"@ + dep_entry(deps.last())
    }
}

/// The full manifest document: fixed frame, the project name, the
/// framework's fixed scripts block, the dependency lines, and the
/// framework's fixed dev-dependency block.
pub open spec fn manifest_text(
    name: Seq<char>,
    scripts: Seq<char>,
    deps: Seq<Seq<char>>,
    devdeps: Seq<char>,
) -> Seq<char> {
    "{\n  \"name\": \""@ + name + "\",\n  \"version\": \"0.1.0\",\n  \"private\": true,\n  \"scripts\": {\n"@
        + scripts + "  },\n  \"dependencies\": {\n"@ + dep_lines(deps)
        + "\n  },\n  \"devDependencies\": {\n"@ + devdeps + "  }\n}\n"@
}

/// Lines joined by appending a newline to each.
pub open spec fn joined_lines(lines: Seq<Seq<char>>) -> Seq<char>
    decreases lines.len(),
{
    if lines.len() == 0 {
        Seq::empty()
    } else {
        joined_lines(lines.drop_last()) + lines.last() + "\n"@
    }
}

pub proof fn lemma_joined1(l1: Seq<char>)
    ensures
        joined_lines(seq![l1]) == l1 + "\n"@,
{
    assert(joined_lines(Seq::<Seq<char>>::empty()) == Seq::<char>::empty());
    assert(seq![l1].drop_last() =~= Seq::<Seq<char>>::empty());
    assert(joined_lines(seq![l1]) =~= l1 + "\n"@);
}

pub proof fn lemma_joined2(l1: Seq<char>, l2: Seq<char>)
    ensures
        joined_lines(seq![l1, l2]) == l1 + "\n"@ + l2 + "\n"@,
{
    lemma_joined1(l1);
    assert(seq![l1, l2].drop_last() =~= seq![l1]);
    assert(joined_lines(seq![l1, l2]) =~= l1 + "\n"@ + l2 + "\n"@);
}

pub proof fn lemma_joined3(l1: Seq<char>, l2: Seq<char>, l3: Seq<char>)
    ensures
        joined_lines(seq![l1, l2, l3]) == l1 + "\n"@ + l2 + "\n"@ + l3 + "\n"@,
{
    lemma_joined2(l1, l2);
    assert(seq![l1, l2, l3].drop_last() =~= seq![l1, l2]);
    assert(joined_lines(seq![l1, l2, l3]) =~= l1 + "\n"@ + l2 + "\n"@ + l3 + "\n"@);
}

/// A dependency line built from a `'{'`-free name is safe to
/// concatenate.
proof fn lemma_dep_entry_brace_safe(d: Seq<char>)
    requires
        lbrace_free(d),
    ensures
        brace_safe(dep_entry(d)),
{
    reveal_strlit("    \"");
    reveal_strlit("\": \"latest\"");
    assert(brace_safe("    \""@));
    assert(brace_safe("\": \"latest\""@));
    lemma_lbrace_free_brace_safe(d);
    lemma_brace_safe_concat("    \""@, d);
    lemma_brace_safe_concat("    \""@ + d, "\": \"latest\""@);
}

/// Dependency lines built from `'{'`-free names are safe to concatenate.
pub proof fn lemma_dep_lines_brace_safe(deps: Seq<Seq<char>>)
    requires
        forall|i: int| 0 <= i < deps.len() ==> lbrace_free(#[trigger] deps[i]),
    ensures
        brace_safe(dep_lines(deps)),
    decreases deps.len(),
{
    reveal_strlit(",\n");
    if deps.len() == 0 {
    } else if deps.len() == 1 {
        lemma_dep_entry_brace_safe(deps[0]);
    } else {
        let front = deps.drop_last();
        assert(forall|i: int| 0 <= i < front.len() ==> lbrace_free(#[trigger] front[i]));
        lemma_dep_lines_brace_safe(front);
        assert(brace_safe(",\n"@));
        lemma_dep_entry_brace_safe(deps.last());
        lemma_brace_safe_concat(dep_lines(front), ",\n"@);
        lemma_brace_safe_concat(dep_lines(front) + ",\n"@, dep_entry(deps.last()));
    }
}

/// A manifest built from a `'{'`-free name, safe script and
/// dev-dependency blocks and `'{'`-free dependency names never holds two
/// adjacent `'{'` characters.
pub proof fn lemma_manifest_brace_safe(
    name: Seq<char>,
    scripts: Seq<char>,
    deps: Seq<Seq<char>>,
    devdeps: Seq<char>,
)
    requires
        lbrace_free(name),
        brace_safe(scripts),
        brace_safe(devdeps),
        forall|i: int| 0 <= i < deps.len() ==> lbrace_free(#[trigger] deps[i]),
    ensures
        brace_safe(manifest_text(name, scripts, deps, devdeps)),
{
    reveal_strlit("{\n  \"name\": \"");
    reveal_strlit("\",\n  \"version\": \"0.1.0\",\n  \"private\": true,\n  \"scripts\": {\n");
    reveal_strlit("  },\n  \"dependencies\": {\n");
    reveal_strlit("\n  },\n  \"devDependencies\": {\n");
    reveal_strlit("  }\n}\n");
    let a = "{\n  \"name\": \""@;
    let b = "\",\n  \"version\": \"0.1.0\",\n  \"private\": true,\n  \"scripts\": {\n"@;
    let c = "  },\n  \"dependencies\": {\n"@;
    let d = "\n  },\n  \"devDependencies\": {\n"@;
    let e = "  }\n}\n"@;
    assert(brace_safe(a));
    assert(brace_safe(b));
    assert(brace_safe(c));
    assert(brace_safe(d));
    assert(brace_safe(e));
    lemma_lbrace_free_brace_safe(name);
    lemma_dep_lines_brace_safe(deps);
    lemma_brace_safe_concat(a, name);
    lemma_brace_safe_concat(a + name, b);
    lemma_brace_safe_concat(a + name + b, scripts);
    lemma_brace_safe_concat(a + name + b + scripts, c);
    lemma_brace_safe_concat(a + name + b + scripts + c, dep_lines(deps));
    lemma_brace_safe_concat(a + name + b + scripts + c + dep_lines(deps), d);
    lemma_brace_safe_concat(a + name + b + scripts + c + dep_lines(deps) + d, devdeps);
    lemma_brace_safe_concat(a + name + b + scripts + c + dep_lines(deps) + d + devdeps, e);
}

/// Lines without `'{'`, joined with newlines, are safe to concatenate.
pub proof fn lemma_joined_lines_brace_safe(lines: Seq<Seq<char>>)
    requires
        forall|i: int| 0 <= i < lines.len() ==> lbrace_free(#[trigger] lines[i]),
    ensures
        brace_safe(joined_lines(lines)),
    decreases lines.len(),
{
    reveal_strlit("\n");
    if lines.len() == 0 {
    } else {
        let front = lines.drop_last();
        assert(forall|i: int| 0 <= i < front.len() ==> lbrace_free(#[trigger] front[i]));
        lemma_joined_lines_brace_safe(front);
        lemma_lbrace_free_brace_safe(lines.last());
        assert(brace_safe("\n"@));
        lemma_brace_safe_concat(joined_lines(front), lines.last());
        lemma_brace_safe_concat(joined_lines(front) + lines.last(), "\n"@);
    }
}

/// Render the dependency lines of `deps`, separated by `",\n"`.
pub fn render_dep_lines(deps: &Vec<String>) -> (r: String)
    ensures
        r@ == dep_lines(str_views(deps@)),
{
    let ghost all = str_views(deps@);
    let mut out = String::new();
    let mut i: usize = 0;
    while i < deps.len()
        invariant
            0 <= i <= deps.len(),
            all == str_views(deps@),
            all.len() == deps.len(),
            out@ == dep_lines(all.take(i as int)),
        decreases deps.len() - i,
    {
        let ghost prev = out@;
        if i > 0 {
            out.append(",\n");
        }
        out.append("    \"");
        out.append(deps[i].as_str());
        out.append("\": \"latest\"");
        proof {
            let t = all.take(i + 1);
            assert(t.drop_last() =~= all.take(i as int));
            assert(t.last() == deps@[i as int]@);
            if i == 0 {
                assert(out@ =~= dep_entry(all[0]));
                assert(t.len() == 1);
                assert(dep_lines(t) == dep_entry(t[0]));
                assert(t[0] == all[0]);
            } else {
                assert(out@ =~= prev + ",\n"@ + dep_entry(t.last()));
                assert(dep_lines(t) == dep_lines(t.drop_last()) + ",\n"@ + dep_entry(t.last()));
            }
            assert(out@ == dep_lines(t));
        }
        i += 1;
    }
    proof {
        assert(all.take(deps@.len() as int) =~= all);
    }
    out
}

/// Render the full manifest document.
pub fn render_manifest(name: &str, scripts: &str, deps: &Vec<String>, devdeps: &str) -> (r: String)
    ensures
        r@ == manifest_text(name@, scripts@, str_views(deps@), devdeps@),
{
    let mut out = String::from_str("{\n  \"name\": \"");
    out.append(name);
    out.append("\",\n  \"version\": \"0.1.0\",\n  \"private\": true,\n  \"scripts\": {\n");
    out.append(scripts);
    out.append("  },\n  \"dependencies\": {\n");
    let lines = render_dep_lines(deps);
    out.append(lines.as_str());
    out.append("\n  },\n  \"devDependencies\": {\n");
    out.append(devdeps);
    out.append("  }\n}\n");
    proof {
        assert(out@ =~= manifest_text(name@, scripts@, str_views(deps@), devdeps@));
    }
    out
}

} // verus!
