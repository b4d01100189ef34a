//! The engine's cross-cutting guarantees, stated and proved once.

use vstd::prelude::*;
use crate::artifact::{content_at, distinct_paths, has_path, ArtifactView};
use crate::config::{ConfigView, Database, Framework};
use crate::render::joined_lines;
use crate::subst::{
    has_token, lbrace_free, lemma_subst_contains_name, lemma_subst_no_token, spec_subst,
};
use crate::text::has_substr;
use crate::templates::nextjs::{
    layout_template, lemma_nextjs_templates_shape, nextjs_artifacts, page_template,
};
use crate::templates::tanstack::{
    app_tsx_template, index_html_template, lemma_tanstack_templates_shape, tanstack_artifacts,
};
use crate::templates::{
    artifacts_of, deps_of, env_block, env_lines_of, env_needed, env_text_of,
};

verus! {

/// Membership in a concatenation is membership in either part.
proof fn lemma_contains_concat<A>(a: Seq<A>, b: Seq<A>, x: A)
    ensures
        (a + b).contains(x) <==> (a.contains(x) || b.contains(x)),
{
    if (a + b).contains(x) {
        let i = choose|i: int| 0 <= i < (a + b).len() && (a + b)[i] == x;
        if i < a.len() {
            assert(a[i] == x);
        } else {
            assert(b[i - a.len()] == x);
        }
    }
    if a.contains(x) {
        let i = choose|i: int| 0 <= i < a.len() && a[i] == x;
        assert((a + b)[i] == x);
    }
    if b.contains(x) {
        let i = choose|i: int| 0 <= i < b.len() && b[i] == x;
        assert((a + b)[a.len() + i] == x);
    }
}

/// Length and distinguishing-character facts of every artifact path, so
/// that the paths' pairwise disequality is available to the lemmas here.
proof fn lemma_path_literal_facts()
    ensures
        "package.json"@.len() == 12 && "package.json"@[0] == 'p',
        "tsconfig.json"@.len() == 13 && "tsconfig.json"@[0] == 't',
        "next.config.js"@.len() == 14 && "next.config.js"@[0] == 'n',
        "app/layout.tsx"@.len() == 14 && "app/layout.tsx"@[0] == 'a',
        "app/page.tsx"@.len() == 12 && "app/page.tsx"@[0] == 'a',
        "app/globals.css"@.len() == 15,
        "tailwind.config.js"@.len() == 18,
        "postcss.config.js"@.len() == 17 && "postcss.config.js"@[0] == 'p',
        "middleware.ts"@.len() == 13 && "middleware.ts"@[0] == 'm',
        "convex/schema.ts"@.len() == 16,
        "db/schema.ts"@.len() == 12 && "db/schema.ts"@[0] == 'd',
        "drizzle.config.ts"@.len() == 17 && "drizzle.config.ts"@[0] == 'd',
        ".gitignore"@.len() == 10 && ".gitignore"@[0] == '.' && ".gitignore"@[1] == 'g',
        ".env.local"@.len() == 10 && ".env.local"@[0] == '.' && ".env.local"@[1] == 'e',
        "app.tsx"@.len() == 7 && "app.tsx"@[4] == 't',
        "app.css"@.len() == 7 && "app.css"@[4] == 'c',
        "index.html"@.len() == 10 && "index.html"@[0] == 'i',
        "app.config.ts"@.len() == 13 && "app.config.ts"@[0] == 'a',
        "auth.tsx"@.len() == 8,
{
    reveal_strlit("package.json");
    reveal_strlit("tsconfig.json");
    reveal_strlit("next.config.js");
    reveal_strlit("app/layout.tsx");
    reveal_strlit("app/page.tsx");
    reveal_strlit("app/globals.css");
    reveal_strlit("tailwind.config.js");
    reveal_strlit("postcss.config.js");
    reveal_strlit("middleware.ts");
    reveal_strlit("convex/schema.ts");
    reveal_strlit("db/schema.ts");
    reveal_strlit("drizzle.config.ts");
    reveal_strlit(".gitignore");
    reveal_strlit(".env.local");
    reveal_strlit("app.tsx");
    reveal_strlit("app.css");
    reveal_strlit("index.html");
    reveal_strlit("app.config.ts");
    reveal_strlit("auth.tsx");
}

/// Every configuration composes a non-empty artifact list with no two
/// artifacts on the same path.
pub proof fn lemma_composition_well_formed(c: ConfigView)
    ensures
        artifacts_of(c).len() > 0,
        distinct_paths(artifacts_of(c)),
{
    lemma_path_literal_facts();
    match c.framework {
        Framework::NextJs => {
            assert(distinct_paths(nextjs_artifacts(c)));
        },
        Framework::TanStackStart => {
            assert(distinct_paths(tanstack_artifacts(c)));
        },
    }
}

/// The declared dependency set is monotonic in the flags: a configuration
/// whose styling, auth or database choice is enabled declares every
/// dependency that the configuration without it declares.
pub proof fn lemma_deps_monotonic(c: ConfigView, d: ConfigView)
    requires
        d.framework == c.framework,
        c.use_tailwind ==> d.use_tailwind,
        c.use_clerk ==> d.use_clerk,
        c.database == d.database || c.database == Database::NoDb,
    ensures
        forall|x: Seq<char>| deps_of(c).contains(x) ==> deps_of(d).contains(x),
{
    assert forall|x: Seq<char>| deps_of(c).contains(x) implies deps_of(d).contains(x) by {
        match c.framework {
            Framework::NextJs => {
                lemma_deps_monotonic_blocks(
                    seq!["next"@, "react"@, "react-dom"@],
                    seq!["tailwindcss"@, "postcss"@, "autoprefixer"@],
                    seq!["@clerk/nextjs"@],
                    c,
                    d,
                    x,
                );
            },
            Framework::TanStackStart => {
                lemma_deps_monotonic_blocks(
                    seq!["@tanstack/start"@, "@tanstack/router"@, "react"@, "react-dom"@, "vinxi"@],
                    seq!["tailwindcss"@, "postcss"@, "autoprefixer"@],
                    seq!["@clerk/clerk-react"@],
                    c,
                    d,
                    x,
                );
            },
        }
    }
}

/// Blockwise form of the monotonicity argument, shared by the two
/// composers' dependency lists.
proof fn lemma_deps_monotonic_blocks(
    base: Seq<Seq<char>>,
    sty: Seq<Seq<char>>,
    auth: Seq<Seq<char>>,
    c: ConfigView,
    d: ConfigView,
    x: Seq<char>,
)
    requires
        c.use_tailwind ==> d.use_tailwind,
        c.use_clerk ==> d.use_clerk,
        c.database == d.database || c.database == Database::NoDb,
        deps_of(c) == base + (if c.use_tailwind {
            sty
        } else {
            Seq::<Seq<char>>::empty()
        }) + (if c.use_clerk {
            auth
        } else {
            Seq::<Seq<char>>::empty()
        }) + crate::templates::db_deps(c.database),
        deps_of(d) == base + (if d.use_tailwind {
            sty
        } else {
            Seq::<Seq<char>>::empty()
        }) + (if d.use_clerk {
            auth
        } else {
            Seq::<Seq<char>>::empty()
        }) + crate::templates::db_deps(d.database),
        deps_of(c).contains(x),
    ensures
        deps_of(d).contains(x),
{
    let e = Seq::<Seq<char>>::empty();
    let cs = if c.use_tailwind { sty } else { e };
    let ca = if c.use_clerk { auth } else { e };
    let cd = crate::templates::db_deps(c.database);
    let ds = if d.use_tailwind { sty } else { e };
    let da = if d.use_clerk { auth } else { e };
    let dd = crate::templates::db_deps(d.database);
    lemma_contains_concat(base + cs + ca, cd, x);
    lemma_contains_concat(base + cs, ca, x);
    lemma_contains_concat(base, cs, x);
    lemma_contains_concat(base + ds + da, dd, x);
    lemma_contains_concat(base + ds, da, x);
    lemma_contains_concat(base, ds, x);
    if cd.contains(x) {
        assert(c.database != Database::NoDb);
        assert(dd == cd);
    }
}

/// The environment file exists exactly when auth is enabled or the
/// relational provider is selected; its content is its lines, in fixed
/// order, each non-empty, newline-free and emitted exactly when its
/// condition holds: two auth variables, then the database variable.
pub proof fn lemma_env_file(c: ConfigView)
    ensures
        has_path(artifacts_of(c), ".env.local"@) <==> env_needed(c.use_clerk, c.database),
        env_needed(c.use_clerk, c.database) ==> content_at(artifacts_of(c), ".env.local"@)
            == env_text_of(c),
        env_text_of(c) == joined_lines(env_lines_of(c)),
        env_lines_of(c).len() == (if c.use_clerk {
            2int
        } else {
            0int
        }) + (if c.database == Database::NeonDrizzle {
            1int
        } else {
            0int
        }),
        forall|k: int|
            0 <= k < env_lines_of(c).len() ==> (#[trigger] env_lines_of(c)[k]).len() > 0,
        forall|k: int, j: int|
            0 <= k < env_lines_of(c).len() && 0 <= j < env_lines_of(c)[k].len() ==> (
            #[trigger] env_lines_of(c)[k][j]) != '\n',
{
    lemma_composition_well_formed(c);
    reveal_strlit("NEXT_PUBLIC_CLERK_PUBLISHABLE_KEY=");
    reveal_strlit("VITE_CLERK_PUBLISHABLE_KEY=");
    reveal_strlit("CLERK_SECRET_KEY=");
    reveal_strlit("DATABASE_URL=");
    assert("NEXT_PUBLIC_CLERK_PUBLISHABLE_KEY="@.len() == 34);
    assert("VITE_CLERK_PUBLISHABLE_KEY="@.len() == 27);
    assert("CLERK_SECRET_KEY="@.len() == 17);
    assert("DATABASE_URL="@.len() == 13);
    assert(forall|j: int|
        0 <= j < "NEXT_PUBLIC_CLERK_PUBLISHABLE_KEY="@.len()
            ==> #[trigger] "NEXT_PUBLIC_CLERK_PUBLISHABLE_KEY="@[j] != '\n');
    assert(forall|j: int|
        0 <= j < "VITE_CLERK_PUBLISHABLE_KEY="@.len()
            ==> #[trigger] "VITE_CLERK_PUBLISHABLE_KEY="@[j] != '\n');
    assert(forall|j: int|
        0 <= j < "CLERK_SECRET_KEY="@.len() ==> #[trigger] "CLERK_SECRET_KEY="@[j] != '\n');
    assert(forall|j: int|
        0 <= j < "DATABASE_URL="@.len() ==> #[trigger] "DATABASE_URL="@[j] != '\n');
    lemma_path_literal_facts();
    let arts = artifacts_of(c);
    let p = ".env.local"@;
    if env_needed(c.use_clerk, c.database) {
        let last = arts.len() - 1;
        assert(arts[last].path == p);
        assert(has_path(arts, p));
        assert(arts[last].content == env_text_of(c));
        let i = choose|i: int| 0 <= i < arts.len() && (#[trigger] arts[i].path) == p;
        if i != last {
            assert(arts[i].path != arts[last].path);
            assert(false);
        }
    } else {
        assert(env_block(c) =~= Seq::<ArtifactView>::empty());
        if has_path(arts, p) {
            let i = choose|i: int| 0 <= i < arts.len() && (#[trigger] arts[i].path) == p;
            assert(false);
        }
    }
}

/// For a non-empty project name without `'{'`, no composed artifact's
/// content — entry points, manifest, configuration files, schemas, the
/// ignore and environment files — holds an occurrence of the raw
/// placeholder token.
pub proof fn lemma_no_token_in_artifacts(c: ConfigView)
    requires
        c.name.len() > 0,
        lbrace_free(c.name),
    ensures
        forall|i: int|
            0 <= i < artifacts_of(c).len() ==> !has_token(
                #[trigger] artifacts_of(c)[i].content,
            ),
{
    crate::templates::lemma_shared_contents_token_free(c.use_tailwind);
    crate::templates::lemma_env_text_token_free(
        c.framework,
        c.use_clerk,
        c.database == Database::NeonDrizzle,
    );
    match c.framework {
        Framework::NextJs => {
            crate::templates::nextjs::lemma_nextjs_contents_token_free(c);
            assert forall|i: int| 0 <= i < artifacts_of(c).len() implies !has_token(
                #[trigger] artifacts_of(c)[i].content,
            ) by {
                assert(artifacts_of(c) == nextjs_artifacts(c));
            }
        },
        Framework::TanStackStart => {
            crate::templates::tanstack::lemma_tanstack_contents_token_free(c);
            assert forall|i: int| 0 <= i < artifacts_of(c).len() implies !has_token(
                #[trigger] artifacts_of(c)[i].content,
            ) by {
                assert(artifacts_of(c) == tanstack_artifacts(c));
            }
        },
    }
}

/// Substituting a non-empty project name without `'{'` into the four
/// entry-point templates replaces every placeholder occurrence: each
/// template holds the placeholder, the name occurs in each result, and no
/// occurrence of the raw token survives.
pub proof fn lemma_entry_substitution(name: Seq<char>)
    requires
        name.len() > 0,
        lbrace_free(name),
    ensures
        has_token(layout_template()) && has_token(page_template()),
        has_token(app_tsx_template()) && has_token(index_html_template()),
        has_substr(spec_subst(layout_template(), name), name),
        has_substr(spec_subst(page_template(), name), name),
        has_substr(spec_subst(app_tsx_template(), name), name),
        has_substr(spec_subst(index_html_template(), name), name),
        !has_token(spec_subst(layout_template(), name)),
        !has_token(spec_subst(page_template(), name)),
        !has_token(spec_subst(app_tsx_template(), name)),
        !has_token(spec_subst(index_html_template(), name)),
{
    lemma_nextjs_templates_shape();
    lemma_tanstack_templates_shape();
    lemma_subst_contains_name(layout_template(), name);
    lemma_subst_contains_name(page_template(), name);
    lemma_subst_contains_name(app_tsx_template(), name);
    lemma_subst_contains_name(index_html_template(), name);
    lemma_subst_no_token(layout_template(), name);
    lemma_subst_no_token(page_template(), name);
    lemma_subst_no_token(app_tsx_template(), name);
    lemma_subst_no_token(index_html_template(), name);
}

} // verus!
