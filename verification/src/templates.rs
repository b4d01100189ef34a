//! Framework composers and the artifact pieces they share.
//!
//! Each composer is a pure function from a configuration to an ordered
//! artifact list; this module holds the parts common to both frameworks
//! (database scaffolding, stylesheet bodies, the environment file) and
//! dispatches on the configured framework.

pub mod nextjs;
pub mod tanstack;

use vstd::prelude::*;
use vstd::string::StringExecFns;
use crate::artifact::{art, arts_views, Artifact, ArtifactView};
use crate::config::{ConfigView, Database, Framework, ProjectConfig};
use crate::render::{
    joined_lines, lemma_joined1, lemma_joined2, lemma_joined3, lemma_joined_lines_brace_safe,
};
use crate::subst::{dbrace_free, lbrace_free, lemma_dbrace_free_no_token};

verus! {

/// The stylesheet body: utility-framework directives when styling is
/// enabled, a minimal reset otherwise.
pub open spec fn css_text(tailwind: bool) -> Seq<char> {
    if tailwind {
        "@tailwind base;\n@tailwind components;\n@tailwind utilities;\n"@
    } else {
        "* {\n  box-sizing: border-box;\n  padding: 0;\n  margin: 0;\n}\n"@
    }
}

/// The plugin configuration emitted alongside the styling setup.
pub open spec fn postcss_text() -> Seq<char> {
    "module.exports = {\n  plugins: {\n    tailwindcss: {},\n    autoprefixer: {},\n  },\n}\n"@
}

/// Schema stub for the document-database provider.
pub open spec fn convex_schema_text() -> Seq<char> {
    "import { defineSchema, defineTable } from \"convex/server\";\nimport { v } from \"convex/values\";\n\nexport default defineSchema({\n  // Define your tables here\n  // example: exampleTable: defineTable({ name: v.string() }),\n});\n"@
}

/// Schema stub for the relational provider.
pub open spec fn drizzle_schema_text() -> Seq<char> {
    "import { pgTable, serial, text, timestamp } from 'drizzle-orm/pg-core';\n\nexport const users = pgTable('users', {\n  id: serial('id').primaryKey(),\n  name: text('name').notNull(),\n  email: text('email').notNull(),\n  createdAt: timestamp('created_at').defaultNow(),\n});\n"@
}

/// Migration-tool configuration for the relational provider.
pub open spec fn drizzle_config_text() -> Seq<char> {
    "import type { Config } from 'drizzle-kit';\n\nexport default {\n  schema: './db/schema.ts',\n  out: './drizzle',\n  driver: 'pg',\n  dbCredentials: {\n    connectionString: process.env.DATABASE_URL!,\n  },\n} satisfies Config;\n"@
}

/// The artifacts a database provider adds; the providers' sets are
/// disjoint and the empty choice adds none.
pub open spec fn db_artifacts(db: Database) -> Seq<ArtifactView> {
    match db {
        Database::Convex => seq![art("convex/schema.ts"@, convex_schema_text())],
        Database::NeonDrizzle => seq![
            art("db/schema.ts"@, drizzle_schema_text()),
            art("drizzle.config.ts"@, drizzle_config_text()),
        ],
        Database::NoDb => Seq::empty(),
    }
}

/// The dependencies a database provider adds to the manifest.
pub open spec fn db_deps(db: Database) -> Seq<Seq<char>> {
    match db {
        Database::Convex => seq!["convex"@],
        Database::NeonDrizzle => seq![
            "drizzle-orm"@,
            "@neondatabase/serverless"@,
            "drizzle-kit"@,
        ],
        Database::NoDb => Seq::empty(),
    }
}

/// Name of the client-exposed auth key; its prefix is framework
/// conventional.
pub open spec fn pub_key_line(fw: Framework) -> Seq<char> {
    match fw {
        Framework::NextJs => "NEXT_PUBLIC_CLERK_PUBLISHABLE_KEY="@,
        Framework::TanStackStart => "VITE_CLERK_PUBLISHABLE_KEY="@,
    }
}

/// The environment file is emitted exactly when auth is enabled or the
/// relational provider is selected.
pub open spec fn env_needed(use_clerk: bool, db: Database) -> bool {
    use_clerk || db == Database::NeonDrizzle
}

/// The lines of the environment file, in fixed order: the two auth
/// variables first, then the database variable, each present exactly when
/// its condition holds.
pub open spec fn env_lines(fw: Framework, clerk: bool, neon: bool) -> Seq<Seq<char>> {
    (if clerk {
        seq![pub_key_line(fw), "CLERK_SECRET_KEY="@]
    } else {
        Seq::empty()
    }) + (if neon {
        seq!["DATABASE_URL="@]
    } else {
        Seq::empty()
    })
}

/// The environment file's content: its lines, each newline terminated.
pub open spec fn env_text(fw: Framework, clerk: bool, neon: bool) -> Seq<char> {
    joined_lines(env_lines(fw, clerk, neon))
}

/// The environment file's lines for a configuration.
pub open spec fn env_lines_of(c: ConfigView) -> Seq<Seq<char>> {
    env_lines(c.framework, c.use_clerk, c.database == Database::NeonDrizzle)
}

/// The environment file's content for a configuration.
pub open spec fn env_text_of(c: ConfigView) -> Seq<char> {
    env_text(c.framework, c.use_clerk, c.database == Database::NeonDrizzle)
}

/// The environment-file artifact block: one artifact exactly when the
/// file is needed, none otherwise.
pub open spec fn env_block(c: ConfigView) -> Seq<ArtifactView> {
    if env_needed(c.use_clerk, c.database) {
        seq![
            art(
                ".env.local"@,
                env_text(c.framework, c.use_clerk, c.database == Database::NeonDrizzle),
            ),
        ]
    } else {
        Seq::empty()
    }
}

/// The environment file's lines hold no brace characters, so its content
/// never holds the placeholder token.
pub proof fn lemma_env_text_token_free(fw: Framework, clerk: bool, neon: bool)
    ensures
        !crate::subst::has_token(env_text(fw, clerk, neon)),
{
    reveal_strlit("NEXT_PUBLIC_CLERK_PUBLISHABLE_KEY=");
    reveal_strlit("VITE_CLERK_PUBLISHABLE_KEY=");
    reveal_strlit("CLERK_SECRET_KEY=");
    reveal_strlit("DATABASE_URL=");
    assert(lbrace_free(pub_key_line(fw))) by {
        assert(lbrace_free("NEXT_PUBLIC_CLERK_PUBLISHABLE_KEY="@));
        assert(lbrace_free("VITE_CLERK_PUBLISHABLE_KEY="@));
    }
    assert(lbrace_free("CLERK_SECRET_KEY="@));
    assert(lbrace_free("DATABASE_URL="@));
    let lines = env_lines(fw, clerk, neon);
    assert(forall|i: int| 0 <= i < lines.len() ==> lbrace_free(#[trigger] lines[i]));
    lemma_joined_lines_brace_safe(lines);
    lemma_dbrace_free_no_token(env_text(fw, clerk, neon));
}

/// None of the contents shared by the two composers holds the
/// placeholder token.
pub proof fn lemma_shared_contents_token_free(tailwind: bool)
    ensures
        !crate::subst::has_token(css_text(tailwind)),
        !crate::subst::has_token(postcss_text()),
        !crate::subst::has_token(convex_schema_text()),
        !crate::subst::has_token(drizzle_schema_text()),
        !crate::subst::has_token(drizzle_config_text()),
{
    reveal_strlit("@tailwind base;\n@tailwind components;\n@tailwind utilities;\n");
    reveal_strlit("* {\n  box-sizing: border-box;\n  padding: 0;\n  margin: 0;\n}\n");
    reveal_strlit(
        "module.exports = {\n  plugins: {\n    tailwindcss: {},\n    autoprefixer: {},\n  },\n}\n",
    );
    reveal_strlit(
        "import { defineSchema, defineTable } from \"convex/server\";\nimport { v } from \"convex/values\";\n\nexport default defineSchema({\n  // Define your tables here\n  // example: exampleTable: defineTable({ name: v.string() }),\n});\n",
    );
    reveal_strlit(
        "import { pgTable, serial, text, timestamp } from 'drizzle-orm/pg-core';\n\nexport const users = pgTable('users', {\n  id: serial('id').primaryKey(),\n  name: text('name').notNull(),\n  email: text('email').notNull(),\n  createdAt: timestamp('created_at').defaultNow(),\n});\n",
    );
    reveal_strlit(
        "import type { Config } from 'drizzle-kit';\n\nexport default {\n  schema: './db/schema.ts',\n  out: './drizzle',\n  driver: 'pg',\n  dbCredentials: {\n    connectionString: process.env.DATABASE_URL!,\n  },\n} satisfies Config;\n",
    );
    assert(dbrace_free(css_text(tailwind))) by {
        assert(dbrace_free(css_text(true)));
        assert(dbrace_free(css_text(false)));
    }
    assert(dbrace_free(postcss_text()));
    assert(dbrace_free(convex_schema_text()));
    assert(dbrace_free(drizzle_schema_text()));
    assert(dbrace_free(drizzle_config_text()));
    lemma_dbrace_free_no_token(css_text(tailwind));
    lemma_dbrace_free_no_token(postcss_text());
    lemma_dbrace_free_no_token(convex_schema_text());
    lemma_dbrace_free_no_token(drizzle_schema_text());
    lemma_dbrace_free_no_token(drizzle_config_text());
}

/// Render the environment file for the given conditions.
pub fn render_env(fw: Framework, clerk: bool, neon: bool) -> (r: String)
    ensures
        r@ == env_text(fw, clerk, neon),
{
    let mut out = String::new();
    if clerk {
        match fw {
            Framework::NextJs => out.append("NEXT_PUBLIC_CLERK_PUBLISHABLE_KEY="),
            Framework::TanStackStart => out.append("VITE_CLERK_PUBLISHABLE_KEY="),
        }
        out.append("\n");
        out.append("CLERK_SECRET_KEY=");
        out.append("\n");
    }
    if neon {
        out.append("DATABASE_URL=");
        out.append("\n");
    }
    proof {
        let pk = pub_key_line(fw);
        let sk = "CLERK_SECRET_KEY="@;
        let db = "DATABASE_URL="@;
        if clerk && neon {
            assert(env_lines(fw, clerk, neon) =~= seq![pk, sk, db]);
            lemma_joined3(pk, sk, db);
            assert(out@ =~= pk + "\n"@ + sk + "\n"@ + db + "\n"@);
        } else if clerk {
            assert(env_lines(fw, clerk, neon) =~= seq![pk, sk]);
            lemma_joined2(pk, sk);
            assert(out@ =~= pk + "\n"@ + sk + "\n"@);
        } else if neon {
            assert(env_lines(fw, clerk, neon) =~= seq![db]);
            lemma_joined1(db);
            assert(out@ =~= db + "\n"@);
        } else {
            assert(env_lines(fw, clerk, neon) =~= Seq::<Seq<char>>::empty());
            assert(out@ =~= env_text(fw, clerk, neon));
        }
    }
    out
}

/// Stylesheet artifact content for the styling flag.
pub fn css_content(tailwind: bool) -> (r: String)
    ensures
        r@ == css_text(tailwind),
{
    if tailwind {
        String::from_str("@tailwind base;\n@tailwind components;\n@tailwind utilities;\n")
    } else {
        String::from_str("* {\n  box-sizing: border-box;\n  padding: 0;\n  margin: 0;\n}\n")
    }
}

/// Push the database provider's artifacts, if any.
pub fn push_db_artifacts(v: &mut Vec<Artifact>, db: Database)
    ensures
        arts_views(final(v)@) =~= arts_views(old(v)@) + db_artifacts(db),
{
    match db {
        Database::Convex => {
            let content = String::from_str(
                "import { defineSchema, defineTable } from \"convex/server\";\nimport { v } from \"convex/values\";\n\nexport default defineSchema({\n  // Define your tables here\n  // example: exampleTable: defineTable({ name: v.string() }),\n});\n",
            );
            v.push(Artifact::new(String::from_str("convex/schema.ts"), content));
        },
        Database::NeonDrizzle => {
            let schema = String::from_str(
                "import { pgTable, serial, text, timestamp } from 'drizzle-orm/pg-core';\n\nexport const users = pgTable('users', {\n  id: serial('id').primaryKey(),\n  name: text('name').notNull(),\n  email: text('email').notNull(),\n  createdAt: timestamp('created_at').defaultNow(),\n});\n",
            );
            v.push(Artifact::new(String::from_str("db/schema.ts"), schema));
            let config = String::from_str(
                "import type { Config } from 'drizzle-kit';\n\nexport default {\n  schema: './db/schema.ts',\n  out: './drizzle',\n  driver: 'pg',\n  dbCredentials: {\n    connectionString: process.env.DATABASE_URL!,\n  },\n} satisfies Config;\n",
            );
            v.push(Artifact::new(String::from_str("drizzle.config.ts"), config));
        },
        Database::NoDb => {},
    }
}

/// The full artifact list for a configuration: the active framework's
/// composition.
pub open spec fn artifacts_of(c: ConfigView) -> Seq<ArtifactView> {
    match c.framework {
        Framework::NextJs => nextjs::nextjs_artifacts(c),
        Framework::TanStackStart => tanstack::tanstack_artifacts(c),
    }
}

/// The manifest dependency list for a configuration.
pub open spec fn deps_of(c: ConfigView) -> Seq<Seq<char>> {
    match c.framework {
        Framework::NextJs => nextjs::nextjs_deps(c),
        Framework::TanStackStart => tanstack::tanstack_deps(c),
    }
}

/// Compose the project: the ordered artifact list of the configured
/// framework's composer.
pub fn generate_project(config: &ProjectConfig) -> (r: Vec<Artifact>)
    ensures
        arts_views(r@) == artifacts_of(config@),
{
    match config.framework {
        Framework::NextJs => nextjs::generate_nextjs_project(config),
        Framework::TanStackStart => tanstack::generate_tanstack_project(config),
    }
}

} // verus!
