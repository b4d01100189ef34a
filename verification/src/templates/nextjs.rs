//! The Next.js composer.

use vstd::prelude::*;
use vstd::string::StringExecFns;
use crate::artifact::{art, arts_views, Artifact, ArtifactView};
use crate::config::{ConfigView, Database, ProjectConfig};
use crate::render::{lemma_manifest_brace_safe, manifest_text, render_manifest};
use crate::subst::{
    braces_only_in_tokens, dbrace_free, has_token, lbrace_free, lemma_dbrace_free_no_token,
    lemma_lbrace_free_brace_safe, lemma_subst_no_token, lemma_template_shape, spec_subst,
    substitute, token_seq,
};
use crate::templates::{
    css_content, css_text, db_artifacts, db_deps, env_block, postcss_text, push_db_artifacts,
    render_env,
};
use crate::text::str_views;

verus! {

/// The fixed scripts block of the manifest.
pub open spec fn nextjs_scripts() -> Seq<char> {
    "    \"dev\": \"next dev\",\n    \"build\": \"next build\",\n    \"start\": \"next start\",\n    \"lint\": \"next lint\"\n"@
}

/// The fixed dev-dependency block of the manifest.
pub open spec fn nextjs_devdeps() -> Seq<char> {
    "    \"typescript\": \"latest\",\n    \"@types/node\": \"latest\",\n    \"@types/react\": \"latest\",\n    \"@types/react-dom\": \"latest\",\n    \"eslint\": \"latest\",\n    \"eslint-config-next\": \"latest\"\n"@
}

/// The manifest dependencies: base runtime first, then styling, auth and
/// database additions, each exactly when its flag holds.
pub open spec fn nextjs_deps(c: ConfigView) -> Seq<Seq<char>> {
    seq!["next"@, "react"@, "react-dom"@] + (if c.use_tailwind {
        seq!["tailwindcss"@, "postcss"@, "autoprefixer"@]
    } else {
        Seq::empty()
    }) + (if c.use_clerk {
        seq!["@clerk/nextjs"@]
    } else {
        Seq::empty()
    }) + db_deps(c.database)
}

/// The manifest document.
pub open spec fn nextjs_manifest(c: ConfigView) -> Seq<char> {
    manifest_text(c.name, nextjs_scripts(), nextjs_deps(c), nextjs_devdeps())
}

/// The type-checking configuration.
pub open spec fn nextjs_tsconfig_text() -> Seq<char> {
    "{\n  \"compilerOptions\": {\n    \"target\": \"ES2017\",\n    \"lib\": [\"dom\", \"dom.iterable\", \"esnext\"],\n    \"allowJs\": true,\n    \"skipLibCheck\": true,\n    \"strict\": true,\n    \"noEmit\": true,\n    \"esModuleInterop\": true,\n    \"module\": \"esnext\",\n    \"moduleResolution\": \"bundler\",\n    \"resolveJsonModule\": true,\n    \"isolatedModules\": true,\n    \"jsx\": \"preserve\",\n    \"incremental\": true,\n    \"plugins\": [\n      {\n        \"name\": \"next\"\n      }\n    ],\n    \"paths\": {\n      \"@/*\": [\"./*\"]\n    }\n  },\n  \"include\": [\"next-env.d.ts\", \"**/*.ts\", \"**/*.tsx\", \".next/types/**/*.ts\"],\n  \"exclude\": [\"node_modules\"]\n}\n"@
}

/// The framework configuration stub.
pub open spec fn next_config_text() -> Seq<char> {
    "/** @type {import('next').NextConfig} */\nconst nextConfig = {}\n\nmodule.exports = nextConfig\n"@
}

/// The root layout template, up to the project-name placeholder.
pub open spec fn layout_pre() -> Seq<char> {
    "import type { Metadata } from 'next'\nimport './globals.css'\n\nexport const metadata: Metadata = {\n  title: '"@
}

/// The root layout template, after the project-name placeholder.
pub open spec fn layout_post() -> Seq<char> {
    "',\n  description: 'Generated with cp-cli',\n}\n\nexport default function RootLayout({\n  children,\n}: {\n  children: React.ReactNode\n}) {\n  return (\n    <html lang=\"en\">\n      <body>{children}</body>\n    </html>\n  )\n}\n"@
}

/// The root layout entry-point template.
pub open spec fn layout_template() -> Seq<char> {
    layout_pre() + token_seq() + layout_post()
}

/// The landing page template, up to the project-name placeholder.
pub open spec fn page_pre() -> Seq<char> {
    "export default function Home() {\n  return (\n    <main>\n      <h1>Welcome to "@
}

/// The landing page template, after the project-name placeholder.
pub open spec fn page_post() -> Seq<char> {
    "</h1>\n      <p>Get started by editing app/page.tsx</p>\n    </main>\n  )\n}\n"@
}

/// The landing page entry-point template.
pub open spec fn page_template() -> Seq<char> {
    page_pre() + token_seq() + page_post()
}

/// The styling content globs, matching this framework's source layout.
pub open spec fn nextjs_tailwind_text() -> Seq<char> {
    "/** @type {import('tailwindcss').Config} */\nmodule.exports = {\n  content: [\n    './pages/**/*.{js,ts,jsx,tsx,mdx}',\n    './components/**/*.{js,ts,jsx,tsx,mdx}',\n    './app/**/*.{js,ts,jsx,tsx,mdx}',\n  ],\n  theme: {\n    extend: {},\n  },\n  plugins: [],\n}\n"@
}

/// The auth middleware with its route matcher.
pub open spec fn middleware_text() -> Seq<char> {
    "import { clerkMiddleware } from '@clerk/nextjs/server'\n\nexport default clerkMiddleware()\n\nexport const config = {\n  matcher: [\n    '/((?!_next|[^?]*\\\\.(?:html?|css|js(?!on)|jpe?g|webp|png|gif|svg|ttf|woff2?|ico|csv|docx?|xlsx?|zip|webmanifest)).*)',\n    '/(api|trpc)(.*)',\n  ],\n}\n"@
}

/// The ignore file, naming this framework's build outputs.
pub open spec fn nextjs_gitignore_text() -> Seq<char> {
    "# dependencies\n/node_modules\n/.pnp\n.pnp.js\n\n# testing\n/coverage\n\n# next.js\n/.next/\n/out/\n\n# production\n/build\n\n# misc\n.DS_Store\n*.pem\n\n# debug\nnpm-debug.log*\nyarn-debug.log*\nyarn-error.log*\n\n# local env files\n.env*.local\n\n# vercel\n.vercel\n\n# typescript\n*.tsbuildinfo\nnext-env.d.ts\n"@
}

/// The unconditional artifacts, in emission order.
pub open spec fn nextjs_base(c: ConfigView) -> Seq<ArtifactView> {
    seq![
        art("package.json"@, nextjs_manifest(c)),
        art("tsconfig.json"@, nextjs_tsconfig_text()),
        art("next.config.js"@, next_config_text()),
        art("app/layout.tsx"@, spec_subst(layout_template(), c.name)),
        art("app/page.tsx"@, spec_subst(page_template(), c.name)),
        art("app/globals.css"@, css_text(c.use_tailwind)),
    ]
}

/// The styling configuration pair, present exactly when styling is on.
pub open spec fn nextjs_styling(c: ConfigView) -> Seq<ArtifactView> {
    if c.use_tailwind {
        seq![
            art("tailwind.config.js"@, nextjs_tailwind_text()),
            art("postcss.config.js"@, postcss_text()),
        ]
    } else {
        Seq::empty()
    }
}

/// The auth middleware, present exactly when auth is on.
pub open spec fn nextjs_auth(c: ConfigView) -> Seq<ArtifactView> {
    if c.use_clerk {
        seq![art("middleware.ts"@, middleware_text())]
    } else {
        Seq::empty()
    }
}

/// The ordered artifact list of this composer.
pub open spec fn nextjs_artifacts(c: ConfigView) -> Seq<ArtifactView> {
    nextjs_base(c) + nextjs_styling(c) + nextjs_auth(c) + db_artifacts(c.database) + seq![
        art(".gitignore"@, nextjs_gitignore_text()),
    ] + env_block(c)
}

/// In both entry-point templates every `"{{"` starts a full placeholder.
pub proof fn lemma_nextjs_templates_shape()
    ensures
        braces_only_in_tokens(layout_template()),
        braces_only_in_tokens(page_template()),
        has_token(layout_template()),
        has_token(page_template()),
{
    reveal_strlit(
        "import type { Metadata } from 'next'\nimport './globals.css'\n\nexport const metadata: Metadata = {\n  title: '",
    );
    reveal_strlit(
        "',\n  description: 'Generated with cp-cli',\n}\n\nexport default function RootLayout({\n  children,\n}: {\n  children: React.ReactNode\n}) {\n  return (\n    <html lang=\"en\">\n      <body>{children}</body>\n    </html>\n  )\n}\n",
    );
    assert(dbrace_free(layout_pre()));
    assert(dbrace_free(layout_post()));
    assert(layout_pre().last() != '{');
    lemma_template_shape(layout_pre(), layout_post());
    reveal_strlit("export default function Home() {\n  return (\n    <main>\n      <h1>Welcome to ");
    reveal_strlit("</h1>\n      <p>Get started by editing app/page.tsx</p>\n    </main>\n  )\n}\n");
    assert(dbrace_free(page_pre()));
    assert(dbrace_free(page_post()));
    assert(page_pre().last() != '{');
    lemma_template_shape(page_pre(), page_post());
}

/// For a non-empty project name without `'{'`, no artifact content of
/// this composer holds the placeholder token.
pub proof fn lemma_nextjs_contents_token_free(c: ConfigView)
    requires
        c.name.len() > 0,
        lbrace_free(c.name),
    ensures
        !has_token(nextjs_manifest(c)),
        !has_token(nextjs_tsconfig_text()),
        !has_token(next_config_text()),
        !has_token(spec_subst(layout_template(), c.name)),
        !has_token(spec_subst(page_template(), c.name)),
        !has_token(nextjs_tailwind_text()),
        !has_token(middleware_text()),
        !has_token(nextjs_gitignore_text()),
{
    reveal_strlit(
        "    \"dev\": \"next dev\",\n    \"build\": \"next build\",\n    \"start\": \"next start\",\n    \"lint\": \"next lint\"\n",
    );
    reveal_strlit(
        "    \"typescript\": \"latest\",\n    \"@types/node\": \"latest\",\n    \"@types/react\": \"latest\",\n    \"@types/react-dom\": \"latest\",\n    \"eslint\": \"latest\",\n    \"eslint-config-next\": \"latest\"\n",
    );
    assert(lbrace_free(nextjs_scripts()));
    assert(lbrace_free(nextjs_devdeps()));
    lemma_lbrace_free_brace_safe(nextjs_scripts());
    lemma_lbrace_free_brace_safe(nextjs_devdeps());
    reveal_strlit("next");
    reveal_strlit("react");
    reveal_strlit("react-dom");
    reveal_strlit("tailwindcss");
    reveal_strlit("postcss");
    reveal_strlit("autoprefixer");
    reveal_strlit("@clerk/nextjs");
    reveal_strlit("convex");
    reveal_strlit("drizzle-orm");
    reveal_strlit("@neondatabase/serverless");
    reveal_strlit("drizzle-kit");
    assert(lbrace_free("next"@) && lbrace_free("react"@) && lbrace_free("react-dom"@));
    assert(lbrace_free("tailwindcss"@) && lbrace_free("postcss"@) && lbrace_free(
        "autoprefixer"@,
    ));
    assert(lbrace_free("@clerk/nextjs"@) && lbrace_free("convex"@));
    assert(lbrace_free("drizzle-orm"@) && lbrace_free("@neondatabase/serverless"@)
        && lbrace_free("drizzle-kit"@));
    let deps = nextjs_deps(c);
    assert(forall|i: int| 0 <= i < deps.len() ==> lbrace_free(#[trigger] deps[i]));
    lemma_manifest_brace_safe(c.name, nextjs_scripts(), deps, nextjs_devdeps());
    lemma_dbrace_free_no_token(nextjs_manifest(c));
    reveal_strlit(
        "{\n  \"compilerOptions\": {\n    \"target\": \"ES2017\",\n    \"lib\": [\"dom\", \"dom.iterable\", \"esnext\"],\n    \"allowJs\": true,\n    \"skipLibCheck\": true,\n    \"strict\": true,\n    \"noEmit\": true,\n    \"esModuleInterop\": true,\n    \"module\": \"esnext\",\n    \"moduleResolution\": \"bundler\",\n    \"resolveJsonModule\": true,\n    \"isolatedModules\": true,\n    \"jsx\": \"preserve\",\n    \"incremental\": true,\n    \"plugins\": [\n      {\n        \"name\": \"next\"\n      }\n    ],\n    \"paths\": {\n      \"@/*\": [\"./*\"]\n    }\n  },\n  \"include\": [\"next-env.d.ts\", \"**/*.ts\", \"**/*.tsx\", \".next/types/**/*.ts\"],\n  \"exclude\": [\"node_modules\"]\n}\n",
    );
    assert(dbrace_free(nextjs_tsconfig_text()));
    lemma_dbrace_free_no_token(nextjs_tsconfig_text());
    reveal_strlit(
        "/** @type {import('next').NextConfig} */\nconst nextConfig = {}\n\nmodule.exports = nextConfig\n",
    );
    assert(dbrace_free(next_config_text()));
    lemma_dbrace_free_no_token(next_config_text());
    reveal_strlit(
        "/** @type {import('tailwindcss').Config} */\nmodule.exports = {\n  content: [\n    './pages/**/*.{js,ts,jsx,tsx,mdx}',\n    './components/**/*.{js,ts,jsx,tsx,mdx}',\n    './app/**/*.{js,ts,jsx,tsx,mdx}',\n  ],\n  theme: {\n    extend: {},\n  },\n  plugins: [],\n}\n",
    );
    assert(dbrace_free(nextjs_tailwind_text()));
    lemma_dbrace_free_no_token(nextjs_tailwind_text());
    reveal_strlit(
        "import { clerkMiddleware } from '@clerk/nextjs/server'\n\nexport default clerkMiddleware()\n\nexport const config = {\n  matcher: [\n    '/((?!_next|[^?]*\\\\.(?:html?|css|js(?!on)|jpe?g|webp|png|gif|svg|ttf|woff2?|ico|csv|docx?|xlsx?|zip|webmanifest)).*)',\n    '/(api|trpc)(.*)',\n  ],\n}\n",
    );
    assert(dbrace_free(middleware_text()));
    lemma_dbrace_free_no_token(middleware_text());
    reveal_strlit(
        "# dependencies\n/node_modules\n/.pnp\n.pnp.js\n\n# testing\n/coverage\n\n# next.js\n/.next/\n/out/\n\n# production\n/build\n\n# misc\n.DS_Store\n*.pem\n\n# debug\nnpm-debug.log*\nyarn-debug.log*\nyarn-error.log*\n\n# local env files\n.env*.local\n\n# vercel\n.vercel\n\n# typescript\n*.tsbuildinfo\nnext-env.d.ts\n",
    );
    assert(dbrace_free(nextjs_gitignore_text()));
    lemma_dbrace_free_no_token(nextjs_gitignore_text());
    lemma_nextjs_templates_shape();
    lemma_subst_no_token(layout_template(), c.name);
    lemma_subst_no_token(page_template(), c.name);
}

/// The manifest dependency list, as built values.
pub fn nextjs_deps_vec(config: &ProjectConfig) -> (r: Vec<String>)
    ensures
        str_views(r@) == nextjs_deps(config@),
{
    let mut v: Vec<String> = Vec::new();
    v.push(String::from_str("next"));
    v.push(String::from_str("react"));
    v.push(String::from_str("react-dom"));
    if config.use_tailwind {
        v.push(String::from_str("tailwindcss"));
        v.push(String::from_str("postcss"));
        v.push(String::from_str("autoprefixer"));
    }
    if config.use_clerk {
        v.push(String::from_str("@clerk/nextjs"));
    }
    match config.database {
        Database::Convex => {
            v.push(String::from_str("convex"));
        },
        Database::NeonDrizzle => {
            v.push(String::from_str("drizzle-orm"));
            v.push(String::from_str("@neondatabase/serverless"));
            v.push(String::from_str("drizzle-kit"));
        },
        Database::NoDb => {},
    }
    proof {
        assert(str_views(v@) =~= nextjs_deps(config@));
    }
    v
}

/// Compose the full artifact set for this framework.
pub fn generate_nextjs_project(config: &ProjectConfig) -> (r: Vec<Artifact>)
    ensures
        arts_views(r@) == nextjs_artifacts(config@),
{
    let mut v: Vec<Artifact> = Vec::new();

    let deps = nextjs_deps_vec(config);
    let manifest = render_manifest(
        config.name.as_str(),
        "    \"dev\": \"next dev\",\n    \"build\": \"next build\",\n    \"start\": \"next start\",\n    \"lint\": \"next lint\"\n",
        &deps,
        "    \"typescript\": \"latest\",\n    \"@types/node\": \"latest\",\n    \"@types/react\": \"latest\",\n    \"@types/react-dom\": \"latest\",\n    \"eslint\": \"latest\",\n    \"eslint-config-next\": \"latest\"\n",
    );
    v.push(Artifact::new(String::from_str("package.json"), manifest));

    let tsconfig = String::from_str(
        "{\n  \"compilerOptions\": {\n    \"target\": \"ES2017\",\n    \"lib\": [\"dom\", \"dom.iterable\", \"esnext\"],\n    \"allowJs\": true,\n    \"skipLibCheck\": true,\n    \"strict\": true,\n    \"noEmit\": true,\n    \"esModuleInterop\": true,\n    \"module\": \"esnext\",\n    \"moduleResolution\": \"bundler\",\n    \"resolveJsonModule\": true,\n    \"isolatedModules\": true,\n    \"jsx\": \"preserve\",\n    \"incremental\": true,\n    \"plugins\": [\n      {\n        \"name\": \"next\"\n      }\n    ],\n    \"paths\": {\n      \"@/*\": [\"./*\"]\n    }\n  },\n  \"include\": [\"next-env.d.ts\", \"**/*.ts\", \"**/*.tsx\", \".next/types/**/*.ts\"],\n  \"exclude\": [\"node_modules\"]\n}\n",
    );
    v.push(Artifact::new(String::from_str("tsconfig.json"), tsconfig));

    let next_config = String::from_str(
        "/** @type {import('next').NextConfig} */\nconst nextConfig = {}\n\nmodule.exports = nextConfig\n",
    );
    v.push(Artifact::new(String::from_str("next.config.js"), next_config));

    let mut layout_t = String::from_str(
        "import type { Metadata } from 'next'\nimport './globals.css'\n\nexport const metadata: Metadata = {\n  title: '",
    );
    layout_t.append("{{PROJECT_NAME}}");
    layout_t.append(
        "',\n  description: 'Generated with cp-cli',\n}\n\nexport default function RootLayout({\n  children,\n}: {\n  children: React.ReactNode\n}) {\n  return (\n    <html lang=\"en\">\n      <body>{children}</body>\n    </html>\n  )\n}\n",
    );
    let layout = substitute(layout_t.as_str(), config.name.as_str());
    v.push(Artifact::new(String::from_str("app/layout.tsx"), layout));

    let mut page_t = String::from_str(
        "export default function Home() {\n  return (\n    <main>\n      <h1>Welcome to ",
    );
    page_t.append("{{PROJECT_NAME}}");
    page_t.append("</h1>\n      <p>Get started by editing app/page.tsx</p>\n    </main>\n  )\n}\n");
    let page = substitute(page_t.as_str(), config.name.as_str());
    v.push(Artifact::new(String::from_str("app/page.tsx"), page));

    v.push(Artifact::new(String::from_str("app/globals.css"), css_content(config.use_tailwind)));

    proof {
        assert(arts_views(v@) =~= nextjs_base(config@));
    }

    if config.use_tailwind {
        let tailwind = String::from_str(
            "/** @type {import('tailwindcss').Config} */\nmodule.exports = {\n  content: [\n    './pages/**/*.{js,ts,jsx,tsx,mdx}',\n    './components/**/*.{js,ts,jsx,tsx,mdx}',\n    './app/**/*.{js,ts,jsx,tsx,mdx}',\n  ],\n  theme: {\n    extend: {},\n  },\n  plugins: [],\n}\n",
        );
        v.push(Artifact::new(String::from_str("tailwind.config.js"), tailwind));
        let postcss = String::from_str(
            "module.exports = {\n  plugins: {\n    tailwindcss: {},\n    autoprefixer: {},\n  },\n}\n",
        );
        v.push(Artifact::new(String::from_str("postcss.config.js"), postcss));
    }

    proof {
        assert(arts_views(v@) =~= nextjs_base(config@) + nextjs_styling(config@));
    }

    if config.use_clerk {
        let middleware = String::from_str(
            "import { clerkMiddleware } from '@clerk/nextjs/server'\n\nexport default clerkMiddleware()\n\nexport const config = {\n  matcher: [\n    '/((?!_next|[^?]*\\\\.(?:html?|css|js(?!on)|jpe?g|webp|png|gif|svg|ttf|woff2?|ico|csv|docx?|xlsx?|zip|webmanifest)).*)',\n    '/(api|trpc)(.*)',\n  ],\n}\n",
        );
        v.push(Artifact::new(String::from_str("middleware.ts"), middleware));
    }

    proof {
        assert(arts_views(v@) =~= nextjs_base(config@) + nextjs_styling(config@) + nextjs_auth(
            config@,
        ));
    }

    push_db_artifacts(&mut v, config.database);

    proof {
        assert(arts_views(v@) =~= nextjs_base(config@) + nextjs_styling(config@) + nextjs_auth(
            config@,
        ) + db_artifacts(config@.database));
    }

    let gitignore = String::from_str(
        "# dependencies\n/node_modules\n/.pnp\n.pnp.js\n\n# testing\n/coverage\n\n# next.js\n/.next/\n/out/\n\n# production\n/build\n\n# misc\n.DS_Store\n*.pem\n\n# debug\nnpm-debug.log*\nyarn-debug.log*\nyarn-error.log*\n\n# local env files\n.env*.local\n\n# vercel\n.vercel\n\n# typescript\n*.tsbuildinfo\nnext-env.d.ts\n",
    );
    v.push(Artifact::new(String::from_str(".gitignore"), gitignore));

    proof {
        assert(arts_views(v@) =~= nextjs_base(config@) + nextjs_styling(config@) + nextjs_auth(
            config@,
        ) + db_artifacts(config@.database) + seq![
            art(".gitignore"@, nextjs_gitignore_text()),
        ]);
    }

    if config.use_clerk || config.database == Database::NeonDrizzle {
        let env = render_env(
            config.framework,
            config.use_clerk,
            config.database == Database::NeonDrizzle,
        );
        v.push(Artifact::new(String::from_str(".env.local"), env));
    }

    proof {
        assert(arts_views(v@) =~= nextjs_artifacts(config@));
    }
    v
}

} // verus!
