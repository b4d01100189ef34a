//! The TanStack Start composer.

use vstd::prelude::*;
use vstd::string::StringExecFns;
use crate::artifact::{art, arts_views, Artifact, ArtifactView};
use crate::config::{ConfigView, Database, ProjectConfig};
use crate::render::{lemma_manifest_brace_safe, manifest_text, render_manifest};
use crate::subst::{
    braces_only_in_tokens, dbrace_free, has_token, lbrace_free, lemma_dbrace_free_no_token,
    lemma_lbrace_free_brace_safe, lemma_subst_no_token, lemma_template_shape, spec_subst,
    substitute, token_seq,
};
use crate::templates::{
    css_content, css_text, db_artifacts, db_deps, env_block, postcss_text, push_db_artifacts,
    render_env,
};
use crate::text::str_views;

verus! {

/// The fixed scripts block of the manifest.
pub open spec fn tanstack_scripts() -> Seq<char> {
    "    \"dev\": \"vinxi dev\",\n    \"build\": \"vinxi build\",\n    \"start\": \"vinxi start\"\n"@
}

/// The fixed dev-dependency block of the manifest.
pub open spec fn tanstack_devdeps() -> Seq<char> {
    "    \"typescript\": \"latest\",\n    \"@types/node\": \"latest\",\n    \"@types/react\": \"latest\",\n    \"@types/react-dom\": \"latest\"\n"@
}

/// The manifest dependencies: base runtime first, then styling, auth and
/// database additions, each exactly when its flag holds.
pub open spec fn tanstack_deps(c: ConfigView) -> Seq<Seq<char>> {
    seq!["@tanstack/start"@, "@tanstack/router"@, "react"@, "react-dom"@, "vinxi"@] + (if c.use_tailwind {
        seq!["tailwindcss"@, "postcss"@, "autoprefixer"@]
    } else {
        Seq::empty()
    }) + (if c.use_clerk {
        seq!["@clerk/clerk-react"@]
    } else {
        Seq::empty()
    }) + db_deps(c.database)
}

/// The manifest document.
pub open spec fn tanstack_manifest(c: ConfigView) -> Seq<char> {
    manifest_text(c.name, tanstack_scripts(), tanstack_deps(c), tanstack_devdeps())
}

/// The type-checking configuration.
pub open spec fn tanstack_tsconfig_text() -> Seq<char> {
    "{\n  \"compilerOptions\": {\n    \"target\": \"ES2017\",\n    \"lib\": [\"dom\", \"dom.iterable\", \"esnext\"],\n    \"allowJs\": true,\n    \"skipLibCheck\": true,\n    \"strict\": true,\n    \"noEmit\": true,\n    \"esModuleInterop\": true,\n    \"module\": \"esnext\",\n    \"moduleResolution\": \"bundler\",\n    \"resolveJsonModule\": true,\n    \"isolatedModules\": true,\n    \"jsx\": \"preserve\",\n    \"incremental\": true,\n    \"paths\": {\n      \"@/*\": [\"./*\"]\n    }\n  },\n  \"include\": [\"**/*.ts\", \"**/*.tsx\"],\n  \"exclude\": [\"node_modules\"]\n}\n"@
}

/// The application entry template, up to the project-name placeholder.
pub open spec fn app_tsx_pre() -> Seq<char> {
    "import { createRouter, RouterProvider, Outlet } from '@tanstack/react-router'\nimport { createRootRoute, createRoute } from '@tanstack/react-router'\nimport { StrictMode } from 'react'\nimport { createRoot } from 'react-dom/client'\nimport './app.css'\n\nconst rootRoute = createRootRoute({\n  component: () => {\n    return (\n      <>\n        <Outlet />\n      </>\n    )\n  },\n})\n\nconst indexRoute = createRoute({\n  getParentRoute: () => rootRoute,\n  path: '/',\n  component: () => {\n    return (\n      <div>\n        <h1>Welcome to "@
}

/// The application entry template, after the project-name placeholder.
pub open spec fn app_tsx_post() -> Seq<char> {
    "</h1>\n        <p>Get started by editing app.tsx</p>\n      </div>\n    )\n  },\n})\n\nconst routeTree = rootRoute.addChildren([indexRoute])\n\nconst router = createRouter({ routeTree })\n\ndeclare module '@tanstack/react-router' {\n  interface Register {\n    router: typeof router\n  }\n}\n\nfunction App() {\n  return <RouterProvider router={router} />\n}\n\nconst rootElement = document.getElementById('root')!\ncreateRoot(rootElement).render(\n  <StrictMode>\n    <App />\n  </StrictMode>,\n)\n"@
}

/// The application entry-point template.
pub open spec fn app_tsx_template() -> Seq<char> {
    app_tsx_pre() + token_seq() + app_tsx_post()
}

/// The host page template, up to the project-name placeholder.
pub open spec fn index_html_pre() -> Seq<char> {
    "<!DOCTYPE html>\n<html lang=\"en\">\n  <head>\n    <meta charset=\"UTF-8\" />\n    <meta name=\"viewport\" content=\"width=device-width, initial-scale=1.0\" />\n    <title>"@
}

/// The host page template, after the project-name placeholder.
pub open spec fn index_html_post() -> Seq<char> {
    "</title>\n  </head>\n  <body>\n    <div id=\"root\"></div>\n    <script type=\"module\" src=\"./app.tsx\"></script>\n  </body>\n</html>\n"@
}

/// The host page entry-point template.
pub open spec fn index_html_template() -> Seq<char> {
    index_html_pre() + token_seq() + index_html_post()
}

/// The framework configuration stub.
pub open spec fn app_config_text() -> Seq<char> {
    "import { defineConfig } from '@tanstack/start/config'\nimport { vitePlugin } from '@tanstack/start/vite'\n\nexport default defineConfig({\n  vite: {\n    plugins: [vitePlugin()],\n  },\n})\n"@
}

/// The styling content globs, matching this framework's source layout.
pub open spec fn tanstack_tailwind_text() -> Seq<char> {
    "/** @type {import('tailwindcss').Config} */\nmodule.exports = {\n  content: [\n    './**/*.{js,ts,jsx,tsx,html}',\n  ],\n  theme: {\n    extend: {},\n  },\n  plugins: [],\n}\n"@
}

/// The auth integration: a provider component reading this framework's
/// client-exposed key, wired around the application's routes.
pub open spec fn tanstack_auth_text() -> Seq<char> {
    "import { ClerkProvider } from '@clerk/clerk-react'\n\nconst publishableKey = import.meta.env.VITE_CLERK_PUBLISHABLE_KEY\n\nexport function AuthProvider({ children }: { children: React.ReactNode }) {\n  return (\n    <ClerkProvider publishableKey={publishableKey}>\n      {children}\n    </ClerkProvider>\n  )\n}\n"@
}

/// The ignore file, naming this framework's build outputs.
pub open spec fn tanstack_gitignore_text() -> Seq<char> {
    "# dependencies\n/node_modules\n\n# build\n/dist\n/.vinxi\n\n# misc\n.DS_Store\n*.pem\n\n# debug\nnpm-debug.log*\nyarn-debug.log*\nyarn-error.log*\n\n# local env files\n.env*.local\n\n# typescript\n*.tsbuildinfo\n"@
}

/// The unconditional artifacts, in emission order.
pub open spec fn tanstack_base(c: ConfigView) -> Seq<ArtifactView> {
    seq![
        art("package.json"@, tanstack_manifest(c)),
        art("tsconfig.json"@, tanstack_tsconfig_text()),
        art("app.tsx"@, spec_subst(app_tsx_template(), c.name)),
        art("app.css"@, css_text(c.use_tailwind)),
        art("index.html"@, spec_subst(index_html_template(), c.name)),
        art("app.config.ts"@, app_config_text()),
    ]
}

/// The styling configuration pair, present exactly when styling is on.
pub open spec fn tanstack_styling(c: ConfigView) -> Seq<ArtifactView> {
    if c.use_tailwind {
        seq![
            art("tailwind.config.js"@, tanstack_tailwind_text()),
            art("postcss.config.js"@, postcss_text()),
        ]
    } else {
        Seq::empty()
    }
}

/// The auth integration artifact, present exactly when auth is on.
pub open spec fn tanstack_auth(c: ConfigView) -> Seq<ArtifactView> {
    if c.use_clerk {
        seq![art("auth.tsx"@, tanstack_auth_text())]
    } else {
        Seq::empty()
    }
}

/// The ordered artifact list of this composer.
pub open spec fn tanstack_artifacts(c: ConfigView) -> Seq<ArtifactView> {
    tanstack_base(c) + tanstack_styling(c) + tanstack_auth(c) + db_artifacts(c.database) + seq![
        art(".gitignore"@, tanstack_gitignore_text()),
    ] + env_block(c)
}

/// In both entry-point templates every `"{{"` starts a full placeholder.
pub proof fn lemma_tanstack_templates_shape()
    ensures
        braces_only_in_tokens(app_tsx_template()),
        braces_only_in_tokens(index_html_template()),
        has_token(app_tsx_template()),
        has_token(index_html_template()),
{
    reveal_strlit(
        "import { createRouter, RouterProvider, Outlet } from '@tanstack/react-router'\nimport { createRootRoute, createRoute } from '@tanstack/react-router'\nimport { StrictMode } from 'react'\nimport { createRoot } from 'react-dom/client'\nimport './app.css'\n\nconst rootRoute = createRootRoute({\n  component: () => {\n    return (\n      <>\n        <Outlet />\n      </>\n    )\n  },\n})\n\nconst indexRoute = createRoute({\n  getParentRoute: () => rootRoute,\n  path: '/',\n  component: () => {\n    return (\n      <div>\n        <h1>Welcome to ",
    );
    reveal_strlit(
        "</h1>\n        <p>Get started by editing app.tsx</p>\n      </div>\n    )\n  },\n})\n\nconst routeTree = rootRoute.addChildren([indexRoute])\n\nconst router = createRouter({ routeTree })\n\ndeclare module '@tanstack/react-router' {\n  interface Register {\n    router: typeof router\n  }\n}\n\nfunction App() {\n  return <RouterProvider router={router} />\n}\n\nconst rootElement = document.getElementById('root')!\ncreateRoot(rootElement).render(\n  <StrictMode>\n    <App />\n  </StrictMode>,\n)\n",
    );
    assert(dbrace_free(app_tsx_pre()));
    assert(dbrace_free(app_tsx_post()));
    assert(app_tsx_pre().last() != '{');
    lemma_template_shape(app_tsx_pre(), app_tsx_post());
    reveal_strlit(
        "<!DOCTYPE html>\n<html lang=\"en\">\n  <head>\n    <meta charset=\"UTF-8\" />\n    <meta name=\"viewport\" content=\"width=device-width, initial-scale=1.0\" />\n    <title>",
    );
    reveal_strlit(
        "</title>\n  </head>\n  <body>\n    <div id=\"root\"></div>\n    <script type=\"module\" src=\"./app.tsx\"></script>\n  </body>\n</html>\n",
    );
    assert(dbrace_free(index_html_pre()));
    assert(dbrace_free(index_html_post()));
    assert(index_html_pre().last() != '{');
    lemma_template_shape(index_html_pre(), index_html_post());
}

/// For a non-empty project name without `'{'`, no artifact content of
/// this composer holds the placeholder token.
pub proof fn lemma_tanstack_contents_token_free(c: ConfigView)
    requires
        c.name.len() > 0,
        lbrace_free(c.name),
    ensures
        !has_token(tanstack_manifest(c)),
        !has_token(tanstack_tsconfig_text()),
        !has_token(spec_subst(app_tsx_template(), c.name)),
        !has_token(spec_subst(index_html_template(), c.name)),
        !has_token(app_config_text()),
        !has_token(tanstack_tailwind_text()),
        !has_token(tanstack_auth_text()),
        !has_token(tanstack_gitignore_text()),
{
    reveal_strlit(
        "    \"dev\": \"vinxi dev\",\n    \"build\": \"vinxi build\",\n    \"start\": \"vinxi start\"\n",
    );
    reveal_strlit(
        "    \"typescript\": \"latest\",\n    \"@types/node\": \"latest\",\n    \"@types/react\": \"latest\",\n    \"@types/react-dom\": \"latest\"\n",
    );
    assert(lbrace_free(tanstack_scripts()));
    assert(lbrace_free(tanstack_devdeps()));
    lemma_lbrace_free_brace_safe(tanstack_scripts());
    lemma_lbrace_free_brace_safe(tanstack_devdeps());
    reveal_strlit("@tanstack/start");
    reveal_strlit("@tanstack/router");
    reveal_strlit("react");
    reveal_strlit("react-dom");
    reveal_strlit("vinxi");
    reveal_strlit("tailwindcss");
    reveal_strlit("postcss");
    reveal_strlit("autoprefixer");
    reveal_strlit("@clerk/clerk-react");
    reveal_strlit("convex");
    reveal_strlit("drizzle-orm");
    reveal_strlit("@neondatabase/serverless");
    reveal_strlit("drizzle-kit");
    assert(lbrace_free("@tanstack/start"@) && lbrace_free("@tanstack/router"@) && lbrace_free(
        "react"@,
    ) && lbrace_free("react-dom"@) && lbrace_free("vinxi"@));
    assert(lbrace_free("tailwindcss"@) && lbrace_free("postcss"@) && lbrace_free(
        "autoprefixer"@,
    ));
    assert(lbrace_free("@clerk/clerk-react"@) && lbrace_free("convex"@));
    assert(lbrace_free("drizzle-orm"@) && lbrace_free("@neondatabase/serverless"@)
        && lbrace_free("drizzle-kit"@));
    let deps = tanstack_deps(c);
    assert(forall|i: int| 0 <= i < deps.len() ==> lbrace_free(#[trigger] deps[i]));
    lemma_manifest_brace_safe(c.name, tanstack_scripts(), deps, tanstack_devdeps());
    lemma_dbrace_free_no_token(tanstack_manifest(c));
    reveal_strlit(
        "{\n  \"compilerOptions\": {\n    \"target\": \"ES2017\",\n    \"lib\": [\"dom\", \"dom.iterable\", \"esnext\"],\n    \"allowJs\": true,\n    \"skipLibCheck\": true,\n    \"strict\": true,\n    \"noEmit\": true,\n    \"esModuleInterop\": true,\n    \"module\": \"esnext\",\n    \"moduleResolution\": \"bundler\",\n    \"resolveJsonModule\": true,\n    \"isolatedModules\": true,\n    \"jsx\": \"preserve\",\n    \"incremental\": true,\n    \"paths\": {\n      \"@/*\": [\"./*\"]\n    }\n  },\n  \"include\": [\"**/*.ts\", \"**/*.tsx\"],\n  \"exclude\": [\"node_modules\"]\n}\n",
    );
    assert(dbrace_free(tanstack_tsconfig_text()));
    lemma_dbrace_free_no_token(tanstack_tsconfig_text());
    reveal_strlit(
        "import { defineConfig } from '@tanstack/start/config'\nimport { vitePlugin } from '@tanstack/start/vite'\n\nexport default defineConfig({\n  vite: {\n    plugins: [vitePlugin()],\n  },\n})\n",
    );
    assert(dbrace_free(app_config_text()));
    lemma_dbrace_free_no_token(app_config_text());
    reveal_strlit(
        "/** @type {import('tailwindcss').Config} */\nmodule.exports = {\n  content: [\n    './**/*.{js,ts,jsx,tsx,html}',\n  ],\n  theme: {\n    extend: {},\n  },\n  plugins: [],\n}\n",
    );
    assert(dbrace_free(tanstack_tailwind_text()));
    lemma_dbrace_free_no_token(tanstack_tailwind_text());
    reveal_strlit(
        "import { ClerkProvider } from '@clerk/clerk-react'\n\nconst publishableKey = import.meta.env.VITE_CLERK_PUBLISHABLE_KEY\n\nexport function AuthProvider({ children }: { children: React.ReactNode }) {\n  return (\n    <ClerkProvider publishableKey={publishableKey}>\n      {children}\n    </ClerkProvider>\n  )\n}\n",
    );
    assert(dbrace_free(tanstack_auth_text()));
    lemma_dbrace_free_no_token(tanstack_auth_text());
    reveal_strlit(
        "# dependencies\n/node_modules\n\n# build\n/dist\n/.vinxi\n\n# misc\n.DS_Store\n*.pem\n\n# debug\nnpm-debug.log*\nyarn-debug.log*\nyarn-error.log*\n\n# local env files\n.env*.local\n\n# typescript\n*.tsbuildinfo\n",
    );
    assert(dbrace_free(tanstack_gitignore_text()));
    lemma_dbrace_free_no_token(tanstack_gitignore_text());
    lemma_tanstack_templates_shape();
    lemma_subst_no_token(app_tsx_template(), c.name);
    lemma_subst_no_token(index_html_template(), c.name);
}

/// The manifest dependency list, as built values.
pub fn tanstack_deps_vec(config: &ProjectConfig) -> (r: Vec<String>)
    ensures
        str_views(r@) == tanstack_deps(config@),
{
    let mut v: Vec<String> = Vec::new();
    v.push(String::from_str("@tanstack/start"));
    v.push(String::from_str("@tanstack/router"));
    v.push(String::from_str("react"));
    v.push(String::from_str("react-dom"));
    v.push(String::from_str("vinxi"));
    if config.use_tailwind {
        v.push(String::from_str("tailwindcss"));
        v.push(String::from_str("postcss"));
        v.push(String::from_str("autoprefixer"));
    }
    if config.use_clerk {
        v.push(String::from_str("@clerk/clerk-react"));
    }
    match config.database {
        Database::Convex => {
            v.push(String::from_str("convex"));
        },
        Database::NeonDrizzle => {
            v.push(String::from_str("drizzle-orm"));
            v.push(String::from_str("@neondatabase/serverless"));
            v.push(String::from_str("drizzle-kit"));
        },
        Database::NoDb => {},
    }
    proof {
        assert(str_views(v@) =~= tanstack_deps(config@));
    }
    v
}

/// Compose the full artifact set for this framework.
pub fn generate_tanstack_project(config: &ProjectConfig) -> (r: Vec<Artifact>)
    ensures
        arts_views(r@) == tanstack_artifacts(config@),
{
    let mut v: Vec<Artifact> = Vec::new();

    let deps = tanstack_deps_vec(config);
    let manifest = render_manifest(
        config.name.as_str(),
        "    \"dev\": \"vinxi dev\",\n    \"build\": \"vinxi build\",\n    \"start\": \"vinxi start\"\n",
        &deps,
        "    \"typescript\": \"latest\",\n    \"@types/node\": \"latest\",\n    \"@types/react\": \"latest\",\n    \"@types/react-dom\": \"latest\"\n",
    );
    v.push(Artifact::new(String::from_str("package.json"), manifest));

    let tsconfig = String::from_str(
        "{\n  \"compilerOptions\": {\n    \"target\": \"ES2017\",\n    \"lib\": [\"dom\", \"dom.iterable\", \"esnext\"],\n    \"allowJs\": true,\n    \"skipLibCheck\": true,\n    \"strict\": true,\n    \"noEmit\": true,\n    \"esModuleInterop\": true,\n    \"module\": \"esnext\",\n    \"moduleResolution\": \"bundler\",\n    \"resolveJsonModule\": true,\n    \"isolatedModules\": true,\n    \"jsx\": \"preserve\",\n    \"incremental\": true,\n    \"paths\": {\n      \"@/*\": [\"./*\"]\n    }\n  },\n  \"include\": [\"**/*.ts\", \"**/*.tsx\"],\n  \"exclude\": [\"node_modules\"]\n}\n",
    );
    v.push(Artifact::new(String::from_str("tsconfig.json"), tsconfig));

    let mut app_t = String::from_str(
        "import { createRouter, RouterProvider, Outlet } from '@tanstack/react-router'\nimport { createRootRoute, createRoute } from '@tanstack/react-router'\nimport { StrictMode } from 'react'\nimport { createRoot } from 'react-dom/client'\nimport './app.css'\n\nconst rootRoute = createRootRoute({\n  component: () => {\n    return (\n      <>\n        <Outlet />\n      </>\n    )\n  },\n})\n\nconst indexRoute = createRoute({\n  getParentRoute: () => rootRoute,\n  path: '/',\n  component: () => {\n    return (\n      <div>\n        <h1>Welcome to ",
    );
    app_t.append("{{PROJECT_NAME}}");
    app_t.append(
        "</h1>\n        <p>Get started by editing app.tsx</p>\n      </div>\n    )\n  },\n})\n\nconst routeTree = rootRoute.addChildren([indexRoute])\n\nconst router = createRouter({ routeTree })\n\ndeclare module '@tanstack/react-router' {\n  interface Register {\n    router: typeof router\n  }\n}\n\nfunction App() {\n  return <RouterProvider router={router} />\n}\n\nconst rootElement = document.getElementById('root')!\ncreateRoot(rootElement).render(\n  <StrictMode>\n    <App />\n  </StrictMode>,\n)\n",
    );
    let app_tsx = substitute(app_t.as_str(), config.name.as_str());
    v.push(Artifact::new(String::from_str("app.tsx"), app_tsx));

    v.push(Artifact::new(String::from_str("app.css"), css_content(config.use_tailwind)));

    let mut index_t = String::from_str(
        "<!DOCTYPE html>\n<html lang=\"en\">\n  <head>\n    <meta charset=\"UTF-8\" />\n    <meta name=\"viewport\" content=\"width=device-width, initial-scale=1.0\" />\n    <title>",
    );
    index_t.append("{{PROJECT_NAME}}");
    index_t.append(
        "</title>\n  </head>\n  <body>\n    <div id=\"root\"></div>\n    <script type=\"module\" src=\"./app.tsx\"></script>\n  </body>\n</html>\n",
    );
    let index_html = substitute(index_t.as_str(), config.name.as_str());
    v.push(Artifact::new(String::from_str("index.html"), index_html));

    let app_config = String::from_str(
        "import { defineConfig } from '@tanstack/start/config'\nimport { vitePlugin } from '@tanstack/start/vite'\n\nexport default defineConfig({\n  vite: {\n    plugins: [vitePlugin()],\n  },\n})\n",
    );
    v.push(Artifact::new(String::from_str("app.config.ts"), app_config));

    proof {
        assert(arts_views(v@) =~= tanstack_base(config@));
    }

    if config.use_tailwind {
        let tailwind = String::from_str(
            "/** @type {import('tailwindcss').Config} */\nmodule.exports = {\n  content: [\n    './**/*.{js,ts,jsx,tsx,html}',\n  ],\n  theme: {\n    extend: {},\n  },\n  plugins: [],\n}\n",
        );
        v.push(Artifact::new(String::from_str("tailwind.config.js"), tailwind));
        let postcss = String::from_str(
            "module.exports = {\n  plugins: {\n    tailwindcss: {},\n    autoprefixer: {},\n  },\n}\n",
        );
        v.push(Artifact::new(String::from_str("postcss.config.js"), postcss));
    }

    proof {
        assert(arts_views(v@) =~= tanstack_base(config@) + tanstack_styling(config@));
    }

    if config.use_clerk {
        let auth = String::from_str(
            "import { ClerkProvider } from '@clerk/clerk-react'\n\nconst publishableKey = import.meta.env.VITE_CLERK_PUBLISHABLE_KEY\n\nexport function AuthProvider({ children }: { children: React.ReactNode }) {\n  return (\n    <ClerkProvider publishableKey={publishableKey}>\n      {children}\n    </ClerkProvider>\n  )\n}\n",
        );
        v.push(Artifact::new(String::from_str("auth.tsx"), auth));
    }

    proof {
        assert(arts_views(v@) =~= tanstack_base(config@) + tanstack_styling(config@)
            + tanstack_auth(config@));
    }

    push_db_artifacts(&mut v, config.database);

    proof {
        assert(arts_views(v@) =~= tanstack_base(config@) + tanstack_styling(config@)
            + tanstack_auth(config@) + db_artifacts(config@.database));
    }

    let gitignore = String::from_str(
        "# dependencies\n/node_modules\n\n# build\n/dist\n/.vinxi\n\n# misc\n.DS_Store\n*.pem\n\n# debug\nnpm-debug.log*\nyarn-debug.log*\nyarn-error.log*\n\n# local env files\n.env*.local\n\n# typescript\n*.tsbuildinfo\n",
    );
    v.push(Artifact::new(String::from_str(".gitignore"), gitignore));

    proof {
        assert(arts_views(v@) =~= tanstack_base(config@) + tanstack_styling(config@)
            + tanstack_auth(config@) + db_artifacts(config@.database) + seq![
            art(".gitignore"@, tanstack_gitignore_text()),
        ]);
    }

    if config.use_clerk || config.database == Database::NeonDrizzle {
        let env = render_env(
            config.framework,
            config.use_clerk,
            config.database == Database::NeonDrizzle,
        );
        v.push(Artifact::new(String::from_str(".env.local"), env));
    }

    proof {
        assert(arts_views(v@) =~= tanstack_artifacts(config@));
    }
    v
}

} // verus!
