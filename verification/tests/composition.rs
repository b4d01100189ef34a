use cp_cli::templates::generate_project;
use cp_cli::{Artifact, Database, Framework, PackageManager, ProjectConfig};

fn config(
    framework: Framework,
    database: Database,
    use_clerk: bool,
    use_tailwind: bool,
) -> ProjectConfig {
    ProjectConfig {
        name: "demo".to_string(),
        framework,
        database,
        use_clerk,
        use_tailwind,
        use_shadcn: false,
        package_manager: PackageManager::Npm,
        init_git: true,
    }
}

fn all_configs() -> Vec<ProjectConfig> {
    let mut out = Vec::new();
    for framework in [Framework::NextJs, Framework::TanStackStart] {
        for database in [Database::NoDb, Database::Convex, Database::NeonDrizzle] {
            for use_clerk in [false, true] {
                for use_tailwind in [false, true] {
                    out.push(config(framework, database, use_clerk, use_tailwind));
                }
            }
        }
    }
    out
}

fn find<'a>(arts: &'a [Artifact], path: &str) -> Option<&'a Artifact> {
    arts.iter().find(|a| a.path == path)
}

#[test]
fn every_configuration_composes_nonempty_with_distinct_paths() {
    let configs = all_configs();
    assert_eq!(configs.len(), 24);
    for c in &configs {
        let arts = generate_project(c);
        assert!(!arts.is_empty());
        for i in 0..arts.len() {
            for j in (i + 1)..arts.len() {
                assert_ne!(arts[i].path, arts[j].path);
            }
        }
    }
}

#[test]
fn base_artifacts_always_present() {
    for c in &all_configs() {
        let arts = generate_project(c);
        assert!(find(&arts, "package.json").is_some());
        assert!(find(&arts, "tsconfig.json").is_some());
        assert!(find(&arts, ".gitignore").is_some());
        match c.framework {
            Framework::NextJs => {
                assert!(find(&arts, "next.config.js").is_some());
                assert!(find(&arts, "app/layout.tsx").is_some());
                assert!(find(&arts, "app/page.tsx").is_some());
                assert!(find(&arts, "app/globals.css").is_some());
            }
            Framework::TanStackStart => {
                assert!(find(&arts, "app.tsx").is_some());
                assert!(find(&arts, "app.css").is_some());
                assert!(find(&arts, "index.html").is_some());
                assert!(find(&arts, "app.config.ts").is_some());
            }
        }
    }
}

#[test]
fn styling_artifacts_iff_tailwind() {
    for c in &all_configs() {
        let arts = generate_project(c);
        assert_eq!(find(&arts, "tailwind.config.js").is_some(), c.use_tailwind);
        assert_eq!(find(&arts, "postcss.config.js").is_some(), c.use_tailwind);
    }
}

#[test]
fn database_artifacts_are_disjoint_per_provider() {
    for c in &all_configs() {
        let arts = generate_project(c);
        let convex = find(&arts, "convex/schema.ts").is_some();
        let schema = find(&arts, "db/schema.ts").is_some();
        let migration = find(&arts, "drizzle.config.ts").is_some();
        match c.database {
            Database::Convex => {
                assert!(convex && !schema && !migration);
            }
            Database::NeonDrizzle => {
                assert!(!convex && schema && migration);
            }
            Database::NoDb => {
                assert!(!convex && !schema && !migration);
            }
        }
    }
}

#[test]
fn auth_integration_artifact_iff_auth() {
    for c in &all_configs() {
        let arts = generate_project(c);
        let nextjs_auth = c.use_clerk && c.framework == Framework::NextJs;
        let tanstack_auth = c.use_clerk && c.framework == Framework::TanStackStart;
        assert_eq!(find(&arts, "middleware.ts").is_some(), nextjs_auth);
        assert_eq!(find(&arts, "auth.tsx").is_some(), tanstack_auth);
    }
}

#[test]
fn auth_artifacts_agree_with_dependency_and_env_key() {
    let c = config(Framework::NextJs, Database::NoDb, true, false);
    let arts = generate_project(&c);
    let middleware = &find(&arts, "middleware.ts").unwrap().content;
    assert!(middleware.contains("@clerk/nextjs"));
    assert!(middleware.contains("matcher"));
    let c = config(Framework::TanStackStart, Database::NoDb, true, false);
    let arts = generate_project(&c);
    let auth = &find(&arts, "auth.tsx").unwrap().content;
    assert!(auth.contains("@clerk/clerk-react"));
    assert!(auth.contains("VITE_CLERK_PUBLISHABLE_KEY"));
    let env = &find(&arts, ".env.local").unwrap().content;
    assert!(env.contains("VITE_CLERK_PUBLISHABLE_KEY="));
}

#[test]
fn entry_points_substitute_name_and_leave_no_token() {
    for c in &all_configs() {
        let arts = generate_project(c);
        let entries: &[&str] = match c.framework {
            Framework::NextJs => &["app/layout.tsx", "app/page.tsx"],
            Framework::TanStackStart => &["app.tsx", "index.html"],
        };
        for path in entries {
            let content = &find(&arts, path).unwrap().content;
            assert!(content.contains("demo"));
            assert!(!content.contains("{{PROJECT_NAME}}"));
        }
    }
}

#[test]
fn no_artifact_content_contains_the_raw_token() {
    for c in &all_configs() {
        for a in &generate_project(c) {
            assert!(!a.content.contains("{{PROJECT_NAME}}"));
        }
    }
}

#[test]
fn page_welcomes_the_project_name() {
    let arts = generate_project(&config(Framework::NextJs, Database::NoDb, false, false));
    let page = &find(&arts, "app/page.tsx").unwrap().content;
    assert!(page.contains("<h1>Welcome to demo</h1>"));
    let layout = &find(&arts, "app/layout.tsx").unwrap().content;
    assert!(layout.contains("title: 'demo',"));
    let arts = generate_project(&config(Framework::TanStackStart, Database::NoDb, false, false));
    let html = &find(&arts, "index.html").unwrap().content;
    assert!(html.contains("<title>demo</title>"));
    let app = &find(&arts, "app.tsx").unwrap().content;
    assert!(app.contains("<h1>Welcome to demo</h1>"));
}

#[test]
fn stylesheet_selected_by_styling_flag() {
    let tailwind_body = "@tailwind base;\n@tailwind components;\n@tailwind utilities;\n";
    let reset_body = "* {\n  box-sizing: border-box;\n  padding: 0;\n  margin: 0;\n}\n";
    let arts = generate_project(&config(Framework::NextJs, Database::NoDb, false, true));
    assert_eq!(find(&arts, "app/globals.css").unwrap().content, tailwind_body);
    let arts = generate_project(&config(Framework::NextJs, Database::NoDb, false, false));
    assert_eq!(find(&arts, "app/globals.css").unwrap().content, reset_body);
    let arts = generate_project(&config(Framework::TanStackStart, Database::NoDb, false, true));
    assert_eq!(find(&arts, "app.css").unwrap().content, tailwind_body);
    let arts = generate_project(&config(Framework::TanStackStart, Database::NoDb, false, false));
    assert_eq!(find(&arts, "app.css").unwrap().content, reset_body);
}

#[test]
fn nextjs_styling_only_scenario() {
    let c = config(Framework::NextJs, Database::NoDb, false, true);
    let arts = generate_project(&c);
    let manifest = &find(&arts, "package.json").unwrap().content;
    assert!(manifest.contains("\"tailwindcss\": \"latest\""));
    assert!(manifest.contains("\"postcss\": \"latest\""));
    assert!(manifest.contains("\"autoprefixer\": \"latest\""));
    assert!(!manifest.contains("@clerk/nextjs"));
    assert!(!manifest.contains("convex"));
    assert!(!manifest.contains("drizzle"));
    let css = &find(&arts, "app/globals.css").unwrap().content;
    assert_eq!(css, "@tailwind base;\n@tailwind components;\n@tailwind utilities;\n");
    assert!(find(&arts, ".env.local").is_none());
}

#[test]
fn tanstack_auth_relational_scenario() {
    let c = config(Framework::TanStackStart, Database::NeonDrizzle, true, false);
    let arts = generate_project(&c);
    let env = &find(&arts, ".env.local").unwrap().content;
    assert_eq!(env, "VITE_CLERK_PUBLISHABLE_KEY=\nCLERK_SECRET_KEY=\nDATABASE_URL=\n");
    assert!(find(&arts, "auth.tsx").is_some());
    assert!(find(&arts, "db/schema.ts").is_some());
    assert!(find(&arts, "drizzle.config.ts").is_some());
    let css = &find(&arts, "app.css").unwrap().content;
    assert_eq!(css, "* {\n  box-sizing: border-box;\n  padding: 0;\n  margin: 0;\n}\n");
}

#[test]
fn gitignore_names_framework_build_outputs() {
    let arts = generate_project(&config(Framework::NextJs, Database::NoDb, false, false));
    let ignore = &find(&arts, ".gitignore").unwrap().content;
    assert!(ignore.contains("/.next/"));
    assert!(ignore.contains("next-env.d.ts"));
    let arts = generate_project(&config(Framework::TanStackStart, Database::NoDb, false, false));
    let ignore = &find(&arts, ".gitignore").unwrap().content;
    assert!(ignore.contains("/.vinxi"));
    assert!(ignore.contains("/dist"));
}
