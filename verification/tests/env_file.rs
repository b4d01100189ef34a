use cp_cli::templates::generate_project;
use cp_cli::{Database, Framework, PackageManager, ProjectConfig};

fn config(
    framework: Framework,
    database: Database,
    use_clerk: bool,
    use_tailwind: bool,
) -> ProjectConfig {
    ProjectConfig {
        name: "demo".to_string(),
        framework,
        database,
        use_clerk,
        use_tailwind,
        use_shadcn: false,
        package_manager: PackageManager::Npm,
        init_git: false,
    }
}

fn env_content(c: &ProjectConfig) -> Option<String> {
    generate_project(c)
        .into_iter()
        .find(|a| a.path == ".env.local")
        .map(|a| a.content)
}

#[test]
fn env_file_exists_iff_auth_or_relational_database() {
    for framework in [Framework::NextJs, Framework::TanStackStart] {
        for database in [Database::NoDb, Database::Convex, Database::NeonDrizzle] {
            for use_clerk in [false, true] {
                for use_tailwind in [false, true] {
                    let c = config(framework, database, use_clerk, use_tailwind);
                    let expected = use_clerk || database == Database::NeonDrizzle;
                    assert_eq!(env_content(&c).is_some(), expected);
                }
            }
        }
    }
}

#[test]
fn env_line_count_matches_enabled_conditions() {
    for framework in [Framework::NextJs, Framework::TanStackStart] {
        for database in [Database::NoDb, Database::Convex, Database::NeonDrizzle] {
            for use_clerk in [false, true] {
                let c = config(framework, database, use_clerk, false);
                if let Some(content) = env_content(&c) {
                    let lines: Vec<&str> =
                        content.lines().filter(|l| !l.is_empty()).collect();
                    let mut expected = 0;
                    if use_clerk {
                        expected += 2;
                    }
                    if database == Database::NeonDrizzle {
                        expected += 1;
                    }
                    assert_eq!(lines.len(), expected);
                }
            }
        }
    }
}

#[test]
fn tanstack_auth_relational_env_has_three_fixed_lines() {
    let c = config(Framework::TanStackStart, Database::NeonDrizzle, true, false);
    let content = env_content(&c).unwrap();
    assert_eq!(
        content,
        "VITE_CLERK_PUBLISHABLE_KEY=\nCLERK_SECRET_KEY=\nDATABASE_URL=\n"
    );
}

#[test]
fn nextjs_auth_env_uses_framework_prefix() {
    let c = config(Framework::NextJs, Database::NoDb, true, false);
    let content = env_content(&c).unwrap();
    assert_eq!(content, "NEXT_PUBLIC_CLERK_PUBLISHABLE_KEY=\nCLERK_SECRET_KEY=\n");
}

#[test]
fn relational_only_env_has_single_database_line() {
    let c = config(Framework::NextJs, Database::NeonDrizzle, false, false);
    let content = env_content(&c).unwrap();
    assert_eq!(content, "DATABASE_URL=\n");
}

#[test]
fn document_database_adds_no_env_file() {
    let c = config(Framework::TanStackStart, Database::Convex, false, true);
    assert!(env_content(&c).is_none());
}
