use cp_cli::templates::generate_project;
use cp_cli::{Database, Framework, PackageManager, ProjectConfig};
use serde_json::Value;
use std::collections::BTreeSet;

fn config(
    framework: Framework,
    database: Database,
    use_clerk: bool,
    use_tailwind: bool,
) -> ProjectConfig {
    ProjectConfig {
        name: "demo".to_string(),
        framework,
        database,
        use_clerk,
        use_tailwind,
        use_shadcn: false,
        package_manager: PackageManager::Npm,
        init_git: false,
    }
}

fn manifest_json(c: &ProjectConfig) -> Value {
    let arts = generate_project(c);
    let manifest = arts.iter().find(|a| a.path == "package.json").unwrap();
    serde_json::from_str(&manifest.content).expect("manifest must be valid JSON")
}

fn key_set(v: &Value, field: &str) -> BTreeSet<String> {
    v[field].as_object().unwrap().keys().cloned().collect()
}

#[test]
fn manifest_is_valid_json_for_all_configurations() {
    for framework in [Framework::NextJs, Framework::TanStackStart] {
        for database in [Database::NoDb, Database::Convex, Database::NeonDrizzle] {
            for use_clerk in [false, true] {
                for use_tailwind in [false, true] {
                    let v = manifest_json(&config(framework, database, use_clerk, use_tailwind));
                    assert_eq!(v["name"], "demo");
                    assert_eq!(v["version"], "0.1.0");
                    assert_eq!(v["private"], true);
                }
            }
        }
    }
}

#[test]
fn nextjs_scenario_styling_only() {
    let v = manifest_json(&config(Framework::NextJs, Database::NoDb, false, true));
    let deps = key_set(&v, "dependencies");
    let expected: BTreeSet<String> = ["next", "react", "react-dom", "tailwindcss", "postcss", "autoprefixer"]
        .iter()
        .map(|s| s.to_string())
        .collect();
    assert_eq!(deps, expected);
    let scripts = key_set(&v, "scripts");
    let expected_scripts: BTreeSet<String> =
        ["dev", "build", "start", "lint"].iter().map(|s| s.to_string()).collect();
    assert_eq!(scripts, expected_scripts);
    assert_eq!(v["scripts"]["dev"], "next dev");
    assert_eq!(v["scripts"]["build"], "next build");
    assert_eq!(v["scripts"]["start"], "next start");
    assert_eq!(v["scripts"]["lint"], "next lint");
}

#[test]
fn tanstack_scripts_are_fixed() {
    let v = manifest_json(&config(Framework::TanStackStart, Database::NoDb, false, false));
    let scripts = key_set(&v, "scripts");
    let expected: BTreeSet<String> = ["dev", "build", "start"].iter().map(|s| s.to_string()).collect();
    assert_eq!(scripts, expected);
    assert_eq!(v["scripts"]["dev"], "vinxi dev");
    let deps = key_set(&v, "dependencies");
    let expected_deps: BTreeSet<String> =
        ["@tanstack/start", "@tanstack/router", "react", "react-dom", "vinxi"]
            .iter()
            .map(|s| s.to_string())
            .collect();
    assert_eq!(deps, expected_deps);
}

#[test]
fn auth_and_database_deps_follow_flags() {
    let v = manifest_json(&config(Framework::NextJs, Database::Convex, true, false));
    let deps = key_set(&v, "dependencies");
    assert!(deps.contains("@clerk/nextjs"));
    assert!(deps.contains("convex"));
    assert!(!deps.contains("tailwindcss"));
    let v = manifest_json(&config(Framework::TanStackStart, Database::NeonDrizzle, true, false));
    let deps = key_set(&v, "dependencies");
    assert!(deps.contains("@clerk/clerk-react"));
    assert!(deps.contains("drizzle-orm"));
    assert!(deps.contains("@neondatabase/serverless"));
    assert!(deps.contains("drizzle-kit"));
}

#[test]
fn dependency_set_is_monotonic_in_flags() {
    for framework in [Framework::NextJs, Framework::TanStackStart] {
        for database in [Database::NoDb, Database::Convex, Database::NeonDrizzle] {
            for use_clerk in [false, true] {
                for use_tailwind in [false, true] {
                    let small = manifest_json(&config(framework, Database::NoDb, false, false));
                    let big = manifest_json(&config(framework, database, use_clerk, use_tailwind));
                    let small_deps = key_set(&small, "dependencies");
                    let big_deps = key_set(&big, "dependencies");
                    for d in &small_deps {
                        assert!(big_deps.contains(d));
                    }
                }
            }
        }
    }
}

#[test]
fn dev_dependencies_differ_per_framework() {
    let v = manifest_json(&config(Framework::NextJs, Database::NoDb, false, false));
    let devdeps = key_set(&v, "devDependencies");
    assert!(devdeps.contains("eslint-config-next"));
    assert!(devdeps.contains("typescript"));
    let v = manifest_json(&config(Framework::TanStackStart, Database::NoDb, false, false));
    let devdeps = key_set(&v, "devDependencies");
    assert!(!devdeps.contains("eslint-config-next"));
    assert!(devdeps.contains("typescript"));
}
