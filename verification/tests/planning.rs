use cp_cli::generator::plan_project;
use cp_cli::templates::generate_project;
use cp_cli::{Database, Framework, GenerateError, PackageManager, ProjectConfig};

fn demo_config() -> ProjectConfig {
    ProjectConfig {
        name: "demo".to_string(),
        framework: Framework::NextJs,
        database: Database::NoDb,
        use_clerk: false,
        use_tailwind: false,
        use_shadcn: false,
        package_manager: PackageManager::Npm,
        init_git: true,
    }
}

#[test]
fn existing_target_always_yields_precondition_error() {
    for framework in [Framework::NextJs, Framework::TanStackStart] {
        let mut c = demo_config();
        c.framework = framework;
        let r = plan_project(&c, true);
        match r {
            Ok(_) => panic!("an existing target must be refused"),
            Err(e) => assert_eq!(e, GenerateError::AlreadyExists),
        }
    }
}

#[test]
fn fresh_target_plans_the_composed_artifacts() {
    let c = demo_config();
    let plan = plan_project(&c, false).unwrap();
    assert_eq!(plan.root, "demo");
    let arts = generate_project(&c);
    assert_eq!(plan.artifacts.len(), arts.len());
    for (a, b) in plan.artifacts.iter().zip(arts.iter()) {
        assert_eq!(a.path, b.path);
        assert_eq!(a.content, b.content);
    }
}

#[test]
fn precondition_error_message_names_the_directory() {
    let e = GenerateError::AlreadyExists;
    assert_eq!(e.message("demo"), "Directory 'demo' already exists");
}

#[test]
fn default_config_uses_nextjs_and_no_features() {
    let c = ProjectConfig::default("my-app".to_string(), PackageManager::Bun);
    assert_eq!(c.name, "my-app");
    assert_eq!(c.framework, Framework::NextJs);
    assert_eq!(c.database, Database::NoDb);
    assert!(!c.use_clerk);
    assert!(!c.use_tailwind);
    assert!(!c.use_shadcn);
    assert_eq!(c.package_manager, PackageManager::Bun);
    assert!(c.init_git);
}

#[test]
fn from_selections_maps_prompt_indices() {
    let c = ProjectConfig::from_selections(
        "web".to_string(),
        PackageManager::Pnpm,
        1,
        2,
        true,
        true,
        false,
        false,
    );
    assert_eq!(c.name, "web");
    assert_eq!(c.framework, Framework::TanStackStart);
    assert_eq!(c.database, Database::NeonDrizzle);
    assert!(c.use_clerk);
    assert!(c.use_tailwind);
    assert!(!c.use_shadcn);
    assert_eq!(c.package_manager, PackageManager::Pnpm);
    assert!(!c.init_git);
    let c = ProjectConfig::from_selections(
        "web".to_string(),
        PackageManager::Npm,
        0,
        7,
        false,
        false,
        true,
        true,
    );
    assert_eq!(c.framework, Framework::NextJs);
    assert_eq!(c.database, Database::NoDb);
    assert!(c.use_shadcn);
}

#[test]
fn labels_of_closed_variants() {
    assert_eq!(Framework::NextJs.label(), "Next.js");
    assert_eq!(Framework::TanStackStart.label(), "TanStack Start");
    assert_eq!(Database::Convex.label(), "Convex");
    assert_eq!(Database::NeonDrizzle.label(), "Neon + Drizzle");
    assert_eq!(Database::NoDb.label(), "None");
}
