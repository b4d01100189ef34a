use cp_cli::PackageManager;

fn no_locks() -> Vec<String> {
    vec!["src".to_string(), "README.md".to_string()]
}

#[test]
fn explicit_choice_short_circuits_everything() {
    let locks = vec!["bun.lockb".to_string()];
    let agent = "pnpm/8.0.0".to_string();
    let r = PackageManager::resolve(
        Some(PackageManager::Yarn),
        &locks,
        Some(&agent),
        true,
        true,
        true,
    );
    assert_eq!(r, PackageManager::Yarn);
}

#[test]
fn lock_file_selects_its_manager() {
    for (file, expected) in [
        ("bun.lockb", PackageManager::Bun),
        ("pnpm-lock.yaml", PackageManager::Pnpm),
        ("yarn.lock", PackageManager::Yarn),
        ("package-lock.json", PackageManager::Npm),
    ] {
        let locks = vec!["notes.txt".to_string(), file.to_string()];
        let r = PackageManager::resolve(None, &locks, None, false, false, false);
        assert_eq!(r, expected);
    }
}

#[test]
fn first_lock_file_in_listing_order_wins() {
    let locks = vec!["yarn.lock".to_string(), "bun.lockb".to_string()];
    let r = PackageManager::resolve(None, &locks, None, false, false, false);
    assert_eq!(r, PackageManager::Yarn);
}

#[test]
fn lock_file_outranks_agent_and_binaries() {
    let locks = vec!["package-lock.json".to_string()];
    let agent = "bun/1.0.0".to_string();
    let r = PackageManager::resolve(None, &locks, Some(&agent), true, true, true);
    assert_eq!(r, PackageManager::Npm);
}

#[test]
fn agent_substring_match_in_fixed_order() {
    let agent = "yarn/4.0.0 npm/? node/v20".to_string();
    let r = PackageManager::resolve(None, &no_locks(), Some(&agent), false, false, false);
    assert_eq!(r, PackageManager::Yarn);
    let agent = "pnpm/8.0.0 npm/? node/v20".to_string();
    let r = PackageManager::resolve(None, &no_locks(), Some(&agent), false, false, false);
    assert_eq!(r, PackageManager::Pnpm);
    let agent = "bun/1.1.0".to_string();
    let r = PackageManager::resolve(None, &no_locks(), Some(&agent), false, false, false);
    assert_eq!(r, PackageManager::Bun);
}

#[test]
fn npm_agent_falls_through_to_binaries() {
    let agent = "npm/10.2.3 node/v20.9.0".to_string();
    let r = PackageManager::resolve(None, &no_locks(), Some(&agent), false, true, false);
    assert_eq!(r, PackageManager::Pnpm);
}

#[test]
fn binary_probe_order_is_bun_pnpm_yarn() {
    let r = PackageManager::resolve(None, &no_locks(), None, true, true, true);
    assert_eq!(r, PackageManager::Bun);
    let r = PackageManager::resolve(None, &no_locks(), None, false, true, true);
    assert_eq!(r, PackageManager::Pnpm);
    let r = PackageManager::resolve(None, &no_locks(), None, false, false, true);
    assert_eq!(r, PackageManager::Yarn);
}

#[test]
fn default_is_npm_when_nothing_matches() {
    let r = PackageManager::resolve(None, &no_locks(), None, false, false, false);
    assert_eq!(r, PackageManager::Npm);
}

#[test]
fn from_name_maps_known_names_only() {
    assert_eq!(PackageManager::from_name("npm"), Some(PackageManager::Npm));
    assert_eq!(PackageManager::from_name("pnpm"), Some(PackageManager::Pnpm));
    assert_eq!(PackageManager::from_name("yarn"), Some(PackageManager::Yarn));
    assert_eq!(PackageManager::from_name("bun"), Some(PackageManager::Bun));
    assert_eq!(PackageManager::from_name("cargo"), None);
    assert_eq!(PackageManager::from_name(""), None);
}

#[test]
fn from_index_maps_prompt_order() {
    assert_eq!(PackageManager::from_index(0), PackageManager::Npm);
    assert_eq!(PackageManager::from_index(1), PackageManager::Pnpm);
    assert_eq!(PackageManager::from_index(2), PackageManager::Yarn);
    assert_eq!(PackageManager::from_index(3), PackageManager::Bun);
    assert_eq!(PackageManager::from_index(99), PackageManager::Npm);
}

#[test]
fn command_strings_per_manager() {
    assert_eq!(PackageManager::Npm.install_cmd(), "npm install");
    assert_eq!(PackageManager::Pnpm.install_cmd(), "pnpm install");
    assert_eq!(PackageManager::Yarn.install_cmd(), "yarn install");
    assert_eq!(PackageManager::Bun.install_cmd(), "bun install");
    assert_eq!(PackageManager::Npm.dev_cmd(), "npm run dev");
    assert_eq!(PackageManager::Pnpm.dev_cmd(), "pnpm dev");
    assert_eq!(PackageManager::Yarn.dev_cmd(), "yarn dev");
    assert_eq!(PackageManager::Bun.dev_cmd(), "bun run dev");
    assert_eq!(PackageManager::Npm.run_cmd("test"), "npm run test");
    assert_eq!(PackageManager::Pnpm.run_cmd("test"), "pnpm test");
    assert_eq!(PackageManager::Yarn.run_cmd("test"), "yarn test");
    assert_eq!(PackageManager::Bun.run_cmd("test"), "bun run test");
    assert_eq!(PackageManager::Npm.exec_cmd("prisma"), "npx prisma");
    assert_eq!(PackageManager::Pnpm.exec_cmd("prisma"), "pnpm exec prisma");
    assert_eq!(PackageManager::Yarn.exec_cmd("prisma"), "yarn prisma");
    assert_eq!(PackageManager::Bun.exec_cmd("prisma"), "bun prisma");
}

#[test]
fn labels_match_display_names() {
    assert_eq!(PackageManager::Npm.label(), "npm");
    assert_eq!(PackageManager::Pnpm.label(), "pnpm");
    assert_eq!(PackageManager::Yarn.label(), "yarn");
    assert_eq!(PackageManager::Bun.label(), "bun");
}
