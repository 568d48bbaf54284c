use shuvgrok::js_deps::{
    detect_js_package_manager, fingerprint_input, finish_install, install_args,
    install_not_started, js_deps_fingerprint, package_manager_field, plan_js_deps, settle,
    stamp_text, DepsEnd, DepsPlan, EnsureJsDepsOutcome, InstallRun, JsPackageManager, Lockfiles, FINGERPRINT_FILES, STAMP_NAME,
};

fn no_locks() -> Lockfiles {
    Lockfiles {
        bun_lockb: false,
        bun_lock: false,
        pnpm_lock: false,
        yarn_lock: false,
        package_lock: false,
    }
}

fn project(files: &[(&str, &str)]) -> Vec<Option<Vec<u8>>> {
    FINGERPRINT_FILES
        .iter()
        .map(|name| {
            files
                .iter()
                .find(|(file, _)| file == name)
                .map(|(_, text)| text.as_bytes().to_vec())
        })
        .collect()
}

#[test]
fn detects_package_manager_field() {
    assert_eq!(
        detect_js_package_manager(Some(r#"{"packageManager":"pnpm@10.17.1"}"#), no_locks()),
        Some(JsPackageManager::Pnpm)
    );
}

#[test]
fn detects_lockfile_when_field_missing() {
    let mut locks = no_locks();
    locks.bun_lock = true;
    assert_eq!(
        detect_js_package_manager(Some("{}"), locks),
        Some(JsPackageManager::Bun)
    );
}

#[test]
fn trusts_existing_node_modules_without_install() {
    let package = r#"{"packageManager":"pnpm@10.17.1"}"#;
    let mut locks = no_locks();
    locks.pnpm_lock = true;
    let manager = detect_js_package_manager(Some(package), locks);
    let want = js_deps_fingerprint(&project(&[
        ("package.json", package),
        ("pnpm-lock.yaml", "lockfileVersion: 9"),
    ]));
    let plan = plan_js_deps(manager, true, None, &want);
    let first = settle(plan, &want, InstallRun::NotStarted).unwrap();
    assert!(matches!(
        first.outcome,
        EnsureJsDepsOutcome::TrustedExisting { .. }
    ));
    let plan = plan_js_deps(manager, true, first.stamp.as_deref(), &want);
    let second = settle(plan, &want, InstallRun::NotStarted).unwrap();
    assert!(matches!(
        second.outcome,
        EnsureJsDepsOutcome::SkippedStampMatch { .. }
    ));
}

#[test]
fn package_manager_field_is_read_leniently() {
    assert_eq!(package_manager_field("{}"), None);
    assert_eq!(
        package_manager_field("{ \"packageManager\" :\n  \"yarn@4\" }"),
        Some("yarn@4")
    );
    assert_eq!(package_manager_field("{\"packageManager\": 4}"), None);
    assert_eq!(package_manager_field("{\"packageManager\"}"), None);
    assert_eq!(package_manager_field("{\"packageManager\":\"bun"), Some("bun"));
}

#[test]
fn field_wins_over_lockfiles_and_unknown_falls_back() {
    let mut locks = no_locks();
    locks.yarn_lock = true;
    locks.package_lock = true;
    for (name, manager) in [
        ("bun", JsPackageManager::Bun),
        ("pnpm", JsPackageManager::Pnpm),
        ("yarn", JsPackageManager::Yarn),
        ("npm", JsPackageManager::Npm),
    ] {
        let text = format!("{{\"packageManager\":\"{name}@1\"}}");
        assert_eq!(detect_js_package_manager(Some(&text), locks), Some(manager));
        assert_eq!(manager.as_str(), name);
    }
    assert_eq!(
        detect_js_package_manager(Some("{\"packageManager\":\"deno@1\"}"), locks),
        Some(JsPackageManager::Yarn)
    );
    assert_eq!(detect_js_package_manager(None, no_locks()), None);
    let mut npm = no_locks();
    npm.package_lock = true;
    assert_eq!(detect_js_package_manager(None, npm), Some(JsPackageManager::Npm));
    npm.pnpm_lock = true;
    assert_eq!(detect_js_package_manager(None, npm), Some(JsPackageManager::Pnpm));
    npm.bun_lockb = true;
    assert_eq!(detect_js_package_manager(None, npm), Some(JsPackageManager::Bun));
}

#[test]
fn fingerprint_is_the_hash_of_the_records() {
    let contents = project(&[("package.json", "{}"), ("bunfig.toml", "a")]);
    let mut bytes = b"package.json\0".to_vec();
    bytes.extend_from_slice(&2u64.to_le_bytes());
    bytes.extend_from_slice(b"{}");
    bytes.extend_from_slice(b"bunfig.toml\0");
    bytes.extend_from_slice(&1u64.to_le_bytes());
    bytes.extend_from_slice(b"a");
    assert_eq!(fingerprint_input(&contents), bytes);
    assert_eq!(
        js_deps_fingerprint(&contents),
        format!("{:016x}", rapidhash::v3::rapidhash_v3(&bytes))
    );
    assert_eq!(
        js_deps_fingerprint(&project(&[])),
        format!("{:016x}", rapidhash::v3::rapidhash_v3(&[]))
    );
}

#[test]
fn fingerprint_tells_projects_apart() {
    let a = project(&[("package.json", "{}")]);
    let b = project(&[("package.json", "{} ")]);
    let c = project(&[("yarn.lock", "{}")]);
    let d = project(&[("package.json", "{}"), ("yarn.lock", "")]);
    for (x, y) in [(&a, &b), (&a, &c), (&a, &d), (&c, &d)] {
        assert_ne!(fingerprint_input(x), fingerprint_input(y));
        assert_ne!(js_deps_fingerprint(x), js_deps_fingerprint(y));
    }
}

#[test]
fn plans() {
    let manager = JsPackageManager::Npm;
    assert_eq!(
        plan_js_deps(None, true, Some("x"), "x"),
        DepsPlan::Done(EnsureJsDepsOutcome::SkippedNoJsProject)
    );
    assert_eq!(
        plan_js_deps(Some(manager), false, Some("x"), "x"),
        DepsPlan::Install { manager }
    );
    assert_eq!(
        plan_js_deps(Some(manager), true, Some(" x\n"), "x"),
        DepsPlan::Done(EnsureJsDepsOutcome::SkippedStampMatch { manager })
    );
    assert_eq!(
        plan_js_deps(Some(manager), true, Some("y"), "x"),
        DepsPlan::Install { manager }
    );
    assert_eq!(
        plan_js_deps(Some(manager), true, None, "x"),
        DepsPlan::Trust { manager }
    );
    assert_eq!(STAMP_NAME, ".shuvgrok-deps-stamp");
    assert_eq!(stamp_text("ab"), "ab\n");
}

#[test]
fn install_commands() {
    assert_eq!(
        install_args(JsPackageManager::Bun, true),
        vec!["install", "--frozen-lockfile"]
    );
    assert_eq!(
        install_args(JsPackageManager::Pnpm, true),
        vec!["install", "--frozen-lockfile"]
    );
    assert_eq!(
        install_args(JsPackageManager::Yarn, true),
        vec!["install", "--immutable"]
    );
    assert_eq!(install_args(JsPackageManager::Npm, true), vec!["ci"]);
    assert_eq!(install_args(JsPackageManager::Npm, false), vec!["install"]);
}

#[test]
fn install_results() {
    let manager = JsPackageManager::Pnpm;
    assert_eq!(
        finish_install(manager, true, Some(0), ""),
        Ok(EnsureJsDepsOutcome::Installed { manager })
    );
    for code in [Some(1), Some(-9), Some(i32::MIN), None] {
        assert_eq!(
            finish_install(manager, false, code, "boom"),
            Err(format!("pnpm install failed (status {code:?}): boom"))
        );
    }
    assert_eq!(install_not_started(manager), "pnpm install failed to start");
}

#[test]
fn plans_are_settled() {
    let manager = JsPackageManager::Bun;
    let skipped = EnsureJsDepsOutcome::SkippedStampMatch { manager };
    assert_eq!(
        settle(DepsPlan::Done(skipped), "w", InstallRun::NotStarted),
        Ok(DepsEnd {
            outcome: skipped,
            stamp: None
        })
    );
    assert_eq!(
        settle(DepsPlan::Trust { manager }, "w", InstallRun::NotStarted),
        Ok(DepsEnd {
            outcome: EnsureJsDepsOutcome::TrustedExisting { manager },
            stamp: Some("w\n".into())
        })
    );
    let install = DepsPlan::Install { manager };
    assert_eq!(
        settle(
            install,
            "w",
            InstallRun::Succeeded {
                fingerprint: "f".into()
            }
        ),
        Ok(DepsEnd {
            outcome: EnsureJsDepsOutcome::Installed { manager },
            stamp: Some("f\n".into())
        })
    );
    assert_eq!(
        settle(
            install,
            "w",
            InstallRun::Failed {
                code: Some(2),
                stderr: "no".into()
            }
        ),
        Err("bun install failed (status Some(2)): no".into())
    );
    assert_eq!(
        settle(install, "w", InstallRun::NotStarted),
        Err("bun install failed to start".into())
    );
}
