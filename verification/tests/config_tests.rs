use mma_tui::config::{
    join_path, resolve_python, resolve_scraper, scraper_candidates, venv_python_path, Config, EnvVars, FsProbe,
    ScraperLaunch, SidecarLaunch,
};

fn no_env() -> EnvVars {
    EnvVars::default()
}

fn nothing_on_disk() -> FsProbe {
    FsProbe { venv_python_is_file: false, scraper_binary_is_executable: vec![false, false, false] }
}

#[test]
fn resolve_derives_paths_with_no_env_overrides() {
    let cfg = Config::resolve("/tmp/repo".to_string(), &no_env(), &nothing_on_disk());
    assert_eq!(cfg.repo_root, "/tmp/repo");
    assert_eq!(cfg.db_path, "/tmp/repo/data/ufc.db");
    assert_eq!(cfg.sidecar_script, "/tmp/repo/ml/serve.py");
    assert_eq!(cfg.ml_dir, "/tmp/repo/ml");
    assert_eq!(cfg.scraper_dir, "/tmp/repo/scraper-go");
}

#[test]
fn default_sidecar_is_python_plus_serve_script() {
    let cfg = Config::resolve("/tmp/repo".to_string(), &no_env(), &nothing_on_disk());
    match cfg.sidecar {
        SidecarLaunch::Script { python, script } => {
            assert_eq!(python, "python3");
            assert_eq!(script, "/tmp/repo/ml/serve.py");
        }
        other => panic!("expected default Script sidecar, got {other:?}"),
    }
}

#[test]
fn default_scraper_falls_back_to_go_run_when_no_binary() {
    let dir = "/tmp/definitely-not-a-scraper-dir-xyz";
    match resolve_scraper(dir, None, &[false, false, false]) {
        ScraperLaunch::GoRun { dir: d } => assert_eq!(d, dir),
        other => panic!("expected GoRun fallback, got {other:?}"),
    }
}

#[test]
fn prebuilt_scraper_binary_is_preferred_in_name_order() {
    let dir = "/r/scraper-go";
    assert_eq!(
        resolve_scraper(dir, None, &[false, true, true]),
        ScraperLaunch::Binary("/r/scraper-go/scraper".to_string())
    );
    assert_eq!(
        resolve_scraper(dir, None, &[true, true, false]),
        ScraperLaunch::Binary("/r/scraper-go/scraper-go".to_string())
    );
    assert_eq!(
        resolve_scraper(dir, None, &[false, false, true]),
        ScraperLaunch::Binary("/r/scraper-go/scraper-go.bin".to_string())
    );
    assert_eq!(resolve_scraper(dir, None, &[]), ScraperLaunch::GoRun { dir: dir.to_string() });
}

#[test]
fn mma_db_overrides_db_path_verbatim() {
    let env = EnvVars { mma_db: Some("/custom/place/test.db".to_string()), ..Default::default() };
    let cfg = Config::resolve("/tmp/repo".to_string(), &env, &nothing_on_disk());
    assert_eq!(cfg.db_path, "/custom/place/test.db");
}

#[test]
fn mma_db_unset_uses_default_db_path() {
    let cfg = Config::resolve("/tmp/repo".to_string(), &no_env(), &nothing_on_disk());
    assert_eq!(cfg.db_path, "/tmp/repo/data/ufc.db");
}

#[test]
fn mma_sidecar_overrides_to_single_executable() {
    let env = EnvVars { mma_sidecar: Some("/fixtures/stub_sidecar.py".to_string()), ..Default::default() };
    let cfg = Config::resolve("/tmp/repo".to_string(), &env, &nothing_on_disk());
    match cfg.sidecar {
        SidecarLaunch::Executable(p) => assert_eq!(p, "/fixtures/stub_sidecar.py"),
        other => panic!("expected Executable sidecar override, got {other:?}"),
    }
}

#[test]
fn mma_sidecar_unset_keeps_default_script_sidecar() {
    let cfg = Config::resolve("/tmp/repo".to_string(), &no_env(), &nothing_on_disk());
    assert!(matches!(cfg.sidecar, SidecarLaunch::Script { .. }));
}

#[test]
fn mma_scraper_overrides_to_binary() {
    let env = EnvVars { mma_scraper: Some("/fixtures/stub_scraper.sh".to_string()), ..Default::default() };
    let probe = FsProbe { venv_python_is_file: false, scraper_binary_is_executable: vec![true, true, true] };
    let cfg = Config::resolve("/tmp/repo".to_string(), &env, &probe);
    match cfg.scraper {
        ScraperLaunch::Binary(p) => assert_eq!(p, "/fixtures/stub_scraper.sh"),
        other => panic!("expected Binary scraper override, got {other:?}"),
    }
}

#[test]
fn mma_scraper_unset_uses_default_resolution() {
    let dir = "/tmp/definitely-not-a-scraper-dir-xyz";
    assert!(matches!(resolve_scraper(dir, None, &[false, false, false]), ScraperLaunch::GoRun { .. }));
}

#[test]
fn mma_python_overrides_interpreter_and_flows_into_sidecar() {
    let env = EnvVars { mma_python: Some("/opt/py/bin/python".to_string()), ..Default::default() };
    let cfg = Config::resolve("/tmp/repo".to_string(), &env, &nothing_on_disk());
    assert_eq!(cfg.python, "/opt/py/bin/python");
    match cfg.sidecar {
        SidecarLaunch::Script { python, .. } => assert_eq!(python, "/opt/py/bin/python"),
        other => panic!("expected Script sidecar carrying MMA_PYTHON, got {other:?}"),
    }
}

#[test]
fn mma_python_falls_back_to_python3_when_unset_and_no_venv() {
    assert_eq!(resolve_python("/tmp/repo-without-venv", None, false), "python3");
}

#[test]
fn venv_python_is_used_when_present() {
    assert_eq!(resolve_python("/tmp/repo", None, true), "/tmp/repo/.venv/bin/python");
    assert_eq!(venv_python_path("/tmp/repo"), "/tmp/repo/.venv/bin/python");
}

#[test]
fn resolve_python_prefers_injected_value() {
    assert_eq!(resolve_python("/tmp/repo", Some("/usr/local/bin/python3.12"), true), "/usr/local/bin/python3.12");
}

#[test]
fn all_overrides_together_are_independent() {
    let env = EnvVars {
        mma_db: Some("/d/test.db".to_string()),
        mma_python: Some("/p/python".to_string()),
        mma_sidecar: Some("/s/stub_sidecar.py".to_string()),
        mma_scraper: Some("/c/stub_scraper.sh".to_string()),
    };
    let cfg = Config::resolve("/tmp/repo".to_string(), &env, &nothing_on_disk());
    assert_eq!(cfg.db_path, "/d/test.db");
    assert_eq!(cfg.python, "/p/python");
    assert_eq!(cfg.sidecar, SidecarLaunch::Executable("/s/stub_sidecar.py".to_string()));
    assert_eq!(cfg.scraper, ScraperLaunch::Binary("/c/stub_scraper.sh".to_string()));
}

#[test]
fn join_path_adds_one_separator() {
    assert_eq!(join_path("/tmp/repo", "ml"), "/tmp/repo/ml");
    assert_eq!(join_path("/tmp/repo/", "ml"), "/tmp/repo/ml");
    assert_eq!(join_path("", "ml"), "ml");
    assert_eq!(join_path("/", "data"), "/data");
    assert_eq!(
        scraper_candidates("/x"),
        vec!["/x/scraper-go".to_string(), "/x/scraper".to_string(), "/x/scraper-go.bin".to_string()]
    );
}
