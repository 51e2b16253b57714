use module_cache::conf::{
    cache_directory, cache_enabled, complete_init, compression_level, init, CacheConfig, Config,
    Prepared, Setup, Stage, DEFAULT_COMPRESSION_LEVEL,
};

#[test]
fn default_level_lets_the_compressor_choose() {
    assert_eq!(DEFAULT_COMPRESSION_LEVEL, 0);
}

#[test]
fn disabled_config_has_no_directory() {
    let config = Config::new_cache_disabled();
    assert!(!config.cache_enabled);
    assert_eq!(config.cache_dir, "");
    assert_eq!(config.compression_level, 0);
}

#[test]
fn config_not_enabled_is_disabled_whatever_else_is_asked() {
    let setup = Config::new(false, Some("/tmp/c".to_string()), 7);
    assert_eq!(setup, Setup::Decided(Config::new_cache_disabled()));
    let setup = Config::new(false, None, 7);
    assert_eq!(setup, Setup::Decided(Config::new_cache_disabled()));
}

#[test]
fn config_enabled_with_directory_asks_to_prepare_it() {
    let setup = Config::new(true, Some("relative/dir".to_string()), 7);
    assert_eq!(
        setup,
        Setup::Prepare { dir: "relative/dir".to_string(), compression_level: 7 }
    );
}

#[test]
fn config_enabled_without_directory_prepares_the_default_or_gives_up() {
    match Config::new(true, None, 5) {
        Setup::Decided(config) => assert_eq!(config, Config::new_cache_disabled()),
        Setup::Prepare { dir, compression_level } => {
            assert!(!dir.is_empty());
            assert_eq!(compression_level, 5);
        }
    }
}

#[test]
fn plan_prefers_the_directory_asked_for() {
    let setup = Config::plan(true, Some("asked".to_string()), Some("found".to_string()), 1);
    assert_eq!(setup, Setup::Prepare { dir: "asked".to_string(), compression_level: 1 });
}

#[test]
fn plan_falls_back_to_the_default_directory() {
    let setup = Config::plan(true, None, Some("found".to_string()), -3);
    assert_eq!(setup, Setup::Prepare { dir: "found".to_string(), compression_level: -3 });
}

#[test]
fn plan_without_any_directory_is_disabled() {
    let setup = Config::plan(true, None, None, 9);
    assert_eq!(setup, Setup::Decided(Config::new_cache_disabled()));
}

#[test]
fn plan_not_enabled_ignores_directories() {
    let setup = Config::plan(false, Some("asked".to_string()), Some("found".to_string()), 9);
    assert_eq!(setup, Setup::Decided(Config::new_cache_disabled()));
}

#[test]
fn step2_with_ready_directory_enables() {
    let config = Config::new_step2(Prepared::Ready("/abs/cache".to_string()), 19);
    assert_eq!(
        config,
        Config { cache_enabled: true, cache_dir: "/abs/cache".to_string(), compression_level: 19 }
    );
}

#[test]
fn step2_create_failure_disables() {
    let config = Config::new_step2(Prepared::CreateFailed, 19);
    assert_eq!(config, Config::new_cache_disabled());
}

#[test]
fn step2_canonicalize_failure_disables() {
    let config = Config::new_step2(Prepared::CanonicalizeFailed, 19);
    assert_eq!(config, Config::new_cache_disabled());
}

#[test]
fn implicit_reads_see_a_disabled_cache() {
    let mut cell = CacheConfig::new();
    assert!(!cache_enabled(&mut cell));
    assert!(!cache_enabled(&mut cell));
}

#[test]
fn init_disabled_needs_no_directory() {
    let mut cell = CacheConfig::new();
    let todo = init(&mut cell, false, Some("/tmp/c".to_string()), Some(3));
    assert_eq!(todo, None);
    assert!(!cache_enabled(&mut cell));
}

#[test]
fn init_enabled_names_the_directory_and_waits() {
    let mut cell = CacheConfig::new();
    let todo = init(&mut cell, true, Some("/tmp/c".to_string()), Some(3));
    assert_eq!(todo, Some("/tmp/c".to_string()));
    complete_init(&mut cell, Prepared::Ready("/private/tmp/c".to_string()));
    assert!(cache_enabled(&mut cell));
    assert_eq!(cache_directory(&cell), "/private/tmp/c");
    assert_eq!(compression_level(&cell), 3);
}

#[test]
fn init_without_level_takes_the_default() {
    let mut cell = CacheConfig::new();
    let todo = init(&mut cell, true, Some("/tmp/c".to_string()), None);
    assert_eq!(todo, Some("/tmp/c".to_string()));
    complete_init(&mut cell, Prepared::Ready("/tmp/c".to_string()));
    assert!(cache_enabled(&mut cell));
    assert_eq!(compression_level(&cell), DEFAULT_COMPRESSION_LEVEL);
}

#[test]
fn init_falls_back_to_disabled_when_directory_cannot_be_created() {
    let mut cell = CacheConfig::new();
    let todo = init(&mut cell, true, Some("/tmp/c".to_string()), Some(3));
    assert!(todo.is_some());
    complete_init(&mut cell, Prepared::CreateFailed);
    assert!(!cache_enabled(&mut cell));
}

#[test]
fn init_falls_back_to_disabled_when_directory_cannot_be_canonicalized() {
    let mut cell = CacheConfig::new();
    let todo = init(&mut cell, true, Some("/tmp/c".to_string()), Some(3));
    assert!(todo.is_some());
    complete_init(&mut cell, Prepared::CanonicalizeFailed);
    assert!(!cache_enabled(&mut cell));
}

#[test]
fn reads_after_init_see_the_same_configuration() {
    let mut cell = CacheConfig::new();
    let _ = init(&mut cell, true, Some("d".to_string()), Some(-5));
    complete_init(&mut cell, Prepared::Ready("/d".to_string()));
    for _ in 0..3 {
        assert!(cache_enabled(&mut cell));
        assert_eq!(cache_directory(&cell), "/d");
        assert_eq!(compression_level(&cell), -5);
    }
}

#[test]
fn stage_follows_an_implicit_read() {
    let mut cell = CacheConfig::new();
    assert_eq!(cell.stage(), Stage::Unset);
    assert_eq!(cell.frozen(), None);
    assert!(!cache_enabled(&mut cell));
    assert_eq!(cell.stage(), Stage::Frozen);
    assert_eq!(cell.frozen(), Some(&Config::new_cache_disabled()));
}

#[test]
fn stage_follows_init() {
    let mut cell = CacheConfig::new();
    let _ = init(&mut cell, true, Some("/tmp/c".to_string()), Some(4));
    assert_eq!(cell.stage(), Stage::Preparing);
    assert_eq!(cell.frozen(), None);
    complete_init(&mut cell, Prepared::Ready("/tmp/c".to_string()));
    assert_eq!(cell.stage(), Stage::Frozen);
    assert_eq!(
        cell.frozen(),
        Some(&Config { cache_enabled: true, cache_dir: "/tmp/c".to_string(), compression_level: 4 })
    );
}

#[test]
fn asking_for_the_stage_does_not_freeze() {
    let mut cell = CacheConfig::new();
    for _ in 0..3 {
        assert_eq!(cell.stage(), Stage::Unset);
        assert_eq!(cell.frozen(), None);
    }
    assert_eq!(init(&mut cell, false, None, None), None);
    assert_eq!(cell.stage(), Stage::Frozen);
}
