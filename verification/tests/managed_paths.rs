use rift_app::managed_paths::{
    filter_accepts, watch_registrations, watch_roots_to_create, RepositoryUpdate, WatchFilter,
};

#[test]
fn data_dir_is_watched_without_its_worktrees() {
    let plan = watch_registrations("/home/u/.rift", "/home/u/.rift", None, false);
    assert_eq!(plan.len(), 1);
    assert_eq!(plan[0].path, "/home/u/.rift");
    assert_eq!(plan[0].description, "Warp data directory");
    assert_eq!(
        plan[0].filter,
        WatchFilter::ExcludeSubtree { excluded: "/home/u/.rift/worktrees".to_string() }
    );
    assert!(!filter_accepts(&plan[0].filter, "/home/u/.rift/worktrees/branch/file"));
    assert!(filter_accepts(&plan[0].filter, "/home/u/.rift/settings.yaml"));
    assert!(filter_accepts(&plan[0].filter, "/home/u/.rift/worktrees2"));
}

#[test]
fn separate_config_dir_and_skills_dir_are_watched() {
    let plan = watch_registrations(
        "/data/rift",
        "/config/rift",
        Some("/home/u/.rift-skills"),
        true,
    );
    let paths: Vec<&str> = plan.iter().map(|r| r.path.as_str()).collect();
    assert_eq!(paths, vec!["/data/rift", "/config/rift", "/home/u/.rift-skills"]);
    assert_eq!(plan[1].filter, WatchFilter::AcceptAll);
    assert_eq!(plan[1].description, "Warp config directory");
    assert_eq!(plan[2].description, "Warp home skills directory");
}

#[test]
fn skills_dir_inside_a_watched_dir_or_missing_is_not_watched_again() {
    let inside_data =
        watch_registrations("/data/rift", "/config/rift", Some("/data/rift/skills"), true);
    assert_eq!(inside_data.len(), 2);
    let inside_config =
        watch_registrations("/data/rift", "/config/rift", Some("/config/rift/skills"), true);
    assert_eq!(inside_config.len(), 2);
    let missing = watch_registrations("/data/rift", "/config/rift", Some("/skills"), false);
    assert_eq!(missing.len(), 2);
    // With the config directory equal to the data directory, only the data
    // directory matters.
    let same = watch_registrations("/data/rift", "/data/rift/", Some("/skills"), true);
    let paths: Vec<&str> = same.iter().map(|r| r.path.as_str()).collect();
    assert_eq!(paths, vec!["/data/rift", "/skills"]);
}

#[test]
fn roots_to_create_skip_a_config_dir_equal_to_the_data_dir() {
    assert_eq!(watch_roots_to_create("/d", "/d"), vec!["/d".to_string()]);
    assert_eq!(watch_roots_to_create("/d", "/c"), vec!["/d".to_string(), "/c".to_string()]);
}

#[test]
fn filesystem_event_becomes_an_update_over_all_paths() {
    let update = RepositoryUpdate::from_filesystem_event(
        vec!["/r/a".to_string()],
        vec!["/r/b".to_string()],
        vec!["/r/c".to_string()],
        vec![("/r/new".to_string(), "/r/old".to_string())],
    );
    assert!(!update.is_empty());
    assert!(!update.commit_updated && !update.index_lock_detected && !update.remote_ref_updated);
    assert!(update.added.iter().all(|t| !t.is_ignored));
    assert_eq!(update.paths(), vec!["/r/a", "/r/b", "/r/c", "/r/new", "/r/old"]);
    assert!(update.touches_path("/r/old"));
    assert!(update.touches_path("/r/b/"));
    assert!(!update.touches_path("/r"));
    assert!(update.touches_prefix("/r"));
    assert!(!update.touches_prefix("/s"));
}

#[test]
fn empty_event_gives_an_empty_update() {
    let update = RepositoryUpdate::from_filesystem_event(vec![], vec![], vec![], vec![]);
    assert!(update.is_empty());
    assert!(update.paths().is_empty());
    assert!(!update.touches_prefix("/"));
}
