use tgrc::paths::{config_candidates, db_dir, first_existing};

#[test]
fn session_directory() {
    assert_eq!(db_dir(Some("/home/u/.local/share".to_string())), "/home/u/.local/share/tgrc/tdlib");
    assert_eq!(db_dir(Some("/data/".to_string())), "/data/tgrc/tdlib");
    assert_eq!(db_dir(None), "./tgrc/tdlib");
}

#[test]
fn session_directory_matches_path_join() {
    let base = "/var/lib";
    let joined = std::path::Path::new(base).join("tgrc").join("tdlib");
    assert_eq!(db_dir(Some(base.to_string())), joined.to_string_lossy());
}

#[test]
fn configuration_candidates() {
    assert_eq!(
        config_candidates(Some("/home/u".to_string()), Some("/home/u/.config".to_string())),
        vec![
            "/home/u/.config/tgrc/config.toml".to_string(),
            "/home/u/.config/tgrc/config.toml".to_string(),
            "config.toml".to_string(),
        ]
    );
    assert_eq!(
        config_candidates(Some("/Users/you".to_string()), Some("/Users/you/Library/Application Support".to_string())),
        vec![
            "/Users/you/.config/tgrc/config.toml".to_string(),
            "/Users/you/Library/Application Support/tgrc/config.toml".to_string(),
            "config.toml".to_string(),
        ]
    );
    assert_eq!(config_candidates(None, None), vec!["config.toml".to_string()]);
}

#[test]
fn first_existing_candidate_is_chosen() {
    assert_eq!(first_existing(&vec![false, true, true]), Some(1));
    assert_eq!(first_existing(&vec![true, true]), Some(0));
    assert_eq!(first_existing(&vec![false, false, false]), None);
    assert_eq!(first_existing(&vec![]), None);
}
