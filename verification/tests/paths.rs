use jinn::app_paths::{file_stem_and_extension, join_path, AppPaths, BrowserProfileMode, SYSTEM_DATA_DIR};

fn rooted() -> AppPaths {
    AppPaths::new_in("/tmp/root")
}

fn installed() -> AppPaths {
    AppPaths::new(
        "/home/u/.config".to_owned(),
        "/home/u/.local/share".to_owned(),
        "/home/u/.cache".to_owned(),
        "/home/u/.local/state".to_owned(),
        "/home/u".to_owned(),
        SYSTEM_DATA_DIR.to_owned(),
    )
}

fn entries(paths: &[&str]) -> Vec<String> {
    paths.iter().map(|p| (*p).to_owned()).collect()
}

#[test]
fn joining_follows_unix_path_rules() {
    assert_eq!(join_path("/a", "b"), "/a/b");
    assert_eq!(join_path("/a/", "b"), "/a/b");
    assert_eq!(join_path("", "b"), "b");
    assert_eq!(join_path("/a", "/etc"), "/etc");
}

#[test]
fn resolve_theme_paths_returns_empty_when_both_dirs_missing() {
    let result = rooted().resolve_theme_paths(&Vec::new(), &Vec::new());
    assert!(result.is_empty());
}

#[test]
fn resolve_theme_paths_finds_system_files() {
    let paths = rooted();
    let system = entries(&["/tmp/root/share/themes/ocean.toml"]);
    let result = paths.resolve_theme_paths(&system, &Vec::new());
    assert_eq!(result.len(), 1);
    assert_eq!(result[0].0, "ocean");
}

#[test]
fn resolve_theme_paths_finds_user_files() {
    let paths = rooted();
    let user = entries(&["/tmp/root/config/jinn/themes/forest.toml"]);
    let result = paths.resolve_theme_paths(&Vec::new(), &user);
    assert_eq!(result.len(), 1);
    assert_eq!(result[0].0, "forest");
}

#[test]
fn resolve_theme_paths_user_overrides_system() {
    let paths = rooted();
    let system = entries(&["/tmp/root/share/themes/ocean.toml"]);
    let user = entries(&["/tmp/root/config/jinn/themes/ocean.toml"]);
    let result = paths.resolve_theme_paths(&system, &user);
    assert_eq!(result.len(), 1);
    assert_eq!(result[0].0, "ocean");
    assert!(result[0].1.starts_with(&paths.themes_dir()));
}

#[test]
fn resolve_theme_paths_merges_both_dirs() {
    let paths = rooted();
    let system = entries(&["/tmp/root/share/themes/ocean.toml", "/tmp/root/share/themes/README.md"]);
    let user = entries(&["/tmp/root/config/jinn/themes/forest.toml"]);
    let result = paths.resolve_theme_paths(&system, &user);
    assert_eq!(result.len(), 2);
    assert_eq!(result[0].0, "forest");
    assert_eq!(result[1].0, "ocean");
}

#[test]
fn resolve_prompt_paths_uses_md_extension() {
    let paths = rooted();
    let system = entries(&["/tmp/root/share/prompts/example.md", "/tmp/root/share/prompts/other.toml"]);
    let result = paths.resolve_prompt_paths(&system, &Vec::new());
    assert_eq!(result, vec![("example".to_owned(), "/tmp/root/share/prompts/example.md".to_owned())]);
}

#[test]
fn file_names_split_at_the_last_dot() {
    assert_eq!(file_stem_and_extension("/a/b.tar.gz"), ("b.tar".to_owned(), Some("gz".to_owned())));
    assert_eq!(file_stem_and_extension("/a/.hidden"), (".hidden".to_owned(), None));
    assert_eq!(file_stem_and_extension("noext"), ("noext".to_owned(), None));
}

#[test]
fn default_system_data_dir_is_usr_share() {
    assert_eq!(installed().system_data_dir(), "/usr/share/jinn");
}

#[test]
fn new_in_system_data_dir_is_under_root() {
    assert_eq!(rooted().system_data_dir(), "/tmp/root/share");
}

#[test]
fn default_system_skills_dir_is_usr_share() {
    assert_eq!(installed().system_skills_dir(), "/usr/share/jinn/skills");
}

#[test]
fn new_in_system_skills_dir_is_under_root() {
    assert_eq!(rooted().system_skills_dir(), "/tmp/root/share/skills");
}

#[test]
fn log_path_under_state_dir_in_new_in() {
    assert_eq!(rooted().log_path(), "/tmp/root/state/jinn/jinn.log");
}

#[test]
fn state_file_path_under_state_dir_in_new_in() {
    assert_eq!(rooted().state_file_path(), "/tmp/root/state/jinn/state.toml");
}

#[test]
fn log_path_filename_is_app_name_dot_log() {
    assert!(installed().log_path().ends_with("/jinn.log"));
}

#[test]
fn browser_profile_dir_for_mode_lands_under_data_base() {
    let paths = rooted();
    assert_eq!(
        paths.browser_profile_dir_for_mode(BrowserProfileMode::Headed),
        "/tmp/root/data/jinn/browser-profile/headed"
    );
    assert_eq!(
        paths.browser_profile_dir_for_mode(BrowserProfileMode::Headless),
        "/tmp/root/data/jinn/browser-profile/headless"
    );
}

#[test]
fn every_location_nests_under_its_base() {
    let paths = installed();
    assert_eq!(paths.auth_path(), "/home/u/.config/jinn/auth.json");
    assert_eq!(paths.config_path(), "/home/u/.config/jinn/providers.toml");
    assert_eq!(paths.preferences_path(), "/home/u/.config/jinn/jinn.toml");
    assert_eq!(paths.cache_path(), "/home/u/.cache/jinn/model_cache.json");
    assert_eq!(paths.models_dev_user_path(), "/home/u/.cache/jinn/models.dev.json");
    assert_eq!(paths.models_dev_system_path(), "/usr/share/jinn/models.dev.json");
    assert_eq!(paths.plugins_dir(), "/home/u/.local/share/jinn/plugins");
    assert_eq!(paths.app_data_dir(), "/home/u/.local/share/jinn");
    assert_eq!(paths.app_config_dir(), "/home/u/.config/jinn");
    assert_eq!(paths.system_themes_dir(), "/usr/share/jinn/themes");
    assert_eq!(paths.system_prompts_dir(), "/usr/share/jinn/prompts");
    assert_eq!(paths.config_dir(), "/home/u/.config");
    assert_eq!(paths.data_dir(), "/home/u/.local/share");
    assert_eq!(paths.home_dir(), "/home/u");
}

#[test]
fn the_home_directory_can_be_replaced_for_tests() {
    let mut paths = rooted();
    paths.set_home_dir_for_test("/elsewhere".to_owned());
    assert_eq!(paths.home_dir(), "/elsewhere");
    assert_eq!(paths.config_dir(), "/tmp/root/config");
}
