use getlrc::paths::{
    get_cache_db_path, get_data_dir, get_install_path, get_local_bin_dir, get_log_dir,
    get_session_path, is_installed, is_local_bin_in_path, path_list_contains,
};
use getlrc::scanner::{has_lrc_sidecar, is_audio_file, sidecar_path};

#[test]
fn test_get_cache_db_path() {
    let cache_path = get_cache_db_path("/home/user/.local/share/getlrc");
    assert!(std::path::Path::new(&cache_path).ends_with("negative_cache.db"));
    assert_eq!(cache_path, "/home/user/.local/share/getlrc/negative_cache.db");
}

#[test]
fn session_file_lies_in_the_data_directory() {
    let session_path = get_session_path("/home/user/.local/share/getlrc");
    assert!(std::path::Path::new(&session_path).ends_with("session.json"));
    assert_eq!(session_path, "/home/user/.local/share/getlrc/session.json");
}

#[test]
fn mod_test_has_lrc_sidecar() {
    assert!(!has_lrc_sidecar("/tmp/test.flac"));
}

#[test]
fn parallel_test_has_lrc_sidecar() {
    assert!(!getlrc::scanner::parallel::has_lrc_sidecar("/tmp/test.flac"));
}

#[test]
fn sidecar_has_the_same_base_name() {
    assert_eq!(sidecar_path("/music/a/song.flac"), "/music/a/song.lrc");
    assert_eq!(sidecar_path("/music/a/song.tar.mp3"), "/music/a/song.tar.lrc");
    assert_eq!(sidecar_path("/music/a/song"), "/music/a/song.lrc");
}

#[test]
fn audio_files_go_by_their_extension() {
    for name in ["a.flac", "a.mp3", "a.m4a", "a.aac", "a.opus", "a.ogg", "a.ape", "a.wav"] {
        assert!(is_audio_file(name), "{name}");
    }
    assert!(is_audio_file("/music/A.FLAC"));
    assert!(is_audio_file("/music/a.b.Mp3"));
    assert!(!is_audio_file("/music/a.lrc"));
    assert!(!is_audio_file("/music/flac"));
    assert!(!is_audio_file("/music/.flac"));
    assert!(is_audio_file("/music/a.flac/"));
    assert!(!is_audio_file(""));
}

#[test]
fn test_get_install_path() {
    let path = get_install_path("/home/user");
    assert!(path.contains(".local/bin/getlrc"));
    assert_eq!(path, "/home/user/.local/bin/getlrc");
}

#[test]
fn test_get_data_dir() {
    let data_dir = get_data_dir("/home/user/.local/share");
    assert!(std::path::Path::new(&data_dir).ends_with("getlrc"));
    assert_eq!(data_dir, "/home/user/.local/share/getlrc");
}

#[test]
fn log_and_binary_directories() {
    assert_eq!(get_log_dir("/home/user/.local/share/getlrc"), "/home/user/.local/share/getlrc/logs");
    assert_eq!(get_local_bin_dir("/home/user"), "/home/user/.local/bin");
    assert_eq!(get_local_bin_dir("/home/user/"), "/home/user/.local/bin");
}

#[test]
fn nothing_is_installed_nowhere() {
    assert!(!is_installed("/nowhere/at/all"));
}

#[test]
fn a_search_path_lists_its_entries_to_the_letter() {
    let list = "/usr/local/bin:/usr/bin:/home/user/.local/bin:/bin";
    assert!(path_list_contains(list, "/usr/local/bin"));
    assert!(path_list_contains(list, "/home/user/.local/bin"));
    assert!(path_list_contains(list, "/bin"));
    assert!(!path_list_contains(list, "/usr"));
    assert!(!path_list_contains(list, "/usr/bin:"));
    assert!(!path_list_contains(list, "/usr/bin/"));
    assert!(!path_list_contains(list, "bin"));
    assert!(!path_list_contains(list, ""));
    assert!(path_list_contains("", ""));
    assert!(path_list_contains("/a::/b", ""));
    assert!(path_list_contains("/a:", ""));
    assert!(!path_list_contains("/a", ""));
    assert!(path_list_contains("/a", "/a"));
}

#[test]
fn the_local_bin_directory_is_looked_for_in_the_search_path() {
    assert!(is_local_bin_in_path("/usr/bin:/home/user/.local/bin", "/home/user"));
    assert!(!is_local_bin_in_path("/usr/bin:/home/user/.local/bin/", "/home/user"));
    assert!(!is_local_bin_in_path("/usr/bin:/home/other/.local/bin", "/home/user"));
    assert!(!is_local_bin_in_path("", "/home/user"));
}
