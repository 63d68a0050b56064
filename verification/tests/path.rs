use resip::support::path::{
    absolute_dir_in, clash_file_name, clash_output_location, collapse_below_home, collapse_home_with,
    detect_default_identity_file, directory_to_open, expand_tilde, expand_tilde_with_home,
    file_stem_of_lowercase, home_relative, preferred_identity_file, sanitize_file_stem,
    usable_parent,
};

#[test]
fn sanitize_file_stem_keeps_safe_ascii() {
    assert_eq!(sanitize_file_stem("Resip Server_01"), "resip-server_01");
}

#[test]
fn sanitize_file_stem_falls_back_for_empty_result() {
    assert_eq!(sanitize_file_stem("中文 🚀"), "server");
}

#[test]
fn expand_tilde_leaves_non_tilde_paths_unchanged() {
    assert_eq!(
        std::path::PathBuf::from(expand_tilde("relative/file").unwrap()),
        std::path::PathBuf::from("relative/file")
    );
}

#[test]
fn sanitize_file_stem_trims_dashes_and_drops_symbols() {
    assert_eq!(sanitize_file_stem("  --My.Server!! --"), "myserver");
    assert_eq!(sanitize_file_stem("a\tb"), "a-b");
    assert_eq!(sanitize_file_stem("---"), "server");
    assert_eq!(sanitize_file_stem(""), "server");
}

#[test]
fn file_stem_is_idempotent_on_examples() {
    for name in ["Resip Server_01", "中文 🚀", "  --My.Server!! --", "x"] {
        let once = sanitize_file_stem(name);
        assert_eq!(file_stem_of_lowercase(&once), once);
    }
}

#[test]
fn file_stem_of_lowercase_keeps_case_it_is_given() {
    assert_eq!(file_stem_of_lowercase("Ab C"), "Ab-C");
}

#[test]
fn clash_file_name_uses_sanitized_stem() {
    assert_eq!(clash_file_name("resip-server"), "resip-resip-server.yaml");
    assert_eq!(clash_file_name("My Box"), "resip-my-box.yaml");
}

#[test]
fn home_relative_writes_tilde_forms() {
    assert_eq!(home_relative(""), "~");
    assert_eq!(home_relative("Downloads/resip.yaml"), "~/Downloads/resip.yaml");
    assert_eq!(home_relative(r"Downloads\resip.yaml"), "~/Downloads/resip.yaml");
}

#[test]
fn expand_tilde_joins_below_home() {
    if let Ok(path) = expand_tilde("~/.ssh/id_ed25519") {
        assert!(path.ends_with(".ssh/id_ed25519"));
        assert_ne!(path, "~/.ssh/id_ed25519");
    }
    if let Ok(path) = expand_tilde("~") {
        assert_ne!(path, "~");
    }
}

#[test]
fn collapsed_home_path_expands_again() {
    let collapsed = home_relative("Downloads/x.yaml");
    if let Ok(expanded) = expand_tilde(&collapsed) {
        assert!(expanded.ends_with("Downloads/x.yaml"));
    }
}

#[test]
fn preferred_identity_file_takes_first_present_key() {
    assert_eq!(preferred_identity_file(&[false, true, true, false]), "~/.ssh/id_rsa");
    assert_eq!(preferred_identity_file(&[true, true, true, true]), "~/.ssh/id_ed25519");
    assert_eq!(preferred_identity_file(&[false, false, false, true]), "~/.ssh/id_dsa");
    assert_eq!(preferred_identity_file(&[false, false, true, true]), "~/.ssh/id_ecdsa");
}

#[test]
fn preferred_identity_file_falls_back_to_ed25519() {
    assert_eq!(preferred_identity_file(&[false, false, false, false]), "~/.ssh/id_ed25519");
    assert_eq!(preferred_identity_file(&[]), "~/.ssh/id_ed25519");
}

#[test]
fn detected_identity_file_is_a_candidate() {
    let found = detect_default_identity_file();
    assert!([
        "~/.ssh/id_ed25519",
        "~/.ssh/id_rsa",
        "~/.ssh/id_ecdsa",
        "~/.ssh/id_dsa"
    ]
    .contains(&found.as_str()));
}

#[test]
fn expand_tilde_with_home_uses_given_home() {
    assert_eq!(expand_tilde_with_home("~", "/home/me"), "/home/me");
    let joined = expand_tilde_with_home("~/.ssh/id_rsa", "/home/me");
    assert!(joined == "/home/me/.ssh/id_rsa" || joined == "/home/me\\.ssh/id_rsa");
    assert_eq!(expand_tilde_with_home("relative/file", "/home/me"), "relative/file");
    assert_eq!(expand_tilde_with_home("~user/x", "/home/me"), "~user/x");
}

#[test]
fn collapse_below_home_follows_the_platform_answers() {
    assert_eq!(collapse_below_home("/home/me", true, Some(String::new())), "~");
    assert_eq!(
        collapse_below_home("/home/me/Downloads/x.yaml", true, Some("Downloads/x.yaml".to_string())),
        "~/Downloads/x.yaml"
    );
    assert_eq!(collapse_below_home("/srv/x.yaml", true, None), "/srv/x.yaml");
    assert_eq!(collapse_below_home("x.yaml", false, None), "x.yaml");
}

#[test]
fn collapse_home_with_keeps_relative_paths() {
    assert_eq!(collapse_home_with("~/.ssh/id_ed25519", "/home/me"), "~/.ssh/id_ed25519");
    assert_eq!(collapse_home_with("keys/id", "/home/me"), "keys/id");
}

#[test]
fn collapse_then_expand_gives_the_path_back() {
    if std::path::MAIN_SEPARATOR != '/' {
        return;
    }
    let collapsed = collapse_home_with("/home/me/Downloads/x.yaml", "/home/me");
    assert_eq!(collapsed, "~/Downloads/x.yaml");
    assert_eq!(expand_tilde_with_home(&collapsed, "/home/me"), "/home/me/Downloads/x.yaml");
}

#[test]
fn clash_output_location_prefers_downloads() {
    if std::path::MAIN_SEPARATOR != '/' {
        return;
    }
    assert_eq!(
        clash_output_location("resip-server", Some("/home/me/Downloads".to_string()), "/home/me"),
        "/home/me/Downloads/resip-resip-server.yaml"
    );
    assert_eq!(
        clash_output_location("My Box", None, "/home/me"),
        "/home/me/resip-my-box.yaml"
    );
    let located = clash_output_location("resip-server", Some("/home/me/Downloads".to_string()), "/home/me");
    assert_eq!(collapse_home_with(&located, "/home/me"), "~/Downloads/resip-resip-server.yaml");
}

#[test]
fn sanitize_file_stem_is_lowercase_and_idempotent() {
    for name in ["Resip Server_01", "ÀB C", "İstanbul", "--X--", "ǅ"] {
        let once = sanitize_file_stem(name);
        assert!(once
            .chars()
            .all(|c| c.is_ascii_lowercase() || c.is_ascii_digit() || c == '-' || c == '_'));
        assert_eq!(sanitize_file_stem(&once), once);
    }
}

#[test]
fn directory_to_open_uses_a_non_empty_parent() {
    assert_eq!(directory_to_open("dir/file.yaml"), Some("dir".to_string()));
    assert_eq!(directory_to_open("file.yaml"), None);
    assert_eq!(directory_to_open(""), None);
    assert_eq!(usable_parent(Some(String::new())), None);
    assert_eq!(usable_parent(Some("d".to_string())), Some("d".to_string()));
    assert_eq!(usable_parent(None), None);
}

#[test]
fn absolute_dir_in_joins_relative_dirs_to_cwd() {
    if std::path::MAIN_SEPARATOR != '/' {
        return;
    }
    assert_eq!(absolute_dir_in("/srv/out", None), Some("/srv/out".to_string()));
    assert_eq!(
        absolute_dir_in("out", Some("/home/me".to_string())),
        Some("/home/me/out".to_string())
    );
    assert_eq!(absolute_dir_in("out", None), None);
}

#[test]
fn directory_to_open_is_a_prefix_of_the_path() {
    let dir = directory_to_open("a/b/c.yaml").unwrap();
    assert!("a/b/c.yaml".starts_with(&dir));
    assert!(dir.len() < "a/b/c.yaml".len());
}
