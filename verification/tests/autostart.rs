use resip::autostart::{
    linux_service_contents, linux_service_path_with_home, macos_plist_contents,
    macos_plist_path_with_home, systemd_escape_path, windows_run_value, xml_escape,
};

#[test]
fn macos_plist_runs_resip_on_at_login() {
    let contents = macos_plist_contents("/Applications/resip");

    assert!(contents.contains("<string>com.resip.tunnel</string>"));
    assert!(contents.contains("<string>/Applications/resip</string>"));
    assert!(contents.contains("<string>on</string>"));
    assert!(contents.contains("<key>RunAtLoad</key>"));
}

#[test]
fn windows_run_value_starts_resip_on_for_current_user() {
    let value = windows_run_value(r"C:\Tools\resip.exe");

    assert_eq!(value, r#""C:\Tools\resip.exe" on"#);
}

#[test]
fn linux_service_starts_resip_on_as_user_service() {
    let contents = linux_service_contents("/usr/local/bin/resip");

    assert!(contents.contains("Description=resip SSH tunnel"));
    assert!(contents.contains("Type=oneshot"));
    assert!(contents.contains("ExecStart=/usr/local/bin/resip on"));
    assert!(contents.contains("WantedBy=default.target"));
}

#[test]
fn xml_escape_writes_all_five_entities() {
    assert_eq!(
        xml_escape(r#"a&b<c>d"e'f"#),
        "a&amp;b&lt;c&gt;d&quot;e&apos;f"
    );
    assert_eq!(xml_escape("/Applications/resip"), "/Applications/resip");
}

#[test]
fn xml_escape_output_has_no_raw_markup() {
    let escaped = xml_escape(r#"<"'>&"#);
    assert!(!escaped.contains('<'));
    assert!(!escaped.contains('>'));
    assert!(!escaped.contains('"'));
    assert!(!escaped.contains('\''));
}

#[test]
fn macos_plist_escapes_the_executable() {
    let contents = macos_plist_contents("/Apps/R&D <x>/resip");
    assert!(contents.contains("<string>/Apps/R&amp;D &lt;x&gt;/resip</string>"));
    assert!(contents.starts_with("<?xml version=\"1.0\" encoding=\"UTF-8\"?>\n"));
    assert!(contents.ends_with("</plist>\n"));
}

#[test]
fn systemd_path_with_space_is_quoted() {
    assert_eq!(
        systemd_escape_path("/opt/my tools/resip"),
        "\"/opt/my tools/resip\""
    );
    assert_eq!(
        systemd_escape_path("/opt/a \"b\"/resip"),
        "\"/opt/a \\\"b\\\"/resip\""
    );
    assert_eq!(systemd_escape_path("/usr/bin/resip"), "/usr/bin/resip");
}

#[test]
fn linux_service_quotes_executable_with_space() {
    let contents = linux_service_contents("/opt/my tools/resip");
    assert!(contents.contains("ExecStart=\"/opt/my tools/resip\" on\n"));
    assert_eq!(
        linux_service_contents("/usr/local/bin/resip"),
        "[Unit]\nDescription=resip SSH tunnel\n\n[Service]\nType=oneshot\nExecStart=/usr/local/bin/resip on\n\n[Install]\nWantedBy=default.target\n"
    );
}

#[test]
fn autostart_files_go_below_home() {
    let sep = std::path::MAIN_SEPARATOR;
    assert_eq!(
        macos_plist_path_with_home("/Users/me"),
        format!("/Users/me{sep}Library{sep}LaunchAgents{sep}com.resip.tunnel.plist")
    );
    assert_eq!(
        linux_service_path_with_home("/home/me"),
        format!("/home/me{sep}.config{sep}systemd{sep}user{sep}resip.service")
    );
    assert_eq!(
        linux_service_path_with_home("/"),
        format!("/.config{sep}systemd{sep}user{sep}resip.service")
    );
}
