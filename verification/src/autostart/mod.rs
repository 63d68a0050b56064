//! Starting the tunnel when the current user logs in: the files and values
//! that register `resip on` with the platform.
use crate::error::ResipError;
use crate::support::dirs::{ends_with, is_plain_name, joins, path_join};
use crate::support::path::home_dir;
use crate::support::text::{chars_of, contains, push_char, seq_contains};
use vstd::prelude::*;

verus! {

/// Whether autostart is registered, and where.
#[derive(Debug, Clone)]
pub struct AutostartInfo {
    pub enabled: bool,
    pub target: String,
}

/// The launchd label of the login item.
pub const LABEL: &'static str = "com.resip.tunnel";

/// The file name of the systemd user service.
pub const LINUX_SERVICE_NAME: &'static str = "resip.service";

/// The file name of the launchd property list.
pub const MACOS_PLIST_NAME: &'static str = "com.resip.tunnel.plist";

/// The property list up to the executable's path.
pub const PLIST_HEAD: &'static str = "<?xml version=\"1.0\" encoding=\"UTF-8\"?>\n<!DOCTYPE plist PUBLIC \"-//Apple//DTD PLIST 1.0//EN\" \"http://www.apple.com/DTDs/PropertyList-1.0.dtd\">\n<plist version=\"1.0\">\n<dict>\n  <key>Label</key>\n  <string>com.resip.tunnel</string>\n  <key>ProgramArguments</key>\n  <array>\n    <string>";

/// The property list after the executable's path.
pub const PLIST_TAIL: &'static str = "</string>\n    <string>on</string>\n  </array>\n  <key>RunAtLoad</key>\n  <true/>\n</dict>\n</plist>\n";

/// The systemd unit up to the executable's path.
pub const SERVICE_HEAD: &'static str = "[Unit]\nDescription=resip SSH tunnel\n\n[Service]\nType=oneshot\nExecStart=";

/// The systemd unit after the executable's path.
pub const SERVICE_TAIL: &'static str = " on\n\n[Install]\nWantedBy=default.target\n";

/// The XML form of one character.
pub open spec fn xml_char(c: char) -> Seq<char> {
    if c == '&' {
        "&amp;"@
    } else if c == '<' {
        "&lt;"@
    } else if c == '>' {
        "&gt;"@
    } else if c == '"' {
        "&quot;"@
    } else if c == '\'' {
        "&apos;"@
    } else {
        seq![c]
    }
}

/// `s` with the five XML special characters written as entities.
pub open spec fn xml_escape_spec(s: Seq<char>) -> Seq<char>
    decreases s.len(),
{
    if s.len() == 0 {
        Seq::empty()
    } else {
        xml_escape_spec(s.drop_last()) + xml_char(s.last())
    }
}

/// `s` with every `"` preceded by a backslash.
pub open spec fn quote_escape_spec(s: Seq<char>) -> Seq<char>
    decreases s.len(),
{
    if s.len() == 0 {
        Seq::empty()
    } else {
        quote_escape_spec(s.drop_last()) + (if s.last() == '"' {
            seq!['\\', '"']
        } else {
            seq![s.last()]
        })
    }
}

/// How systemd is given a path: quoted, with inner quotes escaped, when it
/// contains a space; as it is otherwise.
pub open spec fn systemd_path_spec(path: Seq<char>) -> Seq<char> {
    if seq_contains(path, seq![' ']) {
        seq!['"'] + quote_escape_spec(path) + seq!['"']
    } else {
        path
    }
}

/// The launchd property list that runs `executable on` at login.
pub open spec fn plist_spec(executable: Seq<char>) -> Seq<char> {
    PLIST_HEAD@ + xml_escape_spec(executable) + PLIST_TAIL@
}

/// The systemd user service that runs `executable on` at login.
pub open spec fn service_spec(executable: Seq<char>) -> Seq<char> {
    SERVICE_HEAD@ + systemd_path_spec(executable) + SERVICE_TAIL@
}

/// The Windows `Run` value that runs `executable on` at login.
pub open spec fn run_value_spec(executable: Seq<char>) -> Seq<char> {
    seq!['"'] + executable + seq!['"', ' ', 'o', 'n']
}

/// Writes the five XML special characters of `value` as entities.
pub fn xml_escape(value: &str) -> (r: String)
    ensures
        r@ == xml_escape_spec(value@),
{
    let v = chars_of(value);
    let mut r = String::new();
    let mut i: usize = 0;
    while i < v.len()
        invariant
            v@ == value@,
            i <= v@.len(),
            r@ == xml_escape_spec(value@.subrange(0, i as int)),
        decreases v.len() - i,
    {
        let c = v[i];
        if c == '&' {
            r.append("&amp;");
        } else if c == '<' {
            r.append("&lt;");
        } else if c == '>' {
            r.append("&gt;");
        } else if c == '"' {
            r.append("&quot;");
        } else if c == '\'' {
            r.append("&apos;");
        } else {
            push_char(&mut r, c);
        }
        let ghost prefix = value@.subrange(0, i + 1);
        assert(prefix.drop_last() =~= value@.subrange(0, i as int));
        assert(r@ =~= xml_escape_spec(prefix));
        i = i + 1;
    }
    assert(value@.subrange(0, v@.len() as int) =~= value@);
    r
}

/// Quotes a path for a systemd unit when it contains a space.
pub fn systemd_escape_path(path: &str) -> (r: String)
    ensures
        r@ == systemd_path_spec(path@),
{
    if !contains(path, " ") {
        proof {
            reveal_strlit(" ");
        }
        assert(" "@ =~= seq![' ']);
        return String::from_str(path);
    }
    proof {
        reveal_strlit(" ");
    }
    assert(" "@ =~= seq![' ']);
    let v = chars_of(path);
    let mut r = String::new();
    push_char(&mut r, '"');
    let mut i: usize = 0;
    while i < v.len()
        invariant
            v@ == path@,
            i <= v@.len(),
            r@ == seq!['"'] + quote_escape_spec(path@.subrange(0, i as int)),
        decreases v.len() - i,
    {
        if v[i] == '"' {
            push_char(&mut r, '\\');
        }
        push_char(&mut r, v[i]);
        let ghost prefix = path@.subrange(0, i + 1);
        assert(prefix.drop_last() =~= path@.subrange(0, i as int));
        assert(r@ =~= seq!['"'] + quote_escape_spec(prefix));
        i = i + 1;
    }
    assert(path@.subrange(0, v@.len() as int) =~= path@);
    push_char(&mut r, '"');
    r
}

/// The launchd property list that starts `executable on` at login.
pub fn macos_plist_contents(executable: &str) -> (r: String)
    ensures
        r@ == plist_spec(executable@),
{
    let mut r = String::from_str(PLIST_HEAD);
    let escaped = xml_escape(executable);
    r.append(escaped.as_str());
    r.append(PLIST_TAIL);
    r
}

/// The systemd user service that starts `executable on` at login.
pub fn linux_service_contents(executable: &str) -> (r: String)
    ensures
        r@ == service_spec(executable@),
{
    let mut r = String::from_str(SERVICE_HEAD);
    let path = systemd_escape_path(executable);
    r.append(path.as_str());
    r.append(SERVICE_TAIL);
    r
}

/// The value under the current user's `Run` key: the quoted executable
/// followed by `on`.
pub fn windows_run_value(executable: &str) -> (r: String)
    ensures
        r@ == run_value_spec(executable@),
{
    let mut r = String::new();
    push_char(&mut r, '"');
    r.append(executable);
    push_char(&mut r, '"');
    push_char(&mut r, ' ');
    push_char(&mut r, 'o');
    push_char(&mut r, 'n');
    assert(r@ =~= run_value_spec(executable@));
    r
}

/// `r` is where the launchd property list goes below `home`:
/// `home`, then `Library`, `LaunchAgents` and `com.resip.tunnel.plist`.
pub open spec fn plist_location(home: Seq<char>, r: Seq<char>) -> bool {
    exists|library: Seq<char>, agents: Seq<char>|
        joins(home, "Library"@, library) && #[trigger] joins(library, "LaunchAgents"@, agents)
            && joins(agents, MACOS_PLIST_NAME@, r)
}

/// `r` is where the systemd user service goes below `home`: `home`, then
/// `.config`, `systemd`, `user` and `resip.service`.
pub open spec fn service_location(home: Seq<char>, r: Seq<char>) -> bool {
    exists|config: Seq<char>, systemd: Seq<char>, user: Seq<char>|
        #![trigger joins(config, "systemd"@, systemd), joins(systemd, "user"@, user)]
        joins(home, ".config"@, config) && joins(config, "systemd"@, systemd) && joins(
            systemd,
            "user"@,
            user,
        ) && joins(user, LINUX_SERVICE_NAME@, r)
}

/// `r` is where the property list goes for some home directory, which is
/// not empty.
pub open spec fn plist_below_some_home(r: Seq<char>) -> bool {
    exists|home: Seq<char>| home.len() > 0 && #[trigger] plist_location(home, r)
}

/// `r` is where the service goes for some home directory, which is not
/// empty.
pub open spec fn service_below_some_home(r: Seq<char>) -> bool {
    exists|home: Seq<char>| home.len() > 0 && #[trigger] service_location(home, r)
}

/// Where the launchd property list goes for the home directory `home`.
pub fn macos_plist_path_with_home(home: &str) -> (r: String)
    ensures
        plist_location(home@, r@),
        ends_with(r@, MACOS_PLIST_NAME@),
{
    let library = path_join(home, "Library");
    let agents = path_join(library.as_str(), "LaunchAgents");
    proof {
        reveal_strlit("com.resip.tunnel.plist");
    }
    assert forall|i: int| 0 <= i < "com.resip.tunnel.plist"@.len() implies #[trigger] "com.resip.tunnel.plist"@[i]
        != '/' && "com.resip.tunnel.plist"@[i] != '\\' by {}
    assert("com.resip.tunnel.plist"@.len() == 22);
    assert("com.resip.tunnel.plist"@ != seq!['.']) by {
        assert(seq!['.'].len() == 1);
    }
    assert("com.resip.tunnel.plist"@ != seq!['.', '.']) by {
        assert(seq!['.', '.'].len() == 2);
    }
    assert(is_plain_name(MACOS_PLIST_NAME@));
    let r = path_join(agents.as_str(), MACOS_PLIST_NAME);
    assert(joins(home@, "Library"@, library@) && joins(library@, "LaunchAgents"@, agents@) && joins(
        agents@,
        MACOS_PLIST_NAME@,
        r@,
    ));
    r
}

/// Where the launchd property list goes:
/// `~/Library/LaunchAgents/com.resip.tunnel.plist`.
pub fn macos_plist_path() -> (r: Result<String, ResipError>)
    ensures
        r is Err ==> r->Err_0 == ResipError::HomeDirUnavailable,
        r is Ok ==> ends_with(r->Ok_0@, MACOS_PLIST_NAME@),
        r is Ok ==> plist_below_some_home(r->Ok_0@),
{
    let home = match home_dir() {
        Ok(home) => home,
        Err(error) => return Err(error),
    };
    let path = macos_plist_path_with_home(home.as_str());
    assert(home@.len() > 0 && plist_location(home@, path@));
    Ok(path)
}

/// Where the systemd user service goes for the home directory `home`.
pub fn linux_service_path_with_home(home: &str) -> (r: String)
    ensures
        service_location(home@, r@),
        ends_with(r@, LINUX_SERVICE_NAME@),
{
    let config = path_join(home, ".config");
    let systemd = path_join(config.as_str(), "systemd");
    let user = path_join(systemd.as_str(), "user");
    proof {
        reveal_strlit("resip.service");
    }
    assert forall|i: int| 0 <= i < "resip.service"@.len() implies #[trigger] "resip.service"@[i]
        != '/' && "resip.service"@[i] != '\\' by {}
    assert("resip.service"@.len() == 13);
    assert("resip.service"@ != seq!['.']) by {
        assert(seq!['.'].len() == 1);
    }
    assert("resip.service"@ != seq!['.', '.']) by {
        assert(seq!['.', '.'].len() == 2);
    }
    assert(is_plain_name(LINUX_SERVICE_NAME@));
    let r = path_join(user.as_str(), LINUX_SERVICE_NAME);
    assert(joins(home@, ".config"@, config@) && joins(config@, "systemd"@, systemd@) && joins(
        systemd@,
        "user"@,
        user@,
    ) && joins(user@, LINUX_SERVICE_NAME@, r@));
    r
}

/// Where the systemd user service goes:
/// `~/.config/systemd/user/resip.service`.
pub fn linux_service_path() -> (r: Result<String, ResipError>)
    ensures
        r is Err ==> r->Err_0 == ResipError::HomeDirUnavailable,
        r is Ok ==> ends_with(r->Ok_0@, LINUX_SERVICE_NAME@),
        r is Ok ==> service_below_some_home(r->Ok_0@),
{
    let home = match home_dir() {
        Ok(home) => home,
        Err(error) => return Err(error),
    };
    let path = linux_service_path_with_home(home.as_str());
    assert(home@.len() > 0 && service_location(home@, path@));
    Ok(path)
}

/// A character that may stand unescaped in XML character data and
/// attribute values.
pub open spec fn xml_safe(c: char) -> bool {
    c != '<' && c != '>' && c != '"' && c != '\''
}

/// Law: escaped text holds none of `<`, `>`, `"` and `'`, so any executable
/// path can stand inside the property list's `<string>` element.
pub proof fn lemma_xml_escape_is_safe(s: Seq<char>)
    ensures
        forall|i: int|
            0 <= i < xml_escape_spec(s).len() ==> xml_safe(#[trigger] xml_escape_spec(s)[i]),
    decreases s.len(),
{
    reveal_strlit("&amp;");
    reveal_strlit("&lt;");
    reveal_strlit("&gt;");
    reveal_strlit("&quot;");
    reveal_strlit("&apos;");
    if s.len() > 0 {
        lemma_xml_escape_is_safe(s.drop_last());
        let front = xml_escape_spec(s.drop_last());
        let tail = xml_char(s.last());
        assert(xml_escape_spec(s) == front + tail);
        assert forall|i: int| 0 <= i < tail.len() implies xml_safe(#[trigger] tail[i]) by {}
        assert forall|i: int|
            0 <= i < xml_escape_spec(s).len() implies xml_safe(#[trigger] xml_escape_spec(s)[i]) by {
            if i < front.len() {
                assert(xml_escape_spec(s)[i] == front[i]);
            } else {
                assert(xml_escape_spec(s)[i] == tail[i - front.len()]);
            }
        }
    }
}

} // verus!
