//! The text that `resip status` and `resip test` print.
use crate::config::{Config, ConfigView};
use crate::state::{State, StateView};
use crate::support::text::{decimal, push_char, push_decimal, views};
use crate::tunnel::{tunnel_details, tunnel_details_spec};
use vstd::prelude::*;

verus! {

/// The lines of `resip status`: where the files are, whether a tunnel is
/// recorded (and, if so, whether its PID is alive), and what is configured.
pub open spec fn status_spec(
    config_path: Seq<char>,
    state_path: Seq<char>,
    config: Option<ConfigView>,
    state: Option<StateView>,
    pid_running: bool,
) -> Seq<Seq<char>> {
    let head = seq!["Config: "@ + config_path, "State: "@ + state_path];
    let configured = match config {
        Some(c) => tunnel_details_spec(c, None).push("Clash config: "@ + c.clash_output_path),
        None => Seq::empty(),
    };
    match state {
        Some(st) => {
            let tunnel = seq![
                "Tunnel: "@ + (if pid_running {
                    "running"@
                } else {
                    "stale"@
                }),
                "PID: "@ + decimal(st.pid as nat),
                "Started at: "@ + st.started_at,
            ];
            let rest = match config {
                Some(_) => configured,
                None => seq![
                    "Local: "@ + st.local_tunnel_host.push(':') + decimal(st.local_tunnel_port as nat)
                        + " on this machine"@,
                    "SSH: "@ + st.server,
                    "Clash config: not configured"@,
                ],
            };
            head + tunnel + rest
        },
        None => {
            let rest = match config {
                Some(_) => configured,
                None => seq!["SSH: not configured"@, "Clash config: not configured"@],
            };
            head + seq!["Tunnel: stopped"@] + rest
        },
    }
}

/// The fields of the IP information that `resip test` shows, in order.
pub open spec fn ip_info_keys() -> Seq<Seq<char>> {
    seq!["ip"@, "city"@, "region"@, "country"@, "org"@]
}

/// One line of `resip test`: `key: value`, or `key: -` without a value.
pub open spec fn ip_info_line(key: Seq<char>, value: Option<Seq<char>>) -> Seq<char> {
    key + ": "@ + match value {
        Some(v) => v,
        None => "-"@,
    }
}

/// The view of an optional string.
pub open spec fn opt_string_view(s: Option<String>) -> Option<Seq<char>> {
    match s {
        Some(v) => Some(v@),
        None => None,
    }
}

fn labelled(label: &str, value: &str) -> (r: String)
    ensures
        r@ == label@ + value@,
{
    let mut r = String::from_str(label);
    r.append(value);
    r
}

/// The lines that `resip status` prints.
pub fn status_lines(
    config_path: &str,
    state_path: &str,
    config: Option<&Config>,
    state: Option<&State>,
    pid_running: bool,
) -> (r: Vec<String>)
    ensures
        views(r@) == status_spec(
            config_path@,
            state_path@,
            match config {
                Some(c) => Some(c@),
                None => None,
            },
            match state {
                Some(s) => Some(s@),
                None => None,
            },
            pid_running,
        ),
{
    let ghost cv: Option<ConfigView> = match config {
        Some(c) => Some(c@),
        None => None,
    };
    let ghost sv: Option<StateView> = match state {
        Some(s) => Some(s@),
        None => None,
    };
    let mut r: Vec<String> = Vec::new();
    r.push(labelled("Config: ", config_path));
    r.push(labelled("State: ", state_path));
    let ghost head = seq!["Config: "@ + config_path@, "State: "@ + state_path@];
    assert(views(r@) =~= head);
    let ghost mut tunnel: Seq<Seq<char>> = Seq::empty();
    match state {
        Some(st) => {
            let word = if pid_running {
                "running"
            } else {
                "stale"
            };
            r.push(labelled("Tunnel: ", word));
            let mut pid = String::from_str("PID: ");
            push_decimal(&mut pid, st.pid);
            r.push(pid);
            r.push(labelled("Started at: ", st.started_at.as_str()));
            proof {
                tunnel = seq![
                    "Tunnel: "@ + (if pid_running {
                        "running"@
                    } else {
                        "stale"@
                    }),
                    "PID: "@ + decimal(st.pid as nat),
                    "Started at: "@ + st.started_at@,
                ];
            }
        },
        None => {
            r.push(String::from_str("Tunnel: stopped"));
            proof {
                tunnel = seq!["Tunnel: stopped"@];
            }
        },
    }
    assert(views(r@) =~= head + tunnel);
    let ghost before = views(r@);
    match config {
        Some(c) => {
            let details = tunnel_details(c, None);
            let mut i: usize = 0;
            while i < details.len()
                invariant
                    i <= details@.len(),
                    views(r@) == before + views(details@).take(i as int),
                decreases details.len() - i,
            {
                let ghost prev = r@;
                let line = details[i].clone();
                assert(line@ == details@[i as int]@);
                r.push(line);
                assert(r@ == prev.push(line));
                assert(views(r@) =~= views(prev).push(line@));
                assert(views(details@).take(i + 1) =~= views(details@).take(i as int).push(
                    details@[i as int]@,
                ));
                assert(views(r@) =~= before + views(details@).take(i + 1));
                i = i + 1;
            }
            assert(views(details@).take(details@.len() as int) =~= views(details@));
            let ghost mid = r@;
            assert(views(mid) == before + tunnel_details_spec(c@, None));
            let last = labelled("Clash config: ", c.clash_output_path.as_str());
            r.push(last);
            assert(views(r@) =~= views(mid).push(last@));
            assert(views(r@) =~= before + tunnel_details_spec(c@, None).push(
                "Clash config: "@ + c.clash_output_path@,
            ));
        },
        None => match state {
            Some(st) => {
                let mut local = String::from_str("Local: ");
                local.append(st.local_tunnel_host.as_str());
                push_char(&mut local, ':');
                push_decimal(&mut local, st.local_tunnel_port as u32);
                local.append(" on this machine");
                r.push(local);
                r.push(labelled("SSH: ", st.server.as_str()));
                r.push(String::from_str("Clash config: not configured"));
                assert(views(r@) =~= before + seq![
                    "Local: "@ + st.local_tunnel_host@.push(':') + decimal(
                        st.local_tunnel_port as nat,
                    ) + " on this machine"@,
                    "SSH: "@ + st.server@,
                    "Clash config: not configured"@,
                ]);
            },
            None => {
                r.push(String::from_str("SSH: not configured"));
                r.push(String::from_str("Clash config: not configured"));
                assert(views(r@) =~= before + seq![
                    "SSH: not configured"@,
                    "Clash config: not configured"@,
                ]);
            },
        },
    }
    assert(views(r@) =~= status_spec(config_path@, state_path@, cv, sv, pid_running));
    r
}

/// The lines that `resip test` prints for the fields `ip`, `city`,
/// `region`, `country` and `org` of the IP information, in that order.
pub fn ip_info_lines(values: Vec<Option<String>>) -> (r: Vec<String>)
    requires
        values@.len() == 5,
    ensures
        r@.len() == 5,
        forall|i: int|
            0 <= i < 5 ==> #[trigger] r@[i]@ == ip_info_line(
                ip_info_keys()[i],
                opt_string_view(values@[i]),
            ),
{
    let mut r: Vec<String> = Vec::new();
    let mut i: usize = 0;
    while i < 5
        invariant
            i <= 5,
            values@.len() == 5,
            r@.len() == i,
            forall|j: int|
                0 <= j < i ==> #[trigger] r@[j]@ == ip_info_line(
                    ip_info_keys()[j],
                    opt_string_view(values@[j]),
                ),
        decreases 5 - i,
    {
        let key = if i == 0 {
            "ip"
        } else if i == 1 {
            "city"
        } else if i == 2 {
            "region"
        } else if i == 3 {
            "country"
        } else {
            "org"
        };
        assert(key@ == ip_info_keys()[i as int]);
        let mut line = String::from_str(key);
        line.append(": ");
        match &values[i] {
            Some(v) => line.append(v.as_str()),
            None => line.append("-"),
        }
        r.push(line);
        i = i + 1;
    }
    r
}

} // verus!
