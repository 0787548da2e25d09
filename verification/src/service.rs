//! The user systemd unit that keeps the recorder running.
use vstd::prelude::*;

verus! {

/// The text of `v8q.service`.
pub open spec fn service_unit() -> Seq<char> {
    "[Unit]\nDescription=V8Q Replay Recorder\nAfter=graphical-session.target\n\n[Service]\nType=simple\nExecStart=%h/.cargo/bin/v8q start --foreground\nExecStop=%h/.cargo/bin/v8q stop\nRestart=on-failure\nRestartSec=3\n\n[Install]\nWantedBy=default.target\n"@
}

/// The text of `v8q.service`: the recorder in the foreground, restarted on failure.
pub fn service_file() -> (r: &'static str)
    ensures
        r@ == service_unit(),
{
    "[Unit]\nDescription=V8Q Replay Recorder\nAfter=graphical-session.target\n\n[Service]\nType=simple\nExecStart=%h/.cargo/bin/v8q start --foreground\nExecStop=%h/.cargo/bin/v8q stop\nRestart=on-failure\nRestartSec=3\n\n[Install]\nWantedBy=default.target\n"
}

/// `v8q.service` below the user configuration directory.
pub fn service_path_in(config_dir: &str) -> (r: String)
    ensures
        r@ == crate::paths::join(crate::paths::join(config_dir@, "systemd/user"@), "v8q.service"@),
{
    let dir = crate::paths::join_path(config_dir, "systemd/user");
    crate::paths::join_path(dir.as_str(), "v8q.service")
}

/// The path of the unit file, if a configuration directory is known.
pub fn service_path() -> (r: Option<String>)
    ensures
        r matches Some(p) ==> exists|d: Seq<char>| p@ == #[trigger] crate::paths::join(crate::paths::join(d, "systemd/user"@), "v8q.service"@),
{
    match crate::paths::config_dir() {
        Some(d) => Some(service_path_in(d.as_str())),
        None => None,
    }
}

} // verus!
