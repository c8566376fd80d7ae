//! Composition of the exact invocations the front end hands to the container
//! runtime.
//!
//! Every operation runs `docker` with an argument vector of the shape
//! `exec [-e PGPASSWORD=...] <container> bash -c <command>`: the password,
//! when present, travels as an environment override and never appears inside
//! the command text.  The inner commands drive the `psql` client: an
//! existence probe against the administrative `postgres` catalog, a
//! `CREATE DATABASE`, and the restore that feeds a dump file to the target
//! database.

use vstd::prelude::*;
use vstd::string::StringExecFns;

use crate::profile::Args;
use crate::profile::spec_backup_root;
use crate::profile::spec_dump_path;
use crate::text::append_u16;
use crate::text::spec_dec;

verus! {

/// The shared prefix of every `psql` invocation:
/// `psql --host "H" --port "P" --username "U" `.
pub open spec fn spec_psql_prefix(host: Seq<char>, port: u16, user: Seq<char>) -> Seq<char> {
    "psql --host \""@ + host + "\" --port \""@ + spec_dec(port as int) + "\" --username \""@
        + user + "\" "@
}

/// The probe command: one row comes back exactly when `db` is listed in the
/// administrative catalog.
pub open spec fn spec_probe_command(
    host: Seq<char>,
    port: u16,
    user: Seq<char>,
    db: Seq<char>,
) -> Seq<char> {
    spec_psql_prefix(host, port, user)
        + "--dbname postgres -c \"SELECT 1 FROM pg_database WHERE datname = '"@ + db + "';\""@
}

/// The creation command: `CREATE DATABASE "db";` against the administrative
/// catalog.
pub open spec fn spec_create_command(
    host: Seq<char>,
    port: u16,
    user: Seq<char>,
    db: Seq<char>,
) -> Seq<char> {
    spec_psql_prefix(host, port, user) + "--dbname postgres -c \"CREATE DATABASE \\\""@ + db
        + "\\\";\""@
}

/// The restore command: feed the dump file at `path` to database `db`.
pub open spec fn spec_restore_command(
    host: Seq<char>,
    port: u16,
    user: Seq<char>,
    db: Seq<char>,
    path: Seq<char>,
) -> Seq<char> {
    spec_psql_prefix(host, port, user) + "--dbname \""@ + db + "\" -f \""@ + path + "\""@
}

/// The argument vector for the container runtime: `exec`, the credential
/// override when a password is present, the container, and the inner command
/// under `bash -c`.
pub open spec fn spec_container_args(
    password: Option<Seq<char>>,
    container: Seq<char>,
    inner: Seq<char>,
) -> Seq<Seq<char>> {
    match password {
        Some(pw) => seq![
            "exec"@,
            "-e"@,
            "PGPASSWORD="@ + pw,
            container,
            "bash"@,
            "-c"@,
            inner,
        ],
        None => seq!["exec"@, container, "bash"@, "-c"@, inner],
    }
}

fn psql_prefix(host: &str, port: u16, user: &str) -> (r: String)
    ensures
        r@ == spec_psql_prefix(host@, port, user@),
{
    let mut c = String::from_str("psql --host \"");
    c.append(host);
    c.append("\" --port \"");
    append_u16(&mut c, port);
    c.append("\" --username \"");
    c.append(user);
    c.append("\" ");
    proof {
        assert(c@ =~= spec_psql_prefix(host@, port, user@));
    }
    c
}

/// Compose the probe command text.
pub fn probe_command(host: &str, port: u16, user: &str, db: &str) -> (r: String)
    ensures
        r@ == spec_probe_command(host@, port, user@, db@),
{
    let mut c = psql_prefix(host, port, user);
    c.append("--dbname postgres -c \"SELECT 1 FROM pg_database WHERE datname = '");
    c.append(db);
    c.append("';\"");
    proof {
        assert(c@ =~= spec_probe_command(host@, port, user@, db@));
    }
    c
}

/// Compose the creation command text.
pub fn create_command(host: &str, port: u16, user: &str, db: &str) -> (r: String)
    ensures
        r@ == spec_create_command(host@, port, user@, db@),
{
    let mut c = psql_prefix(host, port, user);
    c.append("--dbname postgres -c \"CREATE DATABASE \\\"");
    c.append(db);
    c.append("\\\";\"");
    proof {
        assert(c@ =~= spec_create_command(host@, port, user@, db@));
    }
    c
}

/// Compose the restore command text for the dump at `path`.
pub fn restore_command(host: &str, port: u16, user: &str, db: &str, path: &str) -> (r: String)
    ensures
        r@ == spec_restore_command(host@, port, user@, db@, path@),
{
    let mut c = psql_prefix(host, port, user);
    c.append("--dbname \"");
    c.append(db);
    c.append("\" -f \"");
    c.append(path);
    c.append("\"");
    proof {
        assert(c@ =~= spec_restore_command(host@, port, user@, db@, path@));
    }
    c
}

/// Assemble the container runtime's argument vector around an inner command.
pub fn container_args(password: &Option<String>, container: &str, inner: String) -> (r: Vec<
    String,
>)
    ensures
        r.deep_view() == spec_container_args(password.deep_view(), container@, inner@),
{
    let ghost gi = inner@;
    let mut v: Vec<String> = Vec::new();
    v.push(String::from_str("exec"));
    if let Some(pw) = password {
        v.push(String::from_str("-e"));
        let mut e = String::from_str("PGPASSWORD=");
        e.append(pw.as_str());
        v.push(e);
    }
    v.push(String::from_str(container));
    v.push(String::from_str("bash"));
    v.push(String::from_str("-c"));
    v.push(inner);
    proof {
        assert(v.deep_view() =~= spec_container_args(password.deep_view(), container@, gi));
    }
    v
}

/// The full probe invocation a capable profile composes for `db`.
pub open spec fn spec_probe_invocation(p: Args, db: Seq<char>) -> Seq<Seq<char>>
    recommends
        p.spec_restore_capable(),
{
    spec_container_args(
        p.password.deep_view(),
        p.container_id->0@,
        spec_probe_command(p.xhost->0@, p.port->0, p.username->0@, db),
    )
}

/// The full creation invocation a capable profile composes for `db`.
pub open spec fn spec_create_invocation(p: Args, db: Seq<char>) -> Seq<Seq<char>>
    recommends
        p.spec_restore_capable(),
{
    spec_container_args(
        p.password.deep_view(),
        p.container_id->0@,
        spec_create_command(p.xhost->0@, p.port->0, p.username->0@, db),
    )
}

/// The full restore invocation a capable profile composes for `db`; the dump
/// path comes from the profile's backup root.
pub open spec fn spec_restore_invocation(p: Args, db: Seq<char>) -> Seq<Seq<char>>
    recommends
        p.spec_restore_capable(),
{
    spec_container_args(
        p.password.deep_view(),
        p.container_id->0@,
        spec_restore_command(
            p.xhost->0@,
            p.port->0,
            p.username->0@,
            db,
            spec_dump_path(spec_backup_root(p), db),
        ),
    )
}

impl Args {
    /// The invocation that probes whether `db` exists.
    pub fn probe_invocation(&self, db: &str) -> (r: Vec<String>)
        requires
            self.spec_restore_capable(),
        ensures
            r.deep_view() == spec_probe_invocation(*self, db@),
    {
        match (&self.xhost, &self.port, &self.username, &self.container_id) {
            (Some(host), Some(port), Some(user), Some(container)) => {
                let inner = probe_command(host.as_str(), *port, user.as_str(), db);
                container_args(&self.password, container.as_str(), inner)
            },
            _ => {
                proof {
                    assert(false);
                }
                Vec::new()
            },
        }
    }

    /// The invocation that creates `db`.
    pub fn create_invocation(&self, db: &str) -> (r: Vec<String>)
        requires
            self.spec_restore_capable(),
        ensures
            r.deep_view() == spec_create_invocation(*self, db@),
    {
        match (&self.xhost, &self.port, &self.username, &self.container_id) {
            (Some(host), Some(port), Some(user), Some(container)) => {
                let inner = create_command(host.as_str(), *port, user.as_str(), db);
                container_args(&self.password, container.as_str(), inner)
            },
            _ => {
                proof {
                    assert(false);
                }
                Vec::new()
            },
        }
    }

    /// The invocation that restores `db` from its dump file.
    pub fn restore_invocation(&self, db: &str) -> (r: Vec<String>)
        requires
            self.spec_restore_capable(),
        ensures
            r.deep_view() == spec_restore_invocation(*self, db@),
    {
        match (&self.xhost, &self.port, &self.username, &self.container_id) {
            (Some(host), Some(port), Some(user), Some(container)) => {
                let path = self.generate_file_path(db);
                let inner = restore_command(
                    host.as_str(),
                    *port,
                    user.as_str(),
                    db,
                    path.as_str(),
                );
                container_args(&self.password, container.as_str(), inner)
            },
            _ => {
                proof {
                    assert(false);
                }
                Vec::new()
            },
        }
    }
}

} // verus!
