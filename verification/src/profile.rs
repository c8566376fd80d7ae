//! Connection profiles and the composition of the external client's
//! invocations.
//!
//! A profile records how to reach the database engine inside a container:
//! host, port, user, an optional password, the container identifier, and the
//! root of the backup tree inside that container.  Every field is optional;
//! a profile is restore-capable only when host, port, user and container are
//! all present.  The password may stay absent: it is forwarded to the client
//! through an environment override only when set, and missing credentials are
//! recovered at run time by the orchestrator.
//!
//! The functions here are pure: they compose the exact command line the
//! container client must run.  Nothing in this module touches the system.

use vstd::prelude::*;
use vstd::string::StringExecFns;

verus! {

/// The fallback backup root inside the container, used when the profile does
/// not set one.
pub open spec fn spec_default_backup_root() -> Seq<char> {
    "/tmp/backups"@
}

/// A connection profile.  The unit of persisted state: the front end loads
/// and saves it as a JSON document and overlays freshly supplied values.
#[derive(Debug, Clone)]
pub struct Args {
    /// Database host, as the client inside the container reaches it.
    pub xhost: Option<String>,
    /// Database port.
    pub port: Option<u16>,
    /// Database user.
    pub username: Option<String>,
    /// Password; forwarded only through an environment override, never on the
    /// command line.
    pub password: Option<String>,
    /// Identifier of the container the client runs in.
    pub container_id: Option<String>,
    /// Root of the backup tree inside the container.
    pub dir_backup: Option<String>,
}

/// The dump file for database `db` lives at `{root}/{db}/dump.sql` inside
/// the container.
pub open spec fn spec_dump_path(root: Seq<char>, db: Seq<char>) -> Seq<char> {
    root + "/"@ + db + "/dump.sql"@
}

/// The backup root a profile resolves to: its own, or the fallback.
pub open spec fn spec_backup_root(p: Args) -> Seq<char> {
    match p.dir_backup {
        Some(root) => root@,
        None => spec_default_backup_root(),
    }
}

fn clone_opt_string(o: &Option<String>) -> (r: Option<String>)
    ensures
        r == *o,
{
    match o {
        Some(s) => Some(s.clone()),
        None => None,
    }
}

impl Args {
    /// Build a profile from fully supplied connection data.
    pub fn new(
        xhost: String,
        port: u16,
        username: String,
        password: Option<String>,
        container_id: String,
        dir_backup: Option<String>,
    ) -> (r: Self)
        ensures
            r.xhost == Some(xhost),
            r.port == Some(port),
            r.username == Some(username),
            r.password == password,
            r.container_id == Some(container_id),
            r.dir_backup == dir_backup,
    {
        Args {
            xhost: Some(xhost),
            port: Some(port),
            username: Some(username),
            password,
            container_id: Some(container_id),
            dir_backup,
        }
    }

    /// A profile can drive a restore only when host, port, user and container
    /// are all present.
    pub open spec fn spec_restore_capable(self) -> bool {
        &&& self.xhost is Some
        &&& self.port is Some
        &&& self.username is Some
        &&& self.container_id is Some
    }

    /// Gate for every destructive or networked operation: see
    /// [`Self::spec_restore_capable`].
    pub fn is_restore_capable(&self) -> (r: bool)
        ensures
            r == self.spec_restore_capable(),
    {
        self.xhost.is_some() && self.port.is_some() && self.username.is_some()
            && self.container_id.is_some()
    }

    /// Overlay `overrides` on `self`: every field present in `overrides`
    /// wins, every absent one keeps `self`'s value.  Pure; neither input is
    /// touched.
    pub fn merge_overrides(&self, overrides: &Args) -> (r: Args)
        ensures
            r.xhost == (if overrides.xhost is Some { overrides.xhost } else { self.xhost }),
            r.port == (if overrides.port is Some { overrides.port } else { self.port }),
            r.username == (if overrides.username is Some { overrides.username } else { self.username }),
            r.password == (if overrides.password is Some { overrides.password } else { self.password }),
            r.container_id == (if overrides.container_id is Some { overrides.container_id } else { self.container_id }),
            r.dir_backup == (if overrides.dir_backup is Some { overrides.dir_backup } else { self.dir_backup }),
    {
        Args {
            xhost: if overrides.xhost.is_some() {
                clone_opt_string(&overrides.xhost)
            } else {
                clone_opt_string(&self.xhost)
            },
            port: if overrides.port.is_some() {
                overrides.port
            } else {
                self.port
            },
            username: if overrides.username.is_some() {
                clone_opt_string(&overrides.username)
            } else {
                clone_opt_string(&self.username)
            },
            password: if overrides.password.is_some() {
                clone_opt_string(&overrides.password)
            } else {
                clone_opt_string(&self.password)
            },
            container_id: if overrides.container_id.is_some() {
                clone_opt_string(&overrides.container_id)
            } else {
                clone_opt_string(&self.container_id)
            },
            dir_backup: if overrides.dir_backup.is_some() {
                clone_opt_string(&overrides.dir_backup)
            } else {
                clone_opt_string(&self.dir_backup)
            },
        }
    }

    /// The path of the dump file for `namedb`, inside the container: the
    /// profile's backup root (or the fallback) joined with
    /// `{namedb}/dump.sql`.  Pure string composition; no filesystem access.
    pub fn generate_file_path(&self, namedb: &str) -> (r: String)
        ensures
            r@ == spec_dump_path(spec_backup_root(*self), namedb@),
    {
        let mut p: String = match &self.dir_backup {
            Some(root) => root.clone(),
            None => String::from_str("/tmp/backups"),
        };
        p.append("/");
        p.append(namedb);
        p.append("/dump.sql");
        proof {
            assert(p@ =~= spec_dump_path(spec_backup_root(*self), namedb@));
        }
        p
    }
}

} // verus!
