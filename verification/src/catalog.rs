//! The backup catalog: which directories under the backup root hold a
//! restorable dump.
//!
//! The listing itself runs inside the container (a `find ... | sort` under
//! `bash -c`), so this module composes the invocations, parses the captured
//! listing into directory names, and interprets the per-directory dump
//! check.  It shares the command-runner capability with the orchestrator but
//! has no retry logic: a failing listing surfaces its diagnostic text, an
//! empty listing is an informational outcome, not an error.

use vstd::prelude::*;
use vstd::string::StrSliceExecFns;
use vstd::string::StringExecFns;

use crate::command::container_args;
use crate::command::spec_container_args;
use crate::profile::Args;
use crate::text::is_space;
use crate::text::trimmed_is;
use crate::text::trimmed_matches;

verus! {

/// How a catalog request can fail.
#[derive(Debug)]
pub enum CatalogError {
    /// The profile names no container to look into.
    MissingContainerId,
    /// The profile names no backup root to list.
    MissingBackupRoot,
    /// The listing command failed; its diagnostic text is carried verbatim.
    ExecutionFailure { stderr: String },
}

/// One candidate backup directory: its name and whether it holds a dump
/// file.  Produced transiently; never persisted.
#[derive(Debug)]
pub struct BackupEntry {
    /// The directory name, relative to the backup root.
    pub name: String,
    /// Whether `{root}/{name}/dump.sql` exists inside the container.
    pub has_dump: bool,
}

/// The command that lists the immediate subdirectories of the backup root,
/// excluding the root itself, sorted lexicographically.
pub open spec fn spec_list_command(root: Seq<char>) -> Seq<char> {
    "find "@ + root + " -maxdepth 1 -type d -not -path "@ + root + " | sort"@
}

/// The command that reports `true` or `false` for the presence of the dump
/// file of directory `name`.
pub open spec fn spec_dump_check_command(root: Seq<char>, name: Seq<char>) -> Seq<char> {
    "[ -f "@ + root + "/"@ + name + "/dump.sql ] && echo 'true' || echo 'false'"@
}

/// Drop one trailing carriage return, as the line splitter does.
pub open spec fn strip_cr(p: Seq<char>) -> Seq<char> {
    if p.len() > 0 && p[p.len() - 1] == '\r' {
        p.drop_last()
    } else {
        p
    }
}

/// The suffix of `p` after its last slash; `p` itself when it has none.
pub open spec fn after_last_slash(p: Seq<char>) -> Seq<char>
    decreases p.len(),
{
    if p.len() == 0 {
        p
    } else if p[p.len() - 1] == '/' {
        Seq::empty()
    } else {
        after_last_slash(p.drop_last()).push(p[p.len() - 1])
    }
}

/// The names in a captured listing: the input is split at newlines as the
/// platform's line reader does (one trailing carriage return stripped per
/// line, no empty final line), and each line is reduced to its part after
/// the last slash.  `cur` accumulates the line under construction.
pub open spec fn names_go(s: Seq<char>, cur: Seq<char>) -> Seq<Seq<char>>
    decreases s.len(),
{
    if s.len() == 0 {
        if cur.len() == 0 {
            Seq::empty()
        } else {
            seq![after_last_slash(cur)]
        }
    } else if s[0] == '\n' {
        seq![after_last_slash(strip_cr(cur))] + names_go(s.drop_first(), Seq::empty())
    } else {
        names_go(s.drop_first(), cur.push(s[0]))
    }
}

/// The directory names a captured listing denotes.
pub open spec fn spec_backup_names(s: Seq<char>) -> Seq<Seq<char>> {
    names_go(s, Seq::empty())
}

/// Characterize [`after_last_slash`] by the position `m` of the character
/// after the last slash: everything from `m` on is slash-free, and `m` is
/// either the start or preceded by a slash.
proof fn lemma_after_last_slash(p: Seq<char>, m: int)
    requires
        0 <= m <= p.len(),
        forall|k: int| m <= k < p.len() ==> p[k] != '/',
        m == 0 || p[m - 1] == '/',
    ensures
        after_last_slash(p) == p.subrange(m, p.len() as int),
    decreases p.len(),
{
    if p.len() == 0 {
        assert(after_last_slash(p) =~= p.subrange(0, 0));
    } else if m == p.len() {
        assert(p[p.len() - 1] == '/');
        assert(after_last_slash(p) =~= p.subrange(m, p.len() as int));
    } else {
        assert(p[p.len() - 1] != '/');
        let q = p.drop_last();
        assert(forall|k: int| m <= k < q.len() ==> q[k] == p[k]);
        lemma_after_last_slash(q, m);
        assert(after_last_slash(p) == q.subrange(m, q.len() as int).push(p[p.len() - 1]));
        assert(q.subrange(m, q.len() as int).push(p[p.len() - 1]) =~= p.subrange(
            m,
            p.len() as int,
        ));
    }
}

/// Extract the part after the last slash of `s@[a..b)` as a fresh string.
fn last_component(s: &str, a: usize, b: usize) -> (r: String)
    requires
        a <= b <= s@.len(),
    ensures
        r@ == after_last_slash(s@.subrange(a as int, b as int)),
{
    let ghost p = s@.subrange(a as int, b as int);
    let mut j: usize = b;
    loop
        invariant
            a <= j <= b <= s@.len(),
            forall|k: int| j <= k < b ==> s@[k] != '/',
        ensures
            a <= j <= b,
            forall|k: int| j <= k < b ==> s@[k] != '/',
            j == a || s@[j - 1] == '/',
        decreases j,
    {
        if j == a {
            break;
        }
        if s.get_char(j - 1) == '/' {
            break;
        }
        j -= 1;
    }
    let piece = s.substring_char(j, b);
    proof {
        assert(forall|k: int| j - a <= k < p.len() ==> p[k] == s@[a + k]);
        lemma_after_last_slash(p, j - a);
        assert(piece@ =~= p.subrange(j - a, p.len() as int));
    }
    String::from_str(piece)
}

/// Parse a captured listing into the directory names it reports, one per
/// line, each reduced to its part after the last slash.
pub fn parse_backup_names(s: &str) -> (r: Vec<String>)
    ensures
        r.deep_view() == spec_backup_names(s@),
{
    let len = s.unicode_len();
    let mut names: Vec<String> = Vec::new();
    let mut piece_start: usize = 0;
    let mut i: usize = 0;
    proof {
        assert(s@.subrange(0, len as int) =~= s@);
        assert(s@.subrange(0, 0) =~= Seq::<char>::empty());
        assert(names.deep_view() =~= Seq::<Seq<char>>::empty());
        assert(Seq::<Seq<char>>::empty() + spec_backup_names(s@) =~= spec_backup_names(s@));
    }
    while i < len
        invariant
            s@.len() == len,
            piece_start <= i <= len,
            forall|k: int| piece_start <= k < i ==> s@[k] != '\n',
            names.deep_view() + names_go(
                s@.subrange(i as int, len as int),
                s@.subrange(piece_start as int, i as int),
            ) == spec_backup_names(s@),
        decreases len - i,
    {
        let ghost rest = s@.subrange(i as int, len as int);
        let ghost cur = s@.subrange(piece_start as int, i as int);
        let ghost old_dv = names.deep_view();
        if s.get_char(i) == '\n' {
            let end = if i > piece_start && s.get_char(i - 1) == '\r' {
                i - 1
            } else {
                i
            };
            let name = last_component(s, piece_start, end);
            names.push(name);
            proof {
                assert(strip_cr(cur) =~= s@.subrange(piece_start as int, end as int));
                assert(rest[0] == '\n');
                assert(rest.drop_first() =~= s@.subrange(i + 1, len as int));
                assert(names_go(rest, cur) == seq![after_last_slash(strip_cr(cur))] + names_go(
                    rest.drop_first(),
                    Seq::empty(),
                ));
                assert(names.deep_view() =~= old_dv.push(name@));
                assert(s@.subrange(i + 1, i + 1) =~= Seq::<char>::empty());
                assert(names.deep_view() + names_go(
                    s@.subrange(i + 1, len as int),
                    s@.subrange(i + 1, i + 1),
                ) =~= old_dv + names_go(rest, cur));
            }
            piece_start = i + 1;
        } else {
            proof {
                assert(rest[0] == s@[i as int] && rest[0] != '\n');
                assert(rest.drop_first() =~= s@.subrange(i + 1, len as int));
                assert(names_go(rest, cur) == names_go(rest.drop_first(), cur.push(rest[0])));
                assert(cur.push(rest[0]) =~= s@.subrange(piece_start as int, i + 1));
            }
        }
        i += 1;
    }
    if piece_start < len {
        let ghost cur = s@.subrange(piece_start as int, len as int);
        let ghost old_dv = names.deep_view();
        let name = last_component(s, piece_start, len);
        names.push(name);
        proof {
            assert(s@.subrange(len as int, len as int) =~= Seq::<char>::empty());
            assert(cur.len() > 0);
            assert(names_go(Seq::empty(), cur) == seq![after_last_slash(cur)]);
            assert(names.deep_view() =~= old_dv.push(name@));
            assert(names.deep_view() =~= old_dv + names_go(Seq::empty(), cur));
        }
    } else {
        proof {
            assert(s@.subrange(len as int, len as int) =~= Seq::<char>::empty());
            assert(s@.subrange(piece_start as int, len as int) =~= Seq::<char>::empty());
            assert(names_go(Seq::empty(), Seq::empty()) == Seq::<Seq<char>>::empty());
            assert(names.deep_view() + Seq::<Seq<char>>::empty() =~= names.deep_view());
        }
    }
    names
}

/// The full listing invocation for a catalog-ready profile: the listing
/// command under `bash -c` in the profile's container, with no credential
/// override.
pub open spec fn spec_list_invocation(p: Args) -> Seq<Seq<char>>
    recommends
        p.spec_catalog_ready(),
{
    spec_container_args(None, p.container_id->0@, spec_list_command(p.dir_backup->0@))
}

/// The full dump-check invocation for directory `name`.
pub open spec fn spec_dump_check_invocation(p: Args, name: Seq<char>) -> Seq<Seq<char>>
    recommends
        p.spec_catalog_ready(),
{
    spec_container_args(
        None,
        p.container_id->0@,
        spec_dump_check_command(p.dir_backup->0@, name),
    )
}

fn list_command(root: &str) -> (r: String)
    ensures
        r@ == spec_list_command(root@),
{
    let mut c = String::from_str("find ");
    c.append(root);
    c.append(" -maxdepth 1 -type d -not -path ");
    c.append(root);
    c.append(" | sort");
    proof {
        assert(c@ =~= spec_list_command(root@));
    }
    c
}

fn dump_check_command(root: &str, name: &str) -> (r: String)
    ensures
        r@ == spec_dump_check_command(root@, name@),
{
    let mut c = String::from_str("[ -f ");
    c.append(root);
    c.append("/");
    c.append(name);
    c.append("/dump.sql ] && echo 'true' || echo 'false'");
    proof {
        assert(c@ =~= spec_dump_check_command(root@, name@));
    }
    c
}

impl Args {
    /// The catalog needs the container and the backup root, nothing more.
    pub open spec fn spec_catalog_ready(self) -> bool {
        self.container_id is Some && self.dir_backup is Some
    }

    /// The invocation that lists the candidate backup directories, or the
    /// error naming the profile field that is absent — the container first,
    /// as the original tool reports it.
    pub fn list_invocation(&self) -> (r: Result<Vec<String>, CatalogError>)
        ensures
            self.spec_catalog_ready() ==> (r matches Ok(v) && v.deep_view()
                == spec_list_invocation(*self)),
            self.container_id is None ==> (r matches Err(e) && e is MissingContainerId),
            self.container_id is Some && self.dir_backup is None ==> (r matches Err(e)
                && e is MissingBackupRoot),
    {
        match (&self.container_id, &self.dir_backup) {
            (Some(container), Some(root)) => {
                let inner = list_command(root.as_str());
                Ok(container_args(&None, container.as_str(), inner))
            },
            (None, _) => Err(CatalogError::MissingContainerId),
            (Some(_), None) => Err(CatalogError::MissingBackupRoot),
        }
    }

    /// The invocation that checks directory `name` for a dump file.
    pub fn dump_check_invocation(&self, name: &str) -> (r: Vec<String>)
        requires
            self.spec_catalog_ready(),
        ensures
            r.deep_view() == spec_dump_check_invocation(*self, name@),
    {
        match (&self.container_id, &self.dir_backup) {
            (Some(container), Some(root)) => {
                let inner = dump_check_command(root.as_str(), name);
                container_args(&None, container.as_str(), inner)
            },
            _ => {
                proof {
                    assert(false);
                }
                Vec::new()
            },
        }
    }
}

/// Interpret the captured result of the listing command: a failing exit
/// surfaces the diagnostic text, a successful one parses into directory
/// names.  An empty result is a valid, empty catalog.
pub fn evaluate_listing(exit_success: bool, stdout: &str, stderr: String) -> (r: Result<
    Vec<String>,
    CatalogError,
>)
    ensures
        exit_success ==> (r matches Ok(v) && v.deep_view() == spec_backup_names(stdout@)),
        !exit_success ==> (r matches Err(e) && e == CatalogError::ExecutionFailure { stderr }),
{
    if exit_success {
        Ok(parse_backup_names(stdout))
    } else {
        Err(CatalogError::ExecutionFailure { stderr })
    }
}

/// Interpret the captured output of a dump check: the directory holds a
/// dump exactly when the output, trimmed of whitespace, is `true`.
pub fn has_dump(stdout: &str) -> (r: bool)
    ensures
        r == trimmed_is(stdout@, "true"@),
{
    proof {
        reveal_strlit("true");
        assert(!is_space("true"@[0]));
        assert(!is_space("true"@[3]));
    }
    trimmed_matches(stdout, "true")
}

} // verus!
