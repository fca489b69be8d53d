//! Restore points: lightweight Git refs that pin a pre-operation commit.
//!
//! Before any mutating operation, Smoothee records the current HEAD under
//! `refs/smoothee/restore/<branch>/<timestamp>`. These refs are ordinary Git
//! objects, so they survive Smoothee crashes and are visible to plain `git`
//! (`git show-ref`, `git log <ref>`), keeping recovery possible even without
//! Smoothee.
use vstd::prelude::*;

use crate::exchange::{bool_result_view, git_reply, succeeds_of, succeeds_outcome, Reply};
use crate::git::command::{GitCommand, GitCommandView, GitError};
use crate::git::repository::Repository;
use crate::text::{
    chars_of, begins_with, has_prefix, owned, push_str, replace_char, replace_char_of, string_of,
};

verus! {

/// A restore point pinning one commit.
#[derive(Debug, Clone)]
pub struct RestorePoint {
    /// The full ref name (`refs/smoothee/restore/...`).
    pub ref_name: String,
    /// The commit the ref points at.
    pub head: String,
}

/// A branch name made safe for one path segment of a ref: every `/` becomes
/// `-`.
pub open spec fn sanitized(branch: Seq<char>) -> Seq<char> {
    replace_char(branch, '/', '-')
}

/// Sanitising keeps the name's length and every character but `/`, which
/// becomes `-`, so the result holds no `/` and is one ref path segment.
pub proof fn sanitized_replaces_only_slashes(branch: Seq<char>)
    ensures
        sanitized(branch).len() == branch.len(),
        forall|i: int|
            0 <= i < branch.len() ==> #[trigger] sanitized(branch)[i] == (if branch[i] == '/' {
                '-'
            } else {
                branch[i]
            }),
        !sanitized(branch).contains('/'),
{
}

/// Make a branch name safe for one ref path segment.
pub fn sanitize(branch: &str) -> (r: String)
    ensures
        r@ == sanitized(branch@),
{
    replace_char_of(branch, '/', '-')
}

/// The ref a restore point for `branch`, made at the local time written
/// `timestamp`, is stored under.
pub open spec fn restore_ref_name(branch: Seq<char>, timestamp: Seq<char>) -> Seq<char> {
    "refs/smoothee/restore/"@ + sanitized(branch) + "/"@ + timestamp
}

/// Restore refs for branches whose sanitized names differ, or with
/// different stamps, are different refs.
proof fn lemma_distinct_parts_distinct_names(
    b1: Seq<char>,
    t1: Seq<char>,
    b2: Seq<char>,
    t2: Seq<char>,
)
    requires
        sanitized(b1) != sanitized(b2) || t1 != t2,
    ensures
        restore_ref_name(b1, t1) != restore_ref_name(b2, t2),
{
    reveal_strlit("refs/smoothee/restore/");
    reveal_strlit("/");
    let p = "refs/smoothee/restore/"@;
    let s1 = sanitized(b1);
    let s2 = sanitized(b2);
    let n1 = restore_ref_name(b1, t1);
    let n2 = restore_ref_name(b2, t2);
    assert(p.len() == 22);
    if n1 == n2 {
        if s1.len() < s2.len() {
            assert(n1[22 + s1.len() as int] == '/');
            assert(n2[22 + s1.len() as int] == s2[s1.len() as int]);
            assert(false);
        } else if s2.len() < s1.len() {
            assert(n2[22 + s2.len() as int] == '/');
            assert(n1[22 + s2.len() as int] == s1[s2.len() as int]);
            assert(false);
        } else {
            let k = s1.len() as int;
            assert(s1 =~= n1.subrange(22, 22 + k));
            assert(s2 =~= n2.subrange(22, 22 + k));
            assert(t1 =~= n1.skip(23 + k));
            assert(t2 =~= n2.skip(23 + k));
            assert(false);
        }
    }
}

/// The stamp of the restore point of operation `id` made at the local time
/// `t`: `<t>-<id>`.
pub open spec fn operation_stamp(t: Seq<char>, id: Seq<char>) -> Seq<char> {
    t + "-"@ + id
}

/// Restore points are self-describing and never collide across operations:
/// each names its branch, the local time it was made, and the operation
/// that made it, so restore points of different operations (or of one
/// operation on different branches, or at different times) are different
/// refs.
pub proof fn restore_points_of_distinct_operations_differ(
    b1: Seq<char>,
    t1: Seq<char>,
    id1: Seq<char>,
    b2: Seq<char>,
    t2: Seq<char>,
    id2: Seq<char>,
)
    requires
        stamp_shaped(t1),
        stamp_shaped(t2),
        id1 != id2 || sanitized(b1) != sanitized(b2) || t1 != t2,
    ensures
        restore_ref_name(b1, operation_stamp(t1, id1)) != restore_ref_name(
            b2,
            operation_stamp(t2, id2),
        ),
{
    let u1 = operation_stamp(t1, id1);
    let u2 = operation_stamp(t2, id2);
    if u1 == u2 {
        assert(t1 =~= u1.subrange(0, 17));
        assert(t2 =~= u2.subrange(0, 17));
        reveal_strlit("-");
        assert(id1 =~= u1.skip(18));
        assert(id2 =~= u2.skip(18));
    }
    lemma_distinct_parts_distinct_names(b1, u1, b2, u2);
}

/// A ref name without its leading `refs/`, for display; one outside `refs/`
/// is shown whole.
pub open spec fn without_refs(name: Seq<char>) -> Seq<char> {
    if has_prefix(name, "refs/"@) {
        name.skip(5)
    } else {
        name
    }
}

/// `name` without its leading `refs/`, if it has one.
pub fn strip_refs(name: &str) -> (r: String)
    ensures
        r@ == without_refs(name@),
{
    proof {
        reveal_strlit("refs/");
    }
    let chars = chars_of(name);
    if begins_with(chars.as_slice(), "refs/") {
        string_of(chars.as_slice(), 5, chars.len())
    } else {
        let r = string_of(chars.as_slice(), 0, chars.len());
        assert(chars@.subrange(0, chars@.len() as int) =~= name@);
        r
    }
}

/// `git update-ref <ref> <head>`: create (or move) `ref` to `head`.
pub open spec fn update_ref_view(dir: Seq<char>, ref_name: Seq<char>, head: Seq<char>) -> GitCommandView {
    GitCommandView { args: seq!["update-ref"@, ref_name, head], cwd: Some(dir), env: seq![] }
}

/// `git update-ref -d <ref>`: delete `ref`.
pub open spec fn delete_ref_view(dir: Seq<char>, ref_name: Seq<char>) -> GitCommandView {
    GitCommandView { args: seq!["update-ref"@, "-d"@, ref_name], cwd: Some(dir), env: seq![] }
}

/// `git show-ref --verify --quiet <ref>`: succeeds exactly when `ref` exists.
pub open spec fn ref_exists_view(dir: Seq<char>, ref_name: Seq<char>) -> GitCommandView {
    GitCommandView {
        args: seq!["show-ref"@, "--verify"@, "--quiet"@, ref_name],
        cwd: Some(dir),
        env: seq![],
    }
}

/// Whether `c` is an ASCII digit.
pub open spec fn is_digit(c: char) -> bool {
    '0' <= c && c <= '9'
}

/// The shape `%Y-%m-%d-%H%M%S` gives a year from 0 to 9999: four digits,
/// `-`, two digits, `-`, two digits, `-`, six digits.
pub open spec fn stamp_shaped(t: Seq<char>) -> bool {
    &&& t.len() == 17
    &&& forall|i: int|
        0 <= i < 17 ==> if i == 4 || i == 7 || i == 10 {
            t[i] == '-'
        } else {
            is_digit(#[trigger] t[i])
        }
}

/// Seconds since the epoch before which every local time (at any offset of
/// less than a day) falls in a year of four digits: 9999-12-31T00:00:00Z.
pub const STAMP_LIMIT: i64 = 253402214400;

/// The local time of the instant `secs`/`nanos` after the Unix epoch, as
/// `chrono::DateTime::from_timestamp(secs, nanos)` converted with
/// `with_timezone(&chrono::Local)` and formatted `%Y-%m-%d-%H%M%S`. The
/// instant is within chrono's range, so `from_timestamp` gives a value; the
/// machine's time zone decides the digits, so only the shape is stated:
/// chrono documents `%Y` as four zero-padded digits for years 0 to 9999 and
/// `%m`, `%d`, `%H`, `%M`, `%S` as two, and a local offset (a
/// `FixedOffset`) is less than a day, so the local year stays in 1969..=9999.
/// (chrono's `Local` panics when the zone data holds an offset of a day or
/// more, which no argument can rule out.)
#[verifier::external_body]
fn local_stamp_at(secs: i64, nanos: u32) -> (r: String)
    requires
        0 <= secs < STAMP_LIMIT,
        nanos < 1_000_000_000,
    ensures
        stamp_shaped(r@),
{
    match chrono::DateTime::from_timestamp(secs, nanos) {
        Some(t) => t.with_timezone(&chrono::Local).format("%Y-%m-%d-%H%M%S").to_string(),
        None => String::new(),
    }
}

/// The current local time, formatted `%Y-%m-%d-%H%M%S`. A clock at or past
/// 9999-12-31T00:00:00Z reads as the second before it.
pub(crate) fn local_timestamp() -> (r: String)
    ensures
        stamp_shaped(r@),
{
    let now = crate::operations::journal::utc_now();
    let secs = if now.secs < STAMP_LIMIT {
        now.secs
    } else {
        STAMP_LIMIT - 1
    };
    local_stamp_at(secs, now.nanos)
}

/// The stamp for a restore point of the operation `id` made now: the
/// current local time, `-`, and the id.
pub(crate) fn stamp_now(id: &str) -> (r: (String, Ghost<Seq<char>>))
    ensures
        stamp_shaped(r.1@),
        r.0@ == operation_stamp(r.1@, id@),
{
    let mut s = local_timestamp();
    let ghost t = s@;
    push_str(&mut s, "-");
    push_str(&mut s, id);
    (s, Ghost(t))
}

impl RestorePoint {
    /// The restore point for `branch` at `head`, named with the local time
    /// `timestamp` (`%Y-%m-%d-%H%M%S`), and the command that pins it.
    pub fn create_at(repo: &Repository, branch: &str, head: &str, timestamp: &str) -> (r: (
        Self,
        GitCommand,
    ))
        ensures
            r.0.ref_name@ == restore_ref_name(branch@, timestamp@),
            r.0.head@ == head@,
            r.1@ == update_ref_view(repo.workdir@, restore_ref_name(branch@, timestamp@), head@),
    {
        let mut ref_name = owned("refs/smoothee/restore/");
        let s = sanitize(branch);
        push_str(&mut ref_name, s.as_str());
        push_str(&mut ref_name, "/");
        push_str(&mut ref_name, timestamp);
        let c = repo.git("update-ref").arg(ref_name.as_str()).arg(head);
        assert(c@.args =~= update_ref_view(repo.workdir@, ref_name@, head@).args);
        (RestorePoint { ref_name, head: owned(head) }, c)
    }

    /// A restore point for `branch` at `head`, made by the operation
    /// `operation_id` and named with the current local time and that id, and
    /// the command that pins it.
    pub fn create(repo: &Repository, branch: &str, head: &str, operation_id: &str) -> (r: (
        Self,
        GitCommand,
    ))
        ensures
            exists|t: Seq<char>|
                stamp_shaped(t) && r.0.ref_name@ == restore_ref_name(
                    branch@,
                    operation_stamp(t, operation_id@),
                ) && #[trigger] update_ref_view(
                    repo.workdir@,
                    restore_ref_name(branch@, operation_stamp(t, operation_id@)),
                    head@,
                ) == r.1@,
            r.0.head@ == head@,
    {
        let (stamp, Ghost(t)) = stamp_now(operation_id);
        let r = Self::create_at(repo, branch, head, stamp.as_str());
        assert(update_ref_view(repo.workdir@, restore_ref_name(branch@, operation_stamp(t, operation_id@)), head@) == r.1@);
        r
    }

    /// The ref name without `refs/`, for display.
    pub fn display_name(&self) -> (r: String)
        ensures
            r@ == without_refs(self.ref_name@),
    {
        strip_refs(self.ref_name.as_str())
    }

    /// The command that succeeds exactly when `ref_name` exists.
    pub fn ref_exists(repo: &Repository, ref_name: &str) -> (c: GitCommand)
        ensures
            c@ == ref_exists_view(repo.workdir@, ref_name@),
    {
        let c = repo.git("show-ref").arg("--verify").arg("--quiet").arg(ref_name);
        assert(c@.args =~= ref_exists_view(repo.workdir@, ref_name@).args);
        c
    }

    /// Whether the restore ref `ref_name` still exists, read from the reply
    /// to [`RestorePoint::ref_exists`]: whether `git show-ref` succeeded, or
    /// Git's error when it could not run.
    pub fn exists_of(repo: &Repository, ref_name: &str, reply: Reply) -> (r: Result<bool, GitError>)
        requires
            git_reply(reply@),
        ensures
            bool_result_view(r) == succeeds_outcome(ref_exists_view(repo.workdir@, ref_name@), reply@),
    {
        let asked = Self::ref_exists(repo, ref_name);
        succeeds_of(&asked, reply)
    }

    /// The command that deletes `ref_name`.
    pub fn delete(repo: &Repository, ref_name: &str) -> (c: GitCommand)
        ensures
            c@ == delete_ref_view(repo.workdir@, ref_name@),
    {
        let c = repo.git("update-ref").arg("-d").arg(ref_name);
        assert(c@.args =~= delete_ref_view(repo.workdir@, ref_name@).args);
        c
    }
}

} // verus!
