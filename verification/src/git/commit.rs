//! Commit planning over Git's machine-readable status.
//!
//! `git status --porcelain=v1 -z --untracked-files=all` lists every change as a
//! NUL-terminated entry `XY <path>` (a rename or copy is followed by one more
//! entry holding the original path). The plan groups the unstaged and untracked
//! paths by their top-level directory so one logical change can be committed
//! at a time.
use vstd::prelude::*;
use vstd::utf8::{encode_utf8, is_char_boundary};

use crate::exchange::{git_reply, output_of, output_outcome, GitErrorView, Reply, ReplyView};
use crate::git::command::{GitCommand, GitCommandView, GitError};
use crate::git::state::{changes_command, changes_view};
use crate::git::repository::Repository;
use crate::text::{
    chars_of, push_str, find_first, lemma_find_first_is, nul_entries, owned, split_nul, string_from,
    string_of, views,
};

verus! {

#[derive(Debug, Clone, PartialEq, Eq)]
pub struct Change {
    pub path: String,
    pub staged: bool,
    pub unstaged: bool,
    pub untracked: bool,
}

#[derive(Debug, Clone, PartialEq, Eq)]
pub struct ChangeGroup {
    pub scope: String,
    pub paths: Vec<String>,
}

#[derive(Debug, Clone)]
pub struct CommitPlan {
    pub changes: Vec<Change>,
    pub groups: Vec<ChangeGroup>,
}

// ---------------------------------------------------------------------------
// Porcelain v1 entries
// ---------------------------------------------------------------------------

/// One change as the porcelain entry describes it. The path is given by its
/// UTF-8 bytes: everything after the `XY ` prefix of the entry.
pub struct ChangeSpec {
    pub path_bytes: Seq<u8>,
    pub staged: bool,
    pub unstaged: bool,
    pub untracked: bool,
}

/// The change an entry of at least three bytes describes: its first two bytes
/// are the index (`X`) and worktree (`Y`) status codes.
pub open spec fn entry_change(b: Seq<u8>) -> ChangeSpec {
    let x = b[0] as char;
    let y = b[1] as char;
    ChangeSpec {
        path_bytes: b.subrange(3, b.len() as int),
        staged: x != ' ' && x != '?',
        unstaged: y != ' ',
        untracked: x == '?' && y == '?',
    }
}

/// Whether an entry's status code marks a rename or copy, which is followed
/// by one more entry holding the original path.
pub open spec fn entry_renames(b: Seq<u8>) -> bool {
    b[0] as char == 'R' || b[0] as char == 'C'
}

/// The entries left after a parsed entry: one more is skipped after a rename
/// or copy.
pub open spec fn entries_after(es: Seq<Seq<char>>) -> Seq<Seq<char>> {
    if entry_renames(encode_utf8(es[0])) && es.len() >= 2 {
        es.subrange(2, es.len() as int)
    } else {
        es.drop_first()
    }
}

/// The changes a sequence of entries describes. Entries shorter than three
/// bytes are not changes.
pub open spec fn parse_entries(es: Seq<Seq<char>>) -> Seq<ChangeSpec>
    decreases es.len(),
{
    if es.len() == 0 {
        seq![]
    } else if encode_utf8(es[0]).len() < 3 {
        parse_entries(es.drop_first())
    } else {
        seq![entry_change(encode_utf8(es[0]))] + parse_entries(entries_after(es))
    }
}

/// Whether every entry read as a change has its path start on a character
/// boundary (byte 3), so the path can be taken out of it.
pub open spec fn entries_readable(es: Seq<Seq<char>>) -> bool
    decreases es.len(),
{
    if es.len() == 0 {
        true
    } else if encode_utf8(es[0]).len() < 3 {
        entries_readable(es.drop_first())
    } else {
        is_char_boundary(encode_utf8(es[0]), 3) && entries_readable(entries_after(es))
    }
}

/// The changes that porcelain v1 `-z` text describes.
pub open spec fn parse_porcelain_spec(raw: Seq<char>) -> Seq<ChangeSpec> {
    parse_entries(nul_entries(raw))
}

pub open spec fn change_matches(c: Change, s: ChangeSpec) -> bool {
    &&& encode_utf8(c.path@) == s.path_bytes
    &&& c.staged == s.staged
    &&& c.unstaged == s.unstaged
    &&& c.untracked == s.untracked
}

pub open spec fn changes_match(cs: Seq<Change>, ss: Seq<ChangeSpec>) -> bool {
    cs.len() == ss.len() && forall|i: int| 0 <= i < cs.len() ==> change_matches(cs[i], ss[i])
}

/// Whether `c` is what a porcelain entry with bytes `b` reports: the path
/// after the `XY ` prefix; staged when the index column `X` shows a change
/// (anything but ` ` unmodified and `?` untracked: `A`, `M`, `D`, `R`, `C`,
/// `U`, ...); unstaged when the work-tree column `Y` is not ` `; untracked
/// for `??`.
pub open spec fn reports_entry(c: ChangeSpec, b: Seq<u8>) -> bool {
    &&& b.len() >= 3
    &&& c.path_bytes == b.subrange(3, b.len() as int)
    &&& c.staged == (b[0] as char != ' ' && b[0] as char != '?')
    &&& c.unstaged == (b[1] as char != ' ')
    &&& c.untracked == (b[0] as char == '?' && b[1] as char == '?')
}

proof fn lemma_entries_reported(es: Seq<Seq<char>>)
    ensures
        forall|k: int|
            0 <= k < parse_entries(es).len() ==> exists|j: int|
                0 <= j < es.len() && reports_entry(
                    #[trigger] parse_entries(es)[k],
                    encode_utf8(es[j]),
                ),
    decreases es.len(),
{
    if es.len() > 0 {
        let ps = parse_entries(es);
        if encode_utf8(es[0]).len() < 3 {
            let rest = es.drop_first();
            lemma_entries_reported(rest);
            assert forall|k: int| 0 <= k < ps.len() implies exists|j: int|
                0 <= j < es.len() && reports_entry(#[trigger] ps[k], encode_utf8(es[j])) by {
                let j = choose|j: int|
                    0 <= j < rest.len() && reports_entry(parse_entries(rest)[k], encode_utf8(rest[j]));
                assert(es[j + 1] == rest[j]);
            }
        } else {
            let rest = entries_after(es);
            let skip: int = if entry_renames(encode_utf8(es[0])) && es.len() >= 2 {
                2
            } else {
                1
            };
            assert(rest =~= es.subrange(skip, es.len() as int));
            lemma_entries_reported(rest);
            assert forall|k: int| 0 <= k < ps.len() implies exists|j: int|
                0 <= j < es.len() && reports_entry(#[trigger] ps[k], encode_utf8(es[j])) by {
                if k == 0 {
                    assert(ps[0] == entry_change(encode_utf8(es[0])));
                    assert(reports_entry(ps[0], encode_utf8(es[0])));
                } else {
                    assert(ps[k] == parse_entries(rest)[k - 1]);
                    let j = choose|j: int|
                        0 <= j < rest.len() && reports_entry(
                            parse_entries(rest)[k - 1],
                            encode_utf8(rest[j]),
                        );
                    assert(es[j + skip] == rest[j]);
                }
            }
        }
    }
}

/// Every change read from porcelain text is what one of its entries
/// reports (see [`reports_entry`]): a path added, modified, deleted,
/// renamed or copied in the index is staged, whatever the work tree shows.
pub proof fn changes_follow_their_status_codes(raw: Seq<char>)
    ensures
        forall|k: int|
            0 <= k < parse_porcelain_spec(raw).len() ==> exists|j: int|
                0 <= j < nul_entries(raw).len() && reports_entry(
                    #[trigger] parse_porcelain_spec(raw)[k],
                    encode_utf8(nul_entries(raw)[j]),
                ),
{
    lemma_entries_reported(nul_entries(raw));
}

/// The first entry of porcelain text, when it is a change (three bytes or
/// more), is read first, as its status codes report.
pub proof fn first_change_follows_its_status_codes(raw: Seq<char>)
    requires
        nul_entries(raw).len() > 0,
        encode_utf8(nul_entries(raw)[0]).len() >= 3,
    ensures
        parse_porcelain_spec(raw).len() > 0,
        reports_entry(parse_porcelain_spec(raw)[0], encode_utf8(nul_entries(raw)[0])),
{
}

/// Read the change described by one entry of at least three bytes.
fn read_entry(entry: &Vec<char>) -> (r: (Option<Change>, bool))
    requires
        encode_utf8(entry@).len() >= 3 ==> is_char_boundary(encode_utf8(entry@), 3),
    ensures
        encode_utf8(entry@).len() < 3 ==> r.0.is_none(),
        encode_utf8(entry@).len() >= 3 ==> (r.0 matches Some(c) && change_matches(
            c,
            entry_change(encode_utf8(entry@)),
        ) && r.1 == entry_renames(encode_utf8(entry@))),
{
    let text = string_from(entry.as_slice());
    let bytes = text.as_str().as_bytes();
    if bytes.len() < 3 {
        return (None, false);
    }
    let x = bytes[0] as char;
    let y = bytes[1] as char;
    let (_, rest) = text.as_str().split_at(3);
    let path = rest.to_owned();
    let change = Change {
        path,
        staged: x != ' ' && x != '?',
        unstaged: y != ' ',
        untracked: x == '?' && y == '?',
    };
    (Some(change), x == 'R' || x == 'C')
}

/// Parse porcelain v1 `-z` text into its changes, in order.
pub fn parse_porcelain(raw: &str) -> (r: Vec<Change>)
    requires
        entries_readable(nul_entries(raw@)),
    ensures
        changes_match(r@, parse_porcelain_spec(raw@)),
{
    let chars = chars_of(raw);
    let entries = split_nul(chars.as_slice());
    let ghost es = views(entries@);
    let ghost mut done: Seq<ChangeSpec> = seq![];
    let mut changes: Vec<Change> = Vec::new();
    let mut i: usize = 0;
    assert(es.subrange(0, es.len() as int) =~= es);
    assert(done + parse_entries(es) =~= parse_entries(es));
    while i < entries.len()
        invariant
            es == views(entries@),
            es == nul_entries(raw@),
            i <= es.len(),
            entries_readable(es.subrange(i as int, es.len() as int)),
            parse_entries(es) == done + parse_entries(es.subrange(i as int, es.len() as int)),
            changes_match(changes@, done),
        decreases es.len() - i,
    {
        let ghost rest = es.subrange(i as int, es.len() as int);
        assert(rest[0] == entries@[i as int]@);
        let (found, renames) = read_entry(&entries[i]);
        match found {
            Some(change) => {
                let ghost spec = entry_change(encode_utf8(rest[0]));
                changes.push(change);
                proof {
                    assert(parse_entries(rest) == seq![spec] + parse_entries(entries_after(rest)));
                    assert(done.push(spec) + parse_entries(entries_after(rest)) =~= done + (seq![
                        spec,
                    ] + parse_entries(entries_after(rest))));
                    done = done.push(spec);
                }
                if renames && i + 1 < entries.len() {
                    assert(entries_after(rest) =~= es.subrange(i + 2, es.len() as int));
                    i += 2;
                } else {
                    assert(entries_after(rest) =~= es.subrange(i + 1, es.len() as int));
                    i += 1;
                }
            },
            None => {
                assert(rest.drop_first() =~= es.subrange(i + 1, es.len() as int));
                i += 1;
            },
        }
    }
    assert(es.subrange(es.len() as int, es.len() as int) =~= Seq::<Seq<char>>::empty());
    assert(done + seq![] =~= done);
    changes
}

// ---------------------------------------------------------------------------
// Grouping by top-level scope
// ---------------------------------------------------------------------------

/// The scope of a path: its first `/`-separated segment, or `root` for a
/// path with no `/`.
pub open spec fn scope_of(path: Seq<char>) -> Seq<char> {
    if path.contains('/') {
        path.subrange(0, find_first(path, |c: char| c == '/'))
    } else {
        "root"@
    }
}

/// The scope of a path is its first directory: for `<dir>/<rest>` with no
/// `/` in `<dir>` it is `<dir>`; a path with no `/` is in `root`.
pub proof fn scope_is_first_directory(dir: Seq<char>, rest: Seq<char>, top: Seq<char>)
    requires
        !dir.contains('/'),
        !top.contains('/'),
    ensures
        scope_of(dir + seq!['/'] + rest) == dir,
        scope_of(top) == "root"@,
{
    let path = dir + seq!['/'] + rest;
    assert(path[dir.len() as int] == '/');
    assert(path.contains('/'));
    assert forall|j: int| 0 <= j < dir.len() implies !((|c: char| c == '/')(#[trigger] path[j])) by {
        assert(path[j] == dir[j]);
        if path[j] == '/' {
            assert(dir.contains('/'));
        }
    }
    lemma_find_first_is(path, |c: char| c == '/', dir.len() as int);
    assert(path.subrange(0, dir.len() as int) =~= dir);
}

/// Whether `p` is the path of a staged change among `cs`.
pub open spec fn staged_change_path(cs: Seq<Change>, p: Seq<char>) -> bool {
    exists|i: int| 0 <= i < cs.len() && #[trigger] cs[i].staged && cs[i].path@ == p
}

/// The staged paths are exactly the paths of the staged changes: each one
/// belongs to a staged change, and every staged change's path is listed.
pub proof fn staged_paths_are_the_staged_changes(cs: Seq<Change>)
    ensures
        forall|k: int|
            0 <= k < staged_paths_spec(cs).len() ==> staged_change_path(
                cs,
                #[trigger] staged_paths_spec(cs)[k],
            ),
        forall|i: int|
            0 <= i < cs.len() && #[trigger] cs[i].staged ==> staged_paths_spec(cs).contains(
                cs[i].path@,
            ),
    decreases cs.len(),
{
    if cs.len() > 0 {
        let init = cs.drop_last();
        staged_paths_are_the_staged_changes(init);
        let ps = staged_paths_spec(cs);
        let pi = staged_paths_spec(init);
        let last = cs.len() - 1;
        assert(cs[last] == cs.last());
        if cs.last().staged {
            assert(ps == pi.push(cs.last().path@));
        } else {
            assert(ps == pi);
        }
        assert forall|k: int| 0 <= k < ps.len() implies staged_change_path(cs, #[trigger] ps[k]) by {
            if k < pi.len() {
                assert(ps[k] == pi[k]);
                assert(staged_change_path(init, pi[k]));
                let i = choose|i: int| 0 <= i < init.len() && #[trigger] init[i].staged && init[i].path@ == pi[k];
                assert(cs[i] == init[i]);
                assert(cs[i].staged);
            } else {
                assert(cs[last].staged && cs[last].path@ == ps[k]);
            }
        }
        assert forall|i: int| 0 <= i < cs.len() && #[trigger] cs[i].staged implies ps.contains(
            cs[i].path@,
        ) by {
            if i < init.len() {
                assert(init[i] == cs[i]);
                assert(init[i].staged);
                let k = choose|k: int| 0 <= k < pi.len() && pi[k] == init[i].path@;
                if cs.last().staged {
                    assert(ps[k] == pi[k]);
                }
            } else {
                assert(ps[ps.len() - 1] == cs[i].path@);
            }
        }
    }
}

/// Lexicographic order on character sequences, by code point, the order in
/// which a `BTreeMap<String, _>` keeps its keys.
pub open spec fn lex_lt(a: Seq<char>, b: Seq<char>) -> bool
    decreases a.len(),
{
    if a.len() == 0 {
        b.len() > 0
    } else if b.len() == 0 {
        false
    } else if a[0] != b[0] {
        (a[0] as u32) < (b[0] as u32)
    } else {
        lex_lt(a.drop_first(), b.drop_first())
    }
}

pub proof fn lemma_lex_total(a: Seq<char>, b: Seq<char>)
    ensures
        a == b || lex_lt(a, b) || lex_lt(b, a),
        !(lex_lt(a, b) && lex_lt(b, a)),
        !lex_lt(a, a),
    decreases a.len(),
{
    if a.len() == 0 && b.len() == 0 {
        assert(a =~= b);
    } else if a.len() > 0 && b.len() > 0 {
        lemma_lex_total(a.drop_first(), b.drop_first());
        if a[0] != b[0] {
            vstd::utf8::char_u32_cast(a[0], a[0] as u32);
            vstd::utf8::char_u32_cast(b[0], b[0] as u32);
            assert((a[0] as u32) != (b[0] as u32));
        }
        if a[0] == b[0] && a.drop_first() == b.drop_first() {
            assert forall|k: int| 0 <= k < a.len() implies a[k] == b[k] by {
                if k > 0 {
                    assert(a[k] == a.drop_first()[k - 1]);
                    assert(b[k] == b.drop_first()[k - 1]);
                }
            }
            assert(a =~= b);
        }
    }
    if a.len() > 0 {
        lemma_lex_total(a.drop_first(), a.drop_first());
    }
}

pub proof fn lemma_lex_trans(a: Seq<char>, b: Seq<char>, c: Seq<char>)
    requires
        lex_lt(a, b),
        lex_lt(b, c),
    ensures
        lex_lt(a, c),
    decreases a.len(),
{
    if a.len() > 0 && b.len() > 0 && c.len() > 0 && a[0] == b[0] && b[0] == c[0] {
        lemma_lex_trans(a.drop_first(), b.drop_first(), c.drop_first());
    }
}

/// Whether `a` sorts before `b`.
pub fn lex_less(a: &[char], b: &[char]) -> (r: bool)
    ensures
        r == lex_lt(a@, b@),
{
    let mut i: usize = 0;
    assert(a@.skip(0) =~= a@);
    assert(b@.skip(0) =~= b@);
    while i < a.len() && i < b.len()
        invariant
            i <= a@.len(),
            i <= b@.len(),
            forall|j: int| 0 <= j < i ==> a@[j] == b@[j],
            lex_lt(a@, b@) == lex_lt(a@.skip(i as int), b@.skip(i as int)),
        decreases a@.len() - i,
    {
        if a[i] != b[i] {
            let x = a[i] as u32;
            let y = b[i] as u32;
            assert(a@.skip(i as int)[0] == a@[i as int]);
            assert(b@.skip(i as int)[0] == b@[i as int]);
            return x < y;
        }
        assert(a@.skip(i as int).drop_first() =~= a@.skip(i + 1));
        assert(b@.skip(i as int).drop_first() =~= b@.skip(i + 1));
        i += 1;
    }
    i == a.len() && i < b.len()
}

/// The paths among `ps` whose scope is `sc`, in order.
pub open spec fn with_scope(ps: Seq<Seq<char>>, sc: Seq<char>) -> Seq<Seq<char>>
    decreases ps.len(),
{
    if ps.len() == 0 {
        seq![]
    } else if scope_of(ps.last()) == sc {
        with_scope(ps.drop_last(), sc).push(ps.last())
    } else {
        with_scope(ps.drop_last(), sc)
    }
}

pub open spec fn group_view(g: ChangeGroup) -> (Seq<char>, Seq<Seq<char>>) {
    (g.scope@, g.paths@.map_values(|p: String| p@))
}

/// `gs` groups the paths `ps`: one group per scope that occurs, in increasing
/// order of scope, each holding exactly the paths of that scope in their
/// original order.
pub open spec fn groups_of(gs: Seq<(Seq<char>, Seq<Seq<char>>)>, ps: Seq<Seq<char>>) -> bool {
    &&& forall|i: int, j: int| 0 <= i < j < gs.len() ==> lex_lt(gs[i].0, gs[j].0)
    &&& forall|i: int| 0 <= i < gs.len() ==> #[trigger] gs[i].1 == with_scope(ps, gs[i].0)
    &&& forall|i: int| 0 <= i < gs.len() ==> #[trigger] gs[i].1.len() > 0
    &&& forall|k: int|
        0 <= k < ps.len() ==> exists|i: int| 0 <= i < gs.len() && #[trigger] gs[i].0 == scope_of(
            #[trigger] ps[k],
        )
}

/// The scope of `path`.
fn scope(path: &str) -> (r: String)
    ensures
        r@ == scope_of(path@),
{
    let chars = chars_of(path);
    let mut i: usize = 0;
    while i < chars.len() && chars[i] != '/'
        invariant
            chars@ == path@,
            i <= chars@.len(),
            forall|j: int| 0 <= j < i ==> chars@[j] != '/',
        decreases chars@.len() - i,
    {
        i += 1;
    }
    proof {
        lemma_find_first_is(path@, |c: char| c == '/', i as int);
    }
    if i < chars.len() {
        assert(path@.contains('/')) by {
            assert(path@[i as int] == '/');
        }
        string_of(chars.as_slice(), 0, i)
    } else {
        assert(!path@.contains('/'));
        owned("root")
    }
}

proof fn lemma_with_scope_push(ps: Seq<Seq<char>>, p: Seq<char>, sc: Seq<char>)
    ensures
        with_scope(ps.push(p), sc) == if scope_of(p) == sc {
            with_scope(ps, sc).push(p)
        } else {
            with_scope(ps, sc)
        },
{
    assert(ps.push(p).drop_last() =~= ps);
}

proof fn lemma_with_scope_absent(ps: Seq<Seq<char>>, sc: Seq<char>)
    requires
        forall|k: int| 0 <= k < ps.len() ==> scope_of(#[trigger] ps[k]) != sc,
    ensures
        with_scope(ps, sc) == Seq::<Seq<char>>::empty(),
    decreases ps.len(),
{
    if ps.len() > 0 {
        assert forall|k: int| 0 <= k < ps.drop_last().len() implies scope_of(
            #[trigger] ps.drop_last()[k],
        ) != sc by {
            assert(ps.drop_last()[k] == ps[k]);
        }
        lemma_with_scope_absent(ps.drop_last(), sc);
        assert(scope_of(ps[ps.len() - 1]) != sc);
    }
}

/// Group paths by their top-level scope (`src/a.rs` → `src`; `README.md` →
/// `root`), with groups in order of scope.
pub fn group_paths(paths: &[&str]) -> (groups: Vec<ChangeGroup>)
    ensures
        groups_of(groups@.map_values(|g: ChangeGroup| group_view(g)), paths@.map_values(|p: &str| p@)),
{
    let ghost ps = paths@.map_values(|p: &str| p@);
    let mut groups: Vec<ChangeGroup> = Vec::new();
    let mut i: usize = 0;
    while i < paths.len()
        invariant
            ps == paths@.map_values(|p: &str| p@),
            i <= paths@.len(),
            groups_of(groups@.map_values(|g: ChangeGroup| group_view(g)), ps.take(i as int)),
        decreases paths@.len() - i,
    {
        let path = paths[i];
        let sc = scope(path);
        let sc_chars = chars_of(sc.as_str());
        let ghost pre = ps.take(i as int);
        let ghost gs = groups@.map_values(|g: ChangeGroup| group_view(g));
        assert(ps.take(i + 1) =~= pre.push(path@));
        // Find the group of this scope, or the position where it belongs.
        let mut j: usize = 0;
        let mut found = false;
        let mut stop = false;
        while j < groups.len() && !stop
            invariant
                gs == groups@.map_values(|g: ChangeGroup| group_view(g)),
                sc_chars@ == sc@,
                j <= groups@.len(),
                forall|k: int| 0 <= k < j ==> lex_lt(#[trigger] gs[k].0, sc@),
                found ==> stop,
                stop ==> j < groups@.len(),
                found ==> gs[j as int].0 == sc@,
                stop && !found ==> !lex_lt(gs[j as int].0, sc@) && gs[j as int].0 != sc@,
            decreases groups@.len() - j + (if stop {
                0int
            } else {
                1int
            }),
        {
            let gc = chars_of(groups[j].scope.as_str());
            assert(gs[j as int].0 == gc@);
            if chars_eq_vec(&gc, &sc_chars) {
                found = true;
                stop = true;
            } else if !lex_less(gc.as_slice(), sc_chars.as_slice()) {
                stop = true;
            } else {
                j += 1;
            }
        }
        proof {
            lemma_lex_total(sc@, sc@);
        }
        if found {
            let ghost old_groups = groups@;
            let mut g = groups.remove(j);
            let ghost gp = g.paths@;
            g.paths.push(owned(path));
            assert(g.paths@.map_values(|p: String| p@) =~= gp.map_values(|p: String| p@).push(
                path@,
            ));
            assert(group_view(g).1 =~= gs[j as int].1.push(path@));
            groups.insert(j, g);
            assert(groups@ =~= old_groups.update(j as int, g));
            proof {
                let ngs = groups@.map_values(|g: ChangeGroup| group_view(g));
                assert forall|k: int| 0 <= k < ngs.len() implies #[trigger] ngs[k].1 == with_scope(
                    ps.take(i + 1),
                    ngs[k].0,
                ) by {
                    lemma_with_scope_push(pre, path@, ngs[k].0);
                    if k == j {
                        assert(ngs[k].1 =~= gs[k].1.push(path@));
                    } else {
                        assert(ngs[k] == gs[k]);
                        if gs[k].0 == sc@ {
                            assert(lex_lt(gs[k].0, gs[j as int].0) || lex_lt(
                                gs[j as int].0,
                                gs[k].0,
                            ));
                            lemma_lex_total(sc@, sc@);
                        }
                    }
                }
                assert forall|k: int| 0 <= k < ngs.len() implies #[trigger] ngs[k].1.len() > 0 by {
                    if k != j {
                        assert(ngs[k] == gs[k]);
                    }
                }
                assert forall|a: int, b: int| 0 <= a < b < ngs.len() implies lex_lt(
                    ngs[a].0,
                    ngs[b].0,
                ) by {
                    assert(ngs[a].0 == gs[a].0);
                    assert(ngs[b].0 == gs[b].0);
                }
                assert forall|k: int| 0 <= k < ps.take(i + 1).len() implies exists|x: int|
                    0 <= x < ngs.len() && #[trigger] ngs[x].0 == scope_of(
                        #[trigger] ps.take(i + 1)[k],
                    ) by {
                    if k < i {
                        assert(ps.take(i + 1)[k] == pre[k]);
                        let x = choose|x: int| 0 <= x < gs.len() && #[trigger] gs[x].0 == scope_of(
                            pre[k],
                        );
                        assert(ngs[x].0 == gs[x].0);
                    } else {
                        assert(ngs[j as int].0 == scope_of(ps.take(i + 1)[k]));
                    }
                }
            }
        } else {
            let mut new_paths: Vec<String> = Vec::new();
            new_paths.push(owned(path));
            let g = ChangeGroup { scope: sc, paths: new_paths };
            groups.insert(j, g);
            proof {
                let ngs = groups@.map_values(|g: ChangeGroup| group_view(g));
                assert(forall|k: int| 0 <= k < j ==> ngs[k] == gs[k]);
                assert(forall|k: int| j < k < ngs.len() ==> ngs[k] == gs[k - 1]);
                assert(ngs[j as int].0 == sc@);
                assert(ngs[j as int].1 =~= seq![path@]);
                // The new scope sorts after every earlier group and before every later one.
                if j < gs.len() {
                    lemma_lex_total(gs[j as int].0, sc@);
                }
                assert forall|k: int| 0 <= k < gs.len() implies gs[k].0 != sc@ by {
                    if k < j {
                        lemma_lex_total(gs[k].0, sc@);
                    } else {
                        lemma_lex_total(gs[j as int].0, sc@);
                        if k > j {
                            lemma_lex_trans(sc@, gs[j as int].0, gs[k].0);
                            lemma_lex_total(sc@, gs[k].0);
                        }
                    }
                }
                assert forall|a: int, b: int| 0 <= a < b < ngs.len() implies lex_lt(
                    ngs[a].0,
                    ngs[b].0,
                ) by {
                    if b == j {
                    } else if a == j {
                        if b > j + 1 {
                            lemma_lex_trans(sc@, gs[j as int].0, gs[b - 1].0);
                        }
                    } else if a < j && b > j {
                        if b > j + 1 {
                            lemma_lex_trans(sc@, gs[j as int].0, gs[b - 1].0);
                        }
                        lemma_lex_trans(gs[a].0, sc@, gs[b - 1].0);
                    }
                }
                assert(forall|k: int| 0 <= k < pre.len() ==> scope_of(#[trigger] pre[k]) != sc@)
                    by {
                    assert forall|k: int| 0 <= k < pre.len() implies scope_of(#[trigger] pre[k])
                        != sc@ by {
                        let x = choose|x: int| 0 <= x < gs.len() && #[trigger] gs[x].0 == scope_of(
                            pre[k],
                        );
                    }
                }
                lemma_with_scope_absent(pre, sc@);
                assert forall|k: int| 0 <= k < ngs.len() implies #[trigger] ngs[k].1 == with_scope(
                    ps.take(i + 1),
                    ngs[k].0,
                ) by {
                    lemma_with_scope_push(pre, path@, ngs[k].0);
                    if k == j {
                        assert(seq![path@] =~= Seq::<Seq<char>>::empty().push(path@));
                    } else if k < j {
                        assert(ngs[k].0 != sc@);
                    } else {
                        assert(ngs[k].0 != sc@);
                    }
                }
                assert forall|k: int| 0 <= k < ngs.len() implies #[trigger] ngs[k].1.len() > 0 by {}
                assert forall|k: int| 0 <= k < ps.take(i + 1).len() implies exists|x: int|
                    0 <= x < ngs.len() && #[trigger] ngs[x].0 == scope_of(
                        #[trigger] ps.take(i + 1)[k],
                    ) by {
                    if k < i {
                        assert(ps.take(i + 1)[k] == pre[k]);
                        let x = choose|x: int| 0 <= x < gs.len() && #[trigger] gs[x].0 == scope_of(
                            pre[k],
                        );
                        if x < j {
                            assert(ngs[x].0 == gs[x].0);
                        } else {
                            assert(ngs[x + 1].0 == gs[x].0);
                        }
                    } else {
                        assert(ngs[j as int].0 == scope_of(ps.take(i + 1)[k]));
                    }
                }
            }
        }
        i += 1;
    }
    assert(ps.take(paths@.len() as int) =~= ps);
    groups
}

fn chars_eq_vec(a: &Vec<char>, b: &Vec<char>) -> (r: bool)
    ensures
        r == (a@ == b@),
{
    crate::text::chars_eq(a.as_slice(), b.as_slice())
}

// ---------------------------------------------------------------------------
// The plan
// ---------------------------------------------------------------------------

/// The paths of the changes not yet staged: worktree edits and untracked files.
pub open spec fn unstaged_paths(cs: Seq<Change>) -> Seq<Seq<char>>
    decreases cs.len(),
{
    if cs.len() == 0 {
        seq![]
    } else if cs.last().unstaged || cs.last().untracked {
        unstaged_paths(cs.drop_last()).push(cs.last().path@)
    } else {
        unstaged_paths(cs.drop_last())
    }
}

/// The paths of the staged changes.
pub open spec fn staged_paths_spec(cs: Seq<Change>) -> Seq<Seq<char>>
    decreases cs.len(),
{
    if cs.len() == 0 {
        seq![]
    } else if cs.last().staged {
        staged_paths_spec(cs.drop_last()).push(cs.last().path@)
    } else {
        staged_paths_spec(cs.drop_last())
    }
}

pub open spec fn plan_groups(p: CommitPlan) -> Seq<(Seq<char>, Seq<Seq<char>>)> {
    p.groups@.map_values(|g: ChangeGroup| group_view(g))
}

/// The single scope every path shares, when there is at least one path and
/// they all have the same scope.
pub open spec fn single_scope(ps: Seq<Seq<char>>) -> Option<Seq<char>> {
    if ps.len() > 0 && forall|k: int| 0 <= k < ps.len() ==> scope_of(#[trigger] ps[k]) == scope_of(
        ps[0],
    ) {
        Some(scope_of(ps[0]))
    } else {
        None
    }
}

/// The commit message proposed for a commit: named after the selected group,
/// or after the one scope all staged paths share.
pub open spec fn suggested_message_spec(group: Option<Seq<char>>, staged: Seq<Seq<char>>) -> Seq<
    char,
> {
    match group {
        Some(scope) => if scope == "root"@ {
            "Update project files"@
        } else {
            "Update "@ + scope
        },
        None => match single_scope(staged) {
            Some(scope) => if scope != "root"@ {
                "Update "@ + scope
            } else {
                "Update project changes"@
            },
            None => "Update project changes"@,
        },
    }
}

proof fn lemma_with_scope_member(ps: Seq<Seq<char>>, sc: Seq<char>)
    requires
        with_scope(ps, sc).len() > 0,
    ensures
        exists|k: int| 0 <= k < ps.len() && scope_of(#[trigger] ps[k]) == sc,
    decreases ps.len(),
{
    if scope_of(ps.last()) == sc {
        assert(scope_of(ps[ps.len() - 1]) == sc);
    } else {
        lemma_with_scope_member(ps.drop_last(), sc);
        let k = choose|k: int| 0 <= k < ps.drop_last().len() && scope_of(
            #[trigger] ps.drop_last()[k],
        ) == sc;
        assert(ps.drop_last()[k] == ps[k]);
    }
}

/// Grouping yields exactly one group when the paths share one scope.
proof fn lemma_one_group(gs: Seq<(Seq<char>, Seq<Seq<char>>)>, ps: Seq<Seq<char>>)
    requires
        groups_of(gs, ps),
    ensures
        (gs.len() == 1) == (single_scope(ps) is Some),
        gs.len() == 1 ==> single_scope(ps) == Some(gs[0].0),
{
    if gs.len() == 1 {
        assert forall|k: int| 0 <= k < ps.len() implies scope_of(#[trigger] ps[k]) == gs[0].0 by {
            let x = choose|x: int| 0 <= x < gs.len() && #[trigger] gs[x].0 == scope_of(ps[k]);
        }
        assert(gs[0].1 == with_scope(ps, gs[0].0));
        assert(gs[0].1.len() > 0);
        lemma_with_scope_member(ps, gs[0].0);
    } else if gs.len() == 0 {
        if ps.len() > 0 {
            let x = choose|x: int| 0 <= x < gs.len() && #[trigger] gs[x].0 == scope_of(ps[0]);
        }
    } else {
        assert(gs[0].1 == with_scope(ps, gs[0].0));
        assert(gs[0].1.len() > 0);
        assert(gs[1].1 == with_scope(ps, gs[1].0));
        assert(gs[1].1.len() > 0);
        assert(lex_lt(gs[0].0, gs[1].0));
        lemma_with_scope_member(ps, gs[0].0);
        lemma_with_scope_member(ps, gs[1].0);
        lemma_lex_total(gs[0].0, gs[1].0);
        if single_scope(ps) is Some {
            let k0 = choose|k: int| 0 <= k < ps.len() && scope_of(#[trigger] ps[k]) == gs[0].0;
            let k1 = choose|k: int| 0 <= k < ps.len() && scope_of(#[trigger] ps[k]) == gs[1].0;
            assert(scope_of(ps[k0]) == scope_of(ps[0]));
            assert(scope_of(ps[k1]) == scope_of(ps[0]));
        }
    }
}

fn str_refs(v: &Vec<String>) -> (r: Vec<&str>)
    ensures
        r@.map_values(|p: &str| p@) == v@.map_values(|p: String| p@),
{
    let mut r: Vec<&str> = Vec::new();
    let mut i: usize = 0;
    while i < v.len()
        invariant
            i <= v@.len(),
            r@.map_values(|p: &str| p@) == v@.take(i as int).map_values(|p: String| p@),
        decreases v@.len() - i,
    {
        r.push(v[i].as_str());
        assert(v@.take(i + 1).map_values(|p: String| p@) =~= v@.take(i as int).map_values(
            |p: String| p@,
        ).push(v@[i as int]@));
        assert(r@.map_values(|p: &str| p@) =~= v@.take(i + 1).map_values(|p: String| p@));
        i += 1;
    }
    assert(v@.take(v@.len() as int) =~= v@);
    r
}

/// The commit message Smoothee proposes: `Update <scope>` for a selected
/// group (`Update project files` for the root scope); otherwise `Update
/// <scope>` when every staged path shares one non-root scope, else
/// `Update project changes`.
pub fn suggested_message(group: Option<&ChangeGroup>, staged: &Vec<String>) -> (r: String)
    ensures
        r@ == suggested_message_spec(
            match group {
                Some(g) => Some(g.scope@),
                None => None,
            },
            staged@.map_values(|p: String| p@),
        ),
{
    proof {
        reveal_strlit("root");
    }
    if let Some(g) = group {
        let sc = chars_of(g.scope.as_str());
        if crate::text::is_text(sc.as_slice(), "root") {
            return owned("Update project files");
        } else {
            let mut r = owned("Update ");
            push_str(&mut r, g.scope.as_str());
            return r;
        }
    }
    let refs = str_refs(staged);
    let scopes = group_paths(refs.as_slice());
    proof {
        lemma_one_group(
            scopes@.map_values(|g: ChangeGroup| group_view(g)),
            staged@.map_values(|p: String| p@),
        );
    }
    if scopes.len() == 1 {
        assert(scopes@.map_values(|g: ChangeGroup| group_view(g))[0].0 == scopes@[0].scope@);
        let sc = chars_of(scopes[0].scope.as_str());
        if !crate::text::is_text(sc.as_slice(), "root") {
            let mut r = owned("Update ");
            push_str(&mut r, scopes[0].scope.as_str());
            return r;
        }
    }
    owned("Update project changes")
}

impl CommitPlan {
    /// The plan for the changes that porcelain v1 `-z` status text lists: the
    /// changes in order, and the unstaged and untracked paths grouped by
    /// top-level scope.
    pub fn from_porcelain(raw: &str) -> (p: Self)
        requires
            entries_readable(nul_entries(raw@)),
        ensures
            changes_match(p.changes@, parse_porcelain_spec(raw@)),
            groups_of(plan_groups(p), unstaged_paths(p.changes@)),
    {
        let changes = parse_porcelain(raw);
        let mut paths: Vec<&str> = Vec::new();
        let mut i: usize = 0;
        while i < changes.len()
            invariant
                i <= changes@.len(),
                paths@.map_values(|p: &str| p@) == unstaged_paths(changes@.take(i as int)),
            decreases changes@.len() - i,
        {
            let ghost pre = changes@.take(i as int);
            assert(changes@.take(i + 1).drop_last() =~= pre);
            if changes[i].unstaged || changes[i].untracked {
                paths.push(changes[i].path.as_str());
                assert(paths@.map_values(|p: &str| p@) =~= unstaged_paths(pre).push(
                    changes@[i as int].path@,
                ));
            }
            i += 1;
        }
        assert(changes@.take(changes@.len() as int) =~= changes@);
        let groups = group_paths(paths.as_slice());
        CommitPlan { changes, groups }
    }

    /// The paths of the staged changes, in order.
    pub fn staged_paths(&self) -> (r: Vec<String>)
        ensures
            r@.map_values(|p: String| p@) == staged_paths_spec(self.changes@),
    {
        let mut r: Vec<String> = Vec::new();
        let mut i: usize = 0;
        while i < self.changes.len()
            invariant
                i <= self.changes@.len(),
                r@.map_values(|p: String| p@) == staged_paths_spec(self.changes@.take(i as int)),
            decreases self.changes@.len() - i,
        {
            let ghost pre = self.changes@.take(i as int);
            assert(self.changes@.take(i + 1).drop_last() =~= pre);
            if self.changes[i].staged {
                r.push(self.changes[i].path.clone());
                assert(r@.map_values(|p: String| p@) =~= staged_paths_spec(pre).push(
                    self.changes@[i as int].path@,
                ));
            }
            i += 1;
        }
        assert(self.changes@.take(self.changes@.len() as int) =~= self.changes@);
        r
    }

    /// Whether any change is staged.
    pub fn has_staged(&self) -> (r: bool)
        ensures
            r == exists|i: int| 0 <= i < self.changes@.len() && #[trigger] self.changes@[i].staged,
    {
        let mut i: usize = 0;
        while i < self.changes.len()
            invariant
                i <= self.changes@.len(),
                forall|j: int| 0 <= j < i ==> !#[trigger] self.changes@[j].staged,
            decreases self.changes@.len() - i,
        {
            if self.changes[i].staged {
                assert(self.changes@[i as int].staged);
                return true;
            }
            i += 1;
        }
        false
    }

    /// Whether there is nothing to commit.
    pub fn is_empty(&self) -> (r: bool)
        ensures
            r == (self.changes@.len() == 0),
    {
        self.changes.len() == 0
    }
}

/// `git add -- <paths...>` in the repository.
pub open spec fn stage_paths_view(repo_dir: Seq<char>, paths: Seq<Seq<char>>) -> GitCommandView {
    GitCommandView { args: seq!["add"@, "--"@] + paths, cwd: Some(repo_dir), env: seq![] }
}

/// `git commit -m <message>` in the repository.
pub open spec fn commit_view(repo_dir: Seq<char>, message: Seq<char>) -> GitCommandView {
    GitCommandView { args: seq!["commit"@, "-m"@, message], cwd: Some(repo_dir), env: seq![] }
}

/// The command that stages exactly `paths`.
pub fn stage_command(repo: &Repository, paths: &Vec<String>) -> (c: GitCommand)
    ensures
        c@ == stage_paths_view(repo.workdir@, paths@.map_values(|p: String| p@)),
{
    let mut command = repo.git("add").arg("--");
    let mut i: usize = 0;
    assert(paths@.take(0).map_values(|p: String| p@) =~= Seq::<Seq<char>>::empty());
    assert(command@.args =~= seq!["add"@, "--"@] + Seq::<Seq<char>>::empty());
    while i < paths.len()
        invariant
            i <= paths@.len(),
            command@ == stage_paths_view(
                repo.workdir@,
                paths@.take(i as int).map_values(|p: String| p@),
            ),
        decreases paths@.len() - i,
    {
        command = command.arg(paths[i].as_str());
        assert(paths@.take(i + 1).map_values(|p: String| p@) =~= paths@.take(i as int).map_values(
            |p: String| p@,
        ).push(paths@[i as int]@));
        assert(command@.args =~= stage_paths_view(
            repo.workdir@,
            paths@.take(i + 1).map_values(|p: String| p@),
        ).args);
        i += 1;
    }
    assert(paths@.take(paths@.len() as int) =~= paths@);
    command
}

/// The command that commits the staged changes with `message`.
pub fn commit_command(repo: &Repository, message: &str) -> (c: GitCommand)
    ensures
        c@ == commit_view(repo.workdir@, message@),
{
    let c = repo.git("commit").arg("-m").arg(message);
    assert(c@.args =~= commit_view(repo.workdir@, message@).args);
    c
}

/// Whether porcelain v1 `-z` text can be read: every entry read as a change
/// has its path start on a character boundary.
pub fn porcelain_readable(raw: &str) -> (r: bool)
    ensures
        r == entries_readable(nul_entries(raw@)),
{
    let chars = chars_of(raw);
    let entries = split_nul(chars.as_slice());
    let ghost es = views(entries@);
    let mut i: usize = 0;
    assert(es.subrange(0, es.len() as int) =~= es);
    while i < entries.len()
        invariant
            es == views(entries@),
            es == nul_entries(raw@),
            i <= es.len(),
            entries_readable(es) == entries_readable(es.subrange(i as int, es.len() as int)),
        decreases es.len() - i,
    {
        let ghost rest = es.subrange(i as int, es.len() as int);
        assert(rest[0] == entries@[i as int]@);
        let text = string_from(entries[i].as_slice());
        let bytes = text.as_str().as_bytes();
        if bytes.len() < 3 {
            assert(rest.drop_first() =~= es.subrange(i + 1, es.len() as int));
            i += 1;
        } else {
            if !text.as_str().is_char_boundary(3) {
                return false;
            }
            let first = bytes[0] as char;
            if (first == 'R' || first == 'C') && i + 1 < entries.len() {
                assert(entries_after(rest) =~= es.subrange(i + 2, es.len() as int));
                i += 2;
            } else {
                assert(entries_after(rest) =~= es.subrange(i + 1, es.len() as int));
                i += 1;
            }
        }
    }
    assert(es.subrange(es.len() as int, es.len() as int) =~= Seq::<Seq<char>>::empty());
    true
}

/// Whether a reply's output can be read as porcelain v1 `-z` text.
pub open spec fn reply_readable(reply: ReplyView) -> bool {
    match reply {
        ReplyView::Ran(o, _) => entries_readable(nul_entries(o.stdout)),
        _ => true,
    }
}

impl CommitPlan {
    /// The `git status --porcelain=v1 -z --untracked-files=all` command whose
    /// output the plan is made from.
    pub fn inspect(repo: &Repository) -> (c: GitCommand)
        ensures
            c@ == changes_view(repo.workdir@),
    {
        changes_command(repo)
    }

    /// The plan the reply to [`CommitPlan::inspect`] describes, or Git's error.
    pub fn from_reply(repo: &Repository, reply: Reply) -> (r: Result<Self, GitError>)
        requires
            git_reply(reply@),
            reply_readable(reply@),
        ensures
            match output_outcome(changes_view(repo.workdir@), reply@) {
                Ok(raw) => r matches Ok(p) && changes_match(p.changes@, parse_porcelain_spec(raw))
                    && groups_of(plan_groups(p), unstaged_paths(p.changes@)),
                Err(e) => r matches Err(x) && x@ == e,
            },
    {
        let c = changes_command(repo);
        match output_of(&c, reply) {
            Ok(raw) => Ok(Self::from_porcelain(raw.as_str())),
            Err(e) => Err(e),
        }
    }
}

} // verus!
