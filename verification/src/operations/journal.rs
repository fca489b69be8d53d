//! The local operation journal.
//!
//! Every mutating Smoothee operation is recorded here so it can be undone,
//! recovered after a crash, and inspected for diagnostics. The journal is a
//! human-readable JSON-lines file stored inside the repository's `.git`
//! directory (so it travels with the repo but never pollutes the working tree
//! or gets committed). Writing and reading the file, and the JSON encoding of
//! each record, are the binary's job; the records and what is made of them
//! are kept here.
//!
//! Records reference *restore refs* — real Git refs created before a risky
//! operation — rather than storing any private snapshot format. Recovery always
//! flows back through standard Git.
use vstd::prelude::*;

use crate::git::commit::lex_lt;
use crate::text::{
    chars_of, digit_char, is_ws, lines, opt_view, owned, push_decimal, push_str, split_lines,
    string_from, views, decimal, is_whitespace,
};

verus! {

/// Lifecycle state of a journaled operation.
#[derive(Debug, Clone, Copy, PartialEq, Eq, Structural)]
pub enum OperationStatus {
    /// Recorded before the mutation; not yet known to have finished.
    Started,
    /// Finished successfully.
    Completed,
    /// Attempted but failed; the restore ref (if any) is the way back.
    Failed,
    /// Reverted via `undo`.
    UndoneByUser,
}

/// The repository state captured before an operation runs.
#[derive(Debug, Clone, PartialEq, Eq)]
pub struct BeforeState {
    /// HEAD commit prior to the operation.
    pub head: String,
    /// A Git ref pinning the pre-operation state, if one was created.
    pub restore_ref: Option<String>,
}

/// The repository state captured after an operation completes.
#[derive(Debug, Clone, PartialEq, Eq)]
pub struct AfterState {
    /// HEAD commit after the operation.
    pub head: String,
}

/// A point in time: seconds and nanoseconds since the Unix epoch, UTC.
#[derive(Debug, Clone, Copy, PartialEq, Eq)]
pub struct Timestamp {
    pub secs: i64,
    pub nanos: u32,
}

/// A single journal record.
#[derive(Debug, Clone, PartialEq, Eq)]
pub struct OperationRecord {
    /// Unique, sortable operation id (`op_<millis>_<counter>`).
    pub id: String,
    /// Operation kind, e.g. `sync_rebase`, `resolve`, `undo`.
    pub kind: String,
    /// Absolute path of the repository the operation ran in.
    pub repository: String,
    /// Branch the operation acted on.
    pub branch: String,
    /// When the operation began.
    pub started_at: Timestamp,
    pub before: BeforeState,
    /// Present once the operation has an outcome.
    pub after: Option<AfterState>,
    pub status: OperationStatus,
    /// For `undo` records, the id of the operation this one reverses. Lets the
    /// journal stay append-only: undoing an operation appends an `undo` record
    /// rather than rewriting the original line.
    pub undoes: Option<String>,
}

/// The mathematical content of an [`OperationRecord`].
pub struct RecordView {
    pub id: Seq<char>,
    pub kind: Seq<char>,
    pub repository: Seq<char>,
    pub branch: Seq<char>,
    pub started_at: Timestamp,
    pub before_head: Seq<char>,
    pub restore_ref: Option<Seq<char>>,
    pub after_head: Option<Seq<char>>,
    pub status: OperationStatus,
    pub undoes: Option<Seq<char>>,
}

impl View for OperationRecord {
    type V = RecordView;

    open spec fn view(&self) -> RecordView {
        RecordView {
            id: self.id@,
            kind: self.kind@,
            repository: self.repository@,
            branch: self.branch@,
            started_at: self.started_at,
            before_head: self.before.head@,
            restore_ref: opt_view(self.before.restore_ref),
            after_head: match self.after {
                Some(a) => Some(a.head@),
                None => None,
            },
            status: self.status,
            undoes: opt_view(self.undoes),
        }
    }
}

pub open spec fn record_views(v: Seq<OperationRecord>) -> Seq<RecordView> {
    v.map_values(|r: OperationRecord| r@)
}

/// The system clock as whole seconds and nanoseconds since the Unix epoch
/// (`SystemTime::now().duration_since(UNIX_EPOCH)`), or zero when the clock
/// reads before the epoch. It reads the clock, so only what holds of every
/// reading is stated: the nanoseconds are below one second, as
/// `Duration::subsec_nanos` documents.
#[verifier::external_body]
pub(crate) fn system_clock() -> (r: (u64, u32))
    ensures
        r.1 < 1_000_000_000,
{
    match std::time::SystemTime::now().duration_since(std::time::UNIX_EPOCH) {
        Ok(d) => (d.as_secs(), d.subsec_nanos()),
        Err(_) => (0, 0),
    }
}

/// The current time, as seconds and nanoseconds since the Unix epoch (what
/// `chrono::Utc::now()` gives, without its panic on a clock set before the
/// epoch: such a clock reads as the epoch). Seconds past `i64::MAX` read as
/// `i64::MAX`.
pub(crate) fn utc_now() -> (t: Timestamp)
    ensures
        t.secs >= 0,
        t.nanos < 1_000_000_000,
{
    let (secs, nanos) = system_clock();
    let max: u64 = 0x7fff_ffff_ffff_ffff;
    let s: i64 = if secs > max {
        0x7fff_ffff_ffff_ffff
    } else {
        secs as i64
    };
    Timestamp { secs: s, nanos }
}

fn copy_opt(o: &Option<String>) -> (r: Option<String>)
    ensures
        opt_view(r) == opt_view(*o),
{
    match o {
        Some(s) => Some(s.clone()),
        None => None,
    }
}

impl OperationRecord {
    /// Begin a new record with id `id` in the [`OperationStatus::Started`]
    /// state, stamped `started_at`.
    pub fn begin_at(
        id: &str,
        kind: &str,
        repository: &str,
        branch: &str,
        before: BeforeState,
        started_at: Timestamp,
    ) -> (r: Self)
        ensures
            r@ == (RecordView {
                id: id@,
                kind: kind@,
                repository: repository@,
                branch: branch@,
                started_at,
                before_head: before.head@,
                restore_ref: opt_view(before.restore_ref),
                after_head: None,
                status: OperationStatus::Started,
                undoes: None,
            }),
    {
        OperationRecord {
            id: owned(id),
            kind: owned(kind),
            repository: owned(repository),
            branch: owned(branch),
            started_at,
            before,
            after: None,
            status: OperationStatus::Started,
            undoes: None,
        }
    }

    /// Begin a new record with id `id` in the [`OperationStatus::Started`]
    /// state, stamped with the current time.
    pub fn begin(id: &str, kind: &str, repository: &str, branch: &str, before: BeforeState) -> (r:
        Self)
        ensures
            r@.id == id@,
            r@.kind == kind@,
            r@.repository == repository@,
            r@.branch == branch@,
            r@.before_head == before.head@,
            r@.restore_ref == opt_view(before.restore_ref),
            r@.after_head.is_none(),
            r@.status == OperationStatus::Started,
            r@.undoes.is_none(),
    {
        Self::begin_at(id, kind, repository, branch, before, utc_now())
    }

    /// Build a completed `undo` record, with id `id` and stamped
    /// `started_at`, that reverses `target`.
    ///
    /// `undo_from` is the HEAD the branch was at before the restore; the
    /// resulting HEAD is `target`'s pre-operation HEAD, which `undo` returns to.
    pub fn undo_at(id: &str, target: &OperationRecord, undo_from: &str, started_at: Timestamp) -> (r:
        Self)
        ensures
            r@ == (RecordView {
                id: id@,
                kind: "undo"@,
                repository: target@.repository,
                branch: target@.branch,
                started_at,
                before_head: undo_from@,
                restore_ref: None,
                after_head: Some(target@.before_head),
                status: OperationStatus::Completed,
                undoes: Some(target@.id),
            }),
    {
        OperationRecord {
            id: owned(id),
            kind: owned("undo"),
            repository: target.repository.clone(),
            branch: target.branch.clone(),
            started_at,
            before: BeforeState { head: owned(undo_from), restore_ref: None },
            after: Some(AfterState { head: target.before.head.clone() }),
            status: OperationStatus::Completed,
            undoes: Some(target.id.clone()),
        }
    }

    /// Build a completed `undo` record, with id `id`, that reverses `target`,
    /// stamped with the current time.
    pub fn undo(id: &str, target: &OperationRecord, undo_from: &str) -> (r: Self)
        ensures
            r@.id == id@,
            r@.kind == "undo"@,
            r@.repository == target@.repository,
            r@.branch == target@.branch,
            r@.before_head == undo_from@,
            r@.restore_ref.is_none(),
            r@.after_head == Some(target@.before_head),
            r@.status == OperationStatus::Completed,
            r@.undoes == Some(target@.id),
    {
        Self::undo_at(id, target, undo_from, utc_now())
    }

    /// Mark the record completed, recording the resulting HEAD.
    pub fn complete(self, after_head: &str) -> (r: Self)
        ensures
            r@ == (RecordView {
                after_head: Some(after_head@),
                status: OperationStatus::Completed,
                ..self@
            }),
    {
        OperationRecord {
            after: Some(AfterState { head: owned(after_head) }),
            status: OperationStatus::Completed,
            ..self
        }
    }

    /// Mark the record failed.
    pub fn fail(self) -> (r: Self)
        ensures
            r@ == (RecordView { status: OperationStatus::Failed, ..self@ }),
    {
        OperationRecord { status: OperationStatus::Failed, ..self }
    }

    /// A copy of the record.
    pub fn duplicate(&self) -> (r: Self)
        ensures
            r@ == self@,
    {
        OperationRecord {
            id: self.id.clone(),
            kind: self.kind.clone(),
            repository: self.repository.clone(),
            branch: self.branch.clone(),
            started_at: self.started_at,
            before: BeforeState {
                head: self.before.head.clone(),
                restore_ref: copy_opt(&self.before.restore_ref),
            },
            after: match &self.after {
                Some(a) => Some(AfterState { head: a.head.clone() }),
                None => None,
            },
            status: self.status,
            undoes: copy_opt(&self.undoes),
        }
    }
}

/// Completing a record keeps everything it recorded before the operation,
/// and a completed undo record returns the branch to the head its target
/// started from.
pub proof fn complete_keeps_before_state(r: RecordView, after_head: Seq<char>)
    ensures
        (RecordView {
            after_head: Some(after_head),
            status: OperationStatus::Completed,
            ..r
        }).before_head == r.before_head,
        (RecordView {
            after_head: Some(after_head),
            status: OperationStatus::Completed,
            ..r
        }).restore_ref == r.restore_ref,
{
}

// ---------------------------------------------------------------------------
// Operation ids
// ---------------------------------------------------------------------------

/// `d` padded on the left with `'0'` to at least `width` characters, as the
/// `{:0width$}` format does.
pub open spec fn zero_pad(d: Seq<char>, width: nat) -> Seq<char> {
    if d.len() >= width {
        d
    } else {
        Seq::new((width - d.len()) as nat, |_i: int| '0') + d
    }
}

/// `op_<millis, 13 digits>_<counter, 4 digits>`.
pub open spec fn operation_id(millis: nat, counter: nat) -> Seq<char> {
    "op_"@ + zero_pad(decimal(millis), 13) + "_"@ + zero_pad(decimal(counter), 4)
}

/// `10` to the power `w`.
pub open spec fn pow10(w: nat) -> nat
    decreases w,
{
    if w == 0 {
        1
    } else {
        10 * pow10((w - 1) as nat)
    }
}

/// The last `w` decimal digits of `n`, most significant first.
pub open spec fn digits(n: nat, w: nat) -> Seq<char>
    decreases w,
{
    if w == 0 {
        seq![]
    } else {
        digits(n / 10, (w - 1) as nat).push(digit_char(n % 10))
    }
}

proof fn lemma_digits_len(n: nat, w: nat)
    ensures
        digits(n, w).len() == w,
    decreases w,
{
    if w > 0 {
        lemma_digits_len(n / 10, (w - 1) as nat);
    }
}

proof fn lemma_digits_zero(w: nat)
    ensures
        digits(0, w) == Seq::new(w, |_i: int| '0'),
    decreases w,
{
    if w > 0 {
        lemma_digits_zero((w - 1) as nat);
        assert(digits(0, w) =~= Seq::new(w, |_i: int| '0'));
    }
}

proof fn lemma_digits_pad(n: nat, w: nat)
    requires
        n < pow10(w),
        w > 0,
    ensures
        decimal(n).len() <= w,
        digits(n, w) == Seq::new((w - decimal(n).len()) as nat, |_i: int| '0') + decimal(n),
    decreases w,
{
    if n < 10 {
        lemma_digits_zero((w - 1) as nat);
        assert(n / 10 == 0);
        assert(n % 10 == n);
        assert(decimal(n) == seq![digit_char(n)]);
        assert(digits(n, w) =~= Seq::new((w - 1) as nat, |_i: int| '0') + decimal(n));
    } else {
        assert(n / 10 < pow10((w - 1) as nat));
        assert(w - 1 > 0) by {
            if w == 1 {
                assert(pow10(0) == 1);
            }
        }
        lemma_digits_pad(n / 10, (w - 1) as nat);
        assert(decimal(n) == decimal(n / 10).push(digit_char(n % 10)));
        assert(digits(n, w) =~= Seq::new((w - decimal(n).len()) as nat, |_i: int| '0')
            + decimal(n));
    }
}

proof fn lemma_zero_pad_digits(n: nat, w: nat)
    requires
        n < pow10(w),
        w > 0,
    ensures
        zero_pad(decimal(n), w) == digits(n, w),
{
    lemma_digits_pad(n, w);
    if decimal(n).len() == w {
        assert(Seq::new(0, |_i: int| '0') + decimal(n) =~= decimal(n));
    }
}

proof fn lemma_lex_extend(a: Seq<char>, b: Seq<char>, s: Seq<char>, t: Seq<char>)
    requires
        lex_lt(a, b),
        a.len() == b.len(),
    ensures
        lex_lt(a + s, b + t),
    decreases a.len(),
{
    assert(a.len() > 0);
    assert((a + s)[0] == a[0]);
    assert((b + t)[0] == b[0]);
    if a[0] == b[0] {
        assert((a + s).drop_first() =~= a.drop_first() + s);
        assert((b + t).drop_first() =~= b.drop_first() + t);
        lemma_lex_extend(a.drop_first(), b.drop_first(), s, t);
    }
}

proof fn lemma_lex_prefix(p: Seq<char>, a: Seq<char>, b: Seq<char>)
    requires
        lex_lt(a, b),
    ensures
        lex_lt(p + a, p + b),
    decreases p.len(),
{
    if p.len() > 0 {
        assert((p + a)[0] == p[0]);
        assert((p + b)[0] == p[0]);
        assert((p + a).drop_first() =~= p.drop_first() + a);
        assert((p + b).drop_first() =~= p.drop_first() + b);
        lemma_lex_prefix(p.drop_first(), a, b);
    } else {
        assert(p + a =~= a);
        assert(p + b =~= b);
    }
}

proof fn lemma_digit_order(x: nat, y: nat)
    requires
        x < y < 10,
    ensures
        (digit_char(x) as u32) < (digit_char(y) as u32),
{
}

proof fn lemma_digits_order(n1: nat, n2: nat, w: nat)
    requires
        n1 < n2 < pow10(w),
    ensures
        lex_lt(digits(n1, w), digits(n2, w)),
    decreases w,
{
    if w == 0 {
        assert(false);
    } else {
        let w1 = (w - 1) as nat;
        assert(n2 / 10 < pow10(w1));
        assert(n1 / 10 <= n2 / 10);
        lemma_digits_len(n1 / 10, w1);
        lemma_digits_len(n2 / 10, w1);
        let d1 = seq![digit_char(n1 % 10)];
        let d2 = seq![digit_char(n2 % 10)];
        assert(digits(n1, w) =~= digits(n1 / 10, w1) + d1);
        assert(digits(n2, w) =~= digits(n2 / 10, w1) + d2);
        if n1 / 10 < n2 / 10 {
            lemma_digits_order(n1 / 10, n2 / 10, w1);
            lemma_lex_extend(digits(n1 / 10, w1), digits(n2 / 10, w1), d1, d2);
        } else {
            assert(n1 % 10 < n2 % 10);
            lemma_digit_order(n1 % 10, n2 % 10);
            assert(lex_lt(d1, d2)) by {
                assert(d1[0] != d2[0]);
            }
            lemma_lex_prefix(digits(n1 / 10, w1), d1, d2);
        }
    }
}

/// Operation ids sort chronologically: an operation recorded at an earlier
/// millisecond sorts before one recorded later, whatever their counters,
/// and within one millisecond the lower counter sorts first. This holds
/// while the time fits the thirteen digits of the id (until the year 2286)
/// and, within one millisecond, while the counters fit its four.
pub proof fn ids_sort_chronologically(m1: nat, c1: nat, m2: nat, c2: nat)
    requires
        m1 < pow10(13),
        m2 < pow10(13),
        m1 < m2 || (m1 == m2 && c1 < c2 && c2 < pow10(4)),
    ensures
        lex_lt(operation_id(m1, c1), operation_id(m2, c2)),
{
    lemma_zero_pad_digits(m1, 13);
    lemma_zero_pad_digits(m2, 13);
    let p = "op_"@;
    let x1 = digits(m1, 13);
    let x2 = digits(m2, 13);
    let y1 = "_"@ + zero_pad(decimal(c1), 4);
    let y2 = "_"@ + zero_pad(decimal(c2), 4);
    assert(operation_id(m1, c1) =~= p + (x1 + y1));
    assert(operation_id(m2, c2) =~= p + (x2 + y2));
    if m1 < m2 {
        lemma_digits_order(m1, m2, 13);
        lemma_digits_len(m1, 13);
        lemma_digits_len(m2, 13);
        lemma_lex_extend(x1, x2, y1, y2);
    } else {
        lemma_zero_pad_digits(c1, 4);
        lemma_zero_pad_digits(c2, 4);
        lemma_digits_order(c1, c2, 4);
        lemma_lex_prefix("_"@, digits(c1, 4), digits(c2, 4));
        lemma_lex_prefix(x1, y1, y2);
    }
    lemma_lex_prefix(p, x1 + y1, x2 + y2);
}

proof fn lemma_lex_irreflexive(a: Seq<char>)
    ensures
        !lex_lt(a, a),
    decreases a.len(),
{
    if a.len() > 0 {
        lemma_lex_irreflexive(a.drop_first());
    }
}

/// Two ids taken one after the other from one source differ and sort in
/// order, as long as the clock did not go back between them (`m1 <= m2`),
/// the time fits the id's thirteen digits, and, when both calls fell in the
/// same millisecond, the second counter still fits four digits.
pub proof fn successive_ids_sort_in_order(m1: nat, m2: nat, c: nat)
    requires
        m1 <= m2 < pow10(13),
        m1 < m2 || c + 1 < pow10(4),
    ensures
        lex_lt(operation_id(m1, c), operation_id(m2, c + 1)),
        operation_id(m1, c) != operation_id(m2, c + 1),
{
    ids_sort_chronologically(m1, c, m2, c + 1);
    lemma_lex_irreflexive(operation_id(m1, c));
}

fn push_padded(s: &mut String, n: u64, width: usize)
    ensures
        final(s)@ == old(s)@ + zero_pad(decimal(n as nat), width as nat),
{
    let mut digits = String::new();
    push_decimal(&mut digits, n);
    assert(digits@ =~= decimal(n as nat));
    let len = chars_of(digits.as_str()).len();
    let mut k = len;
    let ghost start = s@;
    while k < width
        invariant
            len == decimal(n as nat).len(),
            len <= k,
            len < width ==> k <= width,
            len >= width ==> k == len,
            s@ == start + Seq::new((k - len) as nat, |_i: int| '0'),
        decreases width - k,
    {
        crate::text::push_char(s, '0');
        k += 1;
        assert(s@ =~= start + Seq::new((k - len) as nat, |_i: int| '0'));
    }
    push_str(s, digits.as_str());
    if len >= width {
        assert(Seq::new((k - len) as nat, |_i: int| '0') =~= Seq::<char>::empty());
        assert(s@ =~= start + zero_pad(decimal(n as nat), width as nat));
    } else {
        assert(k == width);
        assert(s@ =~= start + zero_pad(decimal(n as nat), width as nat));
    }
}

/// The id of the operation recorded at Unix time `millis` (milliseconds) as
/// the `counter`-th of its process: `op_<millis:013>_<counter:04>`.
/// Millisecond time keeps ids chronologically sortable; the counter
/// disambiguates operations recorded within the same millisecond.
pub fn format_operation_id(millis: u64, counter: u64) -> (r: String)
    ensures
        r@ == operation_id(millis as nat, counter as nat),
{
    let mut r = owned("op_");
    push_padded(&mut r, millis, 13);
    push_str(&mut r, "_");
    push_padded(&mut r, counter, 4);
    r
}

/// Milliseconds since the Unix epoch on the system clock
/// (`SystemTime::now().duration_since(UNIX_EPOCH)`, 0 before the epoch).
/// It reads the clock, so nothing is stated of it.
#[verifier::external_body]
fn unix_millis() -> u64 {
    std::time::SystemTime::now()
        .duration_since(std::time::UNIX_EPOCH)
        .map(|d| d.as_millis() as u64)
        .unwrap_or(0)
}

/// A source of operation ids for one process: `op_<unix_millis>_<counter>`.
/// Millisecond time keeps ids chronologically sortable; the counter
/// disambiguates operations recorded within the same millisecond. The
/// milliseconds the last id was made with are kept as ghost state, so two
/// ids from one source can be compared (see [`successive_ids_sort_in_order`]).
pub struct IdSource {
    pub counter: u64,
    pub last_millis: Ghost<nat>,
}

impl IdSource {
    /// A source whose first id carries counter 0.
    pub fn new() -> (r: Self)
        ensures
            r.counter == 0,
    {
        IdSource { counter: 0, last_millis: Ghost(0) }
    }

    /// The next id: the current time, in milliseconds since the epoch, with
    /// this source's counter, which then moves on by one (wrapping). The
    /// time is kept as `last_millis`.
    pub fn next_id(&mut self) -> (r: String)
        ensures
            r@ == operation_id(final(self).last_millis@, old(self).counter as nat),
            final(self).last_millis@ < 0x1_0000_0000_0000_0000,
            final(self).counter == old(self).counter.wrapping_add(1),
    {
        let millis = unix_millis();
        let r = format_operation_id(millis, self.counter);
        self.last_millis = Ghost(millis as nat);
        self.counter = self.counter.wrapping_add(1);
        r
    }
}

// ---------------------------------------------------------------------------
// The journal
// ---------------------------------------------------------------------------

/// `base` joined with the relative path `part`, with one `/` between them.
pub open spec fn join_path(base: Seq<char>, part: Seq<char>) -> Seq<char> {
    if base.len() == 0 || base.last() == '/' {
        base + part
    } else {
        base + "/"@ + part
    }
}

/// Why the journal could not be written or read, as the binary reported it.
#[derive(Debug, Clone, PartialEq, Eq)]
pub struct JournalError {
    pub message: String,
}

/// Append-only, JSON-lines operation journal for one repository.
#[derive(Debug, Clone)]
pub struct Journal {
    pub path: String,
}

impl Journal {
    /// The journal file lives at `<git_dir>/smoothee/journal.jsonl`.
    pub fn for_git_dir(git_dir: &str) -> (j: Self)
        ensures
            j.path@ == join_path(git_dir@, "smoothee/journal.jsonl"@),
    {
        let dir = chars_of(git_dir);
        let mut path = owned(git_dir);
        if !(dir.len() == 0 || dir[dir.len() - 1] == '/') {
            push_str(&mut path, "/");
        }
        push_str(&mut path, "smoothee/journal.jsonl");
        Journal { path }
    }

    /// The on-disk path of the journal file.
    pub fn path(&self) -> (r: &str)
        ensures
            r@ == self.path@,
    {
        self.path.as_str()
    }
}

/// Whether a line holds nothing but whitespace.
pub open spec fn blank(line: Seq<char>) -> bool {
    forall|i: int| 0 <= i < line.len() ==> is_ws(#[trigger] line[i])
}

/// The lines of the journal text that hold a record: every line that is not
/// blank, in order.
pub open spec fn record_lines(ls: Seq<Seq<char>>) -> Seq<Seq<char>>
    decreases ls.len(),
{
    if ls.len() == 0 {
        seq![]
    } else if blank(ls.last()) {
        record_lines(ls.drop_last())
    } else {
        record_lines(ls.drop_last()).push(ls.last())
    }
}

fn is_blank(line: &Vec<char>) -> (r: bool)
    ensures
        r == blank(line@),
{
    let mut i: usize = 0;
    while i < line.len()
        invariant
            i <= line@.len(),
            forall|j: int| 0 <= j < i ==> is_ws(#[trigger] line@[j]),
        decreases line@.len() - i,
    {
        if !is_whitespace(line[i]) {
            return false;
        }
        i += 1;
    }
    true
}

/// The lines of journal text that each hold one record, in chronological
/// (append) order; blank lines are skipped.
pub fn journal_lines(text: &str) -> (r: Vec<String>)
    ensures
        r@.map_values(|s: String| s@) == record_lines(lines(text@)),
{
    let chars = chars_of(text);
    let ls = split_lines(&chars);
    let mut r: Vec<String> = Vec::new();
    let mut i: usize = 0;
    while i < ls.len()
        invariant
            views(ls@) == lines(text@),
            i <= ls@.len(),
            r@.map_values(|s: String| s@) == record_lines(views(ls@).take(i as int)),
        decreases ls@.len() - i,
    {
        let ghost pre = views(ls@).take(i as int);
        assert(views(ls@).take(i + 1).drop_last() =~= pre);
        assert(views(ls@).take(i + 1).last() == ls@[i as int]@);
        if !is_blank(&ls[i]) {
            r.push(string_from(ls[i].as_slice()));
            assert(r@.map_values(|s: String| s@) =~= record_lines(pre).push(ls@[i as int]@));
        }
        i += 1;
    }
    assert(views(ls@).take(ls@.len() as int) =~= views(ls@));
    r
}

/// The index in `ops` of the operation with id `id`, if any.
pub open spec fn index_of_id(ops: Seq<RecordView>, id: Seq<char>) -> Option<int> {
    if exists|k: int| 0 <= k < ops.len() && #[trigger] ops[k].id == id {
        Some(choose|k: int| 0 <= k < ops.len() && #[trigger] ops[k].id == id)
    } else {
        None
    }
}

/// The journal folded to one record per operation id — the latest state of
/// each — in the order the operations first appeared.
pub open spec fn fold_operations(rs: Seq<RecordView>) -> Seq<RecordView>
    decreases rs.len(),
{
    if rs.len() == 0 {
        seq![]
    } else {
        let prev = fold_operations(rs.drop_last());
        match index_of_id(prev, rs.last().id) {
            Some(k) => prev.update(k, rs.last()),
            None => prev.push(rs.last()),
        }
    }
}

/// No two operations in a sequence share an id.
pub open spec fn distinct_ids(ops: Seq<RecordView>) -> bool {
    forall|i: int, j: int| 0 <= i < j < ops.len() ==> ops[i].id != ops[j].id
}

/// Folding leaves one operation per id.
pub proof fn folded_ids_are_distinct(rs: Seq<RecordView>)
    ensures
        distinct_ids(fold_operations(rs)),
    decreases rs.len(),
{
    if rs.len() > 0 {
        folded_ids_are_distinct(rs.drop_last());
        let prev = fold_operations(rs.drop_last());
        let r = rs.last();
        match index_of_id(prev, r.id) {
            Some(k) => {
                let next = prev.update(k, r);
                assert forall|i: int, j: int| 0 <= i < j < next.len() implies next[i].id
                    != next[j].id by {
                    if i != k && j != k {
                        assert(next[i] == prev[i] && next[j] == prev[j]);
                    }
                }
            },
            None => {},
        }
    }
}

/// Every record ends up represented: after folding, the operation with a
/// record's id is the latest record with that id.
pub proof fn folded_keeps_latest(rs: Seq<RecordView>)
    requires
        rs.len() > 0,
    ensures
        fold_operations(rs).contains(rs.last()),
{
    let prev = fold_operations(rs.drop_last());
    match index_of_id(prev, rs.last().id) {
        Some(k) => {
            assert(prev.update(k, rs.last())[k] == rs.last());
        },
        None => {
            assert(prev.push(rs.last())[prev.len() as int] == rs.last());
        },
    }
}

/// The operation ids of `rs`, each once, in the order they first appear.
pub open spec fn first_appearance(rs: Seq<RecordView>) -> Seq<Seq<char>>
    decreases rs.len(),
{
    if rs.len() == 0 {
        seq![]
    } else {
        let p = first_appearance(rs.drop_last());
        if p.contains(rs.last().id) {
            p
        } else {
            p.push(rs.last().id)
        }
    }
}

/// The ids of `ops`, in order.
pub open spec fn ids_of(ops: Seq<RecordView>) -> Seq<Seq<char>> {
    ops.map_values(|r: RecordView| r.id)
}

/// Whether `r` is a record of `rs` after which no record with its id comes.
pub open spec fn is_last_with_its_id(rs: Seq<RecordView>, r: RecordView) -> bool {
    exists|j: int|
        0 <= j < rs.len() && rs[j] == r && forall|k: int| j < k < rs.len() ==> #[trigger] rs[k].id != r.id
}

proof fn lemma_ids_of_index(ops: Seq<RecordView>)
    ensures
        ids_of(ops).len() == ops.len(),
        forall|k: int| 0 <= k < ops.len() ==> #[trigger] ids_of(ops)[k] == ops[k].id,
{
}

proof fn lemma_fold_order(rs: Seq<RecordView>)
    ensures
        ids_of(fold_operations(rs)) == first_appearance(rs),
    decreases rs.len(),
{
    if rs.len() == 0 {
        assert(ids_of(fold_operations(rs)) =~= first_appearance(rs));
    } else {
        let d = rs.drop_last();
        let r = rs.last();
        lemma_fold_order(d);
        let p = fold_operations(d);
        let f = first_appearance(d);
        lemma_ids_of_index(p);
        match index_of_id(p, r.id) {
            Some(k) => {
                assert(f[k] == r.id);
                assert(f.contains(r.id));
                assert(ids_of(p.update(k, r)) =~= f);
            },
            None => {
                assert forall|k: int| 0 <= k < f.len() implies f[k] != r.id by {
                    assert(ids_of(p)[k] == p[k].id);
                }
                assert(!f.contains(r.id));
                assert(ids_of(p.push(r)) =~= f.push(r.id));
            },
        }
    }
}

proof fn lemma_still_last(d: Seq<RecordView>, r: RecordView, x: RecordView)
    requires
        is_last_with_its_id(d, x),
        x.id != r.id,
    ensures
        is_last_with_its_id(d.push(r), x),
{
    let j = choose|j: int|
        0 <= j < d.len() && d[j] == x && forall|m: int| j < m < d.len() ==> #[trigger] d[m].id != x.id;
    let e = d.push(r);
    assert(e[j] == x);
    assert forall|m: int| j < m < e.len() implies #[trigger] e[m].id != x.id by {
        if m < d.len() {
            assert(e[m] == d[m]);
        }
    }
}

proof fn lemma_pushed_is_last(d: Seq<RecordView>, r: RecordView)
    ensures
        is_last_with_its_id(d.push(r), r),
{
    let e = d.push(r);
    assert(e[d.len() as int] == r);
}

proof fn lemma_fold_latest(rs: Seq<RecordView>)
    ensures
        forall|i: int|
            0 <= i < fold_operations(rs).len() ==> is_last_with_its_id(
                rs,
                #[trigger] fold_operations(rs)[i],
            ),
    decreases rs.len(),
{
    if rs.len() > 0 {
        let d = rs.drop_last();
        let r = rs.last();
        assert(rs =~= d.push(r));
        lemma_fold_latest(d);
        folded_ids_are_distinct(d);
        let p = fold_operations(d);
        let next = fold_operations(rs);
        lemma_pushed_is_last(d, r);
        match index_of_id(p, r.id) {
            Some(k) => {
                assert forall|i: int| 0 <= i < next.len() implies is_last_with_its_id(
                    rs,
                    #[trigger] next[i],
                ) by {
                    if i != k {
                        assert(next[i] == p[i]);
                        assert(p[i].id != p[k].id);
                        lemma_still_last(d, r, p[i]);
                    }
                }
            },
            None => {
                assert forall|i: int| 0 <= i < next.len() implies is_last_with_its_id(
                    rs,
                    #[trigger] next[i],
                ) by {
                    if i < p.len() {
                        assert(next[i] == p[i]);
                        assert(p[i].id != r.id);
                        lemma_still_last(d, r, p[i]);
                    }
                }
            },
        }
    }
}

/// Folding the journal keeps the operations in the order their ids first
/// appear, and each operation is the last record appended with its id.
pub proof fn folded_in_first_order_each_latest(rs: Seq<RecordView>)
    ensures
        ids_of(fold_operations(rs)) == first_appearance(rs),
        forall|i: int|
            0 <= i < fold_operations(rs).len() ==> is_last_with_its_id(
                rs,
                #[trigger] fold_operations(rs)[i],
            ),
{
    lemma_fold_order(rs);
    lemma_fold_latest(rs);
}

/// The journal records folded to the latest record of each operation, in the
/// order the operations first appeared.
///
/// A mutating operation appends a `Started` line before it runs and a
/// `Completed`/`Failed` line after; folding presents the final outcome while
/// preserving operation ordering for `undo`.
pub fn operations(records: Vec<OperationRecord>) -> (r: Vec<OperationRecord>)
    ensures
        record_views(r@) == fold_operations(record_views(records@)),
{
    let mut folded: Vec<OperationRecord> = Vec::new();
    let mut i: usize = 0;
    let ghost rs = record_views(records@);
    let total = records.len();
    assert(rs.len() == total);
    let mut rest = records;
    // Records are taken from the front of the list in order.
    while rest.len() > 0
        invariant
            rs.len() == i + rest@.len(),
            rs.len() <= usize::MAX,
            record_views(rest@) == rs.subrange(i as int, rs.len() as int),
            record_views(folded@) == fold_operations(rs.take(i as int)),
        decreases rest@.len(),
    {
        let ghost old_rest = rest@;
        assert(record_views(old_rest)[0] == old_rest[0]@);
        assert(rs.subrange(i as int, rs.len() as int)[0] == rs[i as int]);
        let record = rest.remove(0);
        let ghost pre = rs.take(i as int);
        assert(rs.take(i + 1).drop_last() =~= pre);
        assert(record@ == rs[i as int]);
        assert(rest@ =~= old_rest.subrange(1, old_rest.len() as int));
        assert forall|j: int| 0 <= j < rest@.len() implies #[trigger] record_views(rest@)[j]
            == rs[i + 1 + j] by {
            assert(rest@[j] == old_rest[j + 1]);
            assert(record_views(old_rest)[j + 1] == rs.subrange(i as int, rs.len() as int)[j + 1]);
        }
        assert(record_views(rest@) =~= rs.subrange(i + 1, rs.len() as int));
        let ghost prev = record_views(folded@);
        // Find an earlier operation with the same id.
        let mut k: usize = 0;
        let mut found = false;
        while k < folded.len() && !found
            invariant
                prev == record_views(folded@),
                k <= folded@.len(),
                found ==> k < folded@.len() && prev[k as int].id == record@.id,
                !found ==> forall|m: int| 0 <= m < k ==> prev[m].id != record@.id,
            decreases folded@.len() - k + (if found {
                0int
            } else {
                1int
            }),
        {
            if folded[k].id == record.id {
                found = true;
            } else {
                k += 1;
            }
        }
        proof {
            if found {
                assert(prev[k as int].id == record@.id);
            }
        }
        if found {
            proof {
                // Ids are distinct in the fold, so the match is unique.
                folded_ids_are_distinct(pre);
                let c = choose|m: int| 0 <= m < prev.len() && #[trigger] prev[m].id == record@.id;
                assert(c == k);
            }
            folded.remove(k);
            folded.insert(k, record);
            assert(record_views(folded@) =~= prev.update(k as int, rs[i as int]));
        } else {
            folded.push(record);
            assert(record_views(folded@) =~= prev.push(rs[i as int]));
        }
        i += 1;
    }
    assert(rs.take(rs.len() as int) =~= rs);
    folded
}

/// The most recently appended record, if any.
pub fn latest(records: Vec<OperationRecord>) -> (r: Option<OperationRecord>)
    ensures
        records@.len() == 0 ==> r.is_none(),
        records@.len() > 0 ==> r == Some(records@.last()),
{
    let mut records = records;
    records.pop()
}

} // verus!
