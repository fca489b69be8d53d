//! Detecting leftover conflict markers in a resolved file.
//!
//! Part of the "validate before offering to the user" safety layer: after a
//! manual edit, Smoothee refuses to stage a file that still contains Git's
//! conflict markers, so a half-resolved conflict can never be committed by
//! accident.
//!
//! Detection keys on the bracket markers (`<<<<<<<`, `|||||||`, `>>>>>>>`),
//! which never occur in legitimate source. The bare `=======` separator is
//! deliberately *not* treated as a marker on its own: it collides with common
//! content (Markdown headings, ASCII rules), and a resolution that removes the
//! bracket markers but leaves a lone separator is not a realistic outcome.
use vstd::prelude::*;

use crate::git::conflicts::{
    is_marker, is_marker_spec, parse_conflicts, scan_line, scan_lines, scan_start, HunkView, Region,
    Scan,
};
use crate::text::{chars_of, lines, split_lines, views};

verus! {

/// Whether a single line is one of Git's bracket conflict markers.
pub open spec fn is_marker_line_spec(line: Seq<char>) -> bool {
    is_marker_spec(line, '<') || is_marker_spec(line, '|') || is_marker_spec(line, '>')
}

/// Whether some line of `content` is a bracket conflict marker.
pub open spec fn has_markers(content: Seq<char>) -> bool {
    exists|i: int| 0 <= i < lines(content).len() && is_marker_line_spec(#[trigger] lines(content)[i])
}

/// Whether a single line is one of Git's bracket conflict markers.
fn is_marker_line(line: &[char]) -> (r: bool)
    ensures
        r == is_marker_line_spec(line@),
{
    is_marker(line, '<') || is_marker(line, '|') || is_marker(line, '>')
}

/// Whether `content` still contains Git conflict markers.
pub fn has_conflict_markers(content: &str) -> (r: bool)
    ensures
        r == has_markers(content@),
{
    let chars = chars_of(content);
    let ls = split_lines(&chars);
    let mut i: usize = 0;
    while i < ls.len()
        invariant
            views(ls@) == lines(content@),
            i <= ls@.len(),
            forall|j: int| 0 <= j < i ==> !is_marker_line_spec(#[trigger] views(ls@)[j]),
        decreases ls@.len() - i,
    {
        if is_marker_line(ls[i].as_slice()) {
            assert(views(ls@)[i as int] == ls@[i as int]@);
            return true;
        }
        i += 1;
    }
    false
}

proof fn lemma_scan_stays_outside(ls: Seq<Seq<char>>)
    requires
        forall|i: int| 0 <= i < ls.len() ==> !is_marker_spec(#[trigger] ls[i], '<'),
    ensures
        scan_lines(ls) == scan_start(),
    decreases ls.len(),
{
    if ls.len() > 0 {
        assert forall|i: int| 0 <= i < ls.drop_last().len() implies !is_marker_spec(
            #[trigger] ls.drop_last()[i],
            '<',
        ) by {
            assert(ls.drop_last()[i] == ls[i]);
        }
        lemma_scan_stays_outside(ls.drop_last());
        assert(!is_marker_spec(ls[ls.len() - 1], '<'));
    }
}

/// Content that passes the leftover-marker check holds no conflict block:
/// parsing it finds no hunks.
pub proof fn clean_content_has_no_hunks(content: Seq<char>)
    requires
        !has_markers(content),
    ensures
        parse_conflicts(content).len() == 0,
{
    let ls = lines(content);
    assert forall|i: int| 0 <= i < ls.len() implies !is_marker_spec(#[trigger] ls[i], '<') by {
        assert(!is_marker_line_spec(ls[i]));
    }
    lemma_scan_stays_outside(ls);
}

/// Text in which no line opens a conflict block (starts with seven `<`)
/// parses to no hunks: context lines alone are never a conflict.
pub proof fn no_opening_marker_means_no_hunks(content: Seq<char>)
    requires
        forall|i: int|
            0 <= i < lines(content).len() ==> !is_marker_spec(#[trigger] lines(content)[i], '<'),
    ensures
        parse_conflicts(content) == Seq::<crate::git::conflicts::HunkView>::empty(),
{
    lemma_scan_stays_outside(lines(content));
    assert(parse_conflicts(content) =~= Seq::<crate::git::conflicts::HunkView>::empty());
}


/// The scanner run over `ls`, starting from `st`.
pub open spec fn scan_from(st: Scan, ls: Seq<Seq<char>>) -> Scan
    decreases ls.len(),
{
    if ls.len() == 0 {
        st
    } else {
        scan_line(scan_from(st, ls.drop_last()), ls.last())
    }
}

proof fn lemma_scan_from_concat(st: Scan, a: Seq<Seq<char>>, b: Seq<Seq<char>>)
    ensures
        scan_from(st, a + b) == scan_from(scan_from(st, a), b),
    decreases b.len(),
{
    if b.len() == 0 {
        assert(a + b =~= a);
    } else {
        assert((a + b).drop_last() =~= a + b.drop_last());
        assert((a + b).last() == b.last());
        lemma_scan_from_concat(st, a, b.drop_last());
    }
}

proof fn lemma_scan_one(st: Scan, line: Seq<char>)
    ensures
        scan_from(st, seq![line]) == scan_line(st, line),
{
    assert(seq![line].drop_last() =~= Seq::<Seq<char>>::empty());
    assert(scan_from(st, Seq::<Seq<char>>::empty()) == st);
}

proof fn lemma_scan_lines_from_start(ls: Seq<Seq<char>>)
    ensures
        scan_lines(ls) == scan_from(scan_start(), ls),
    decreases ls.len(),
{
    if ls.len() > 0 {
        lemma_scan_lines_from_start(ls.drop_last());
    }
}

proof fn lemma_scan_lines_concat(a: Seq<Seq<char>>, b: Seq<Seq<char>>)
    ensures
        scan_lines(a + b) == scan_from(scan_lines(a), b),
{
    lemma_scan_lines_from_start(a + b);
    lemma_scan_lines_from_start(a);
    lemma_scan_from_concat(scan_start(), a, b);
}

/// Whether no line of `ls` is a marker made of `ch`.
pub open spec fn free_of(ls: Seq<Seq<char>>, ch: char) -> bool {
    forall|i: int| 0 <= i < ls.len() ==> !is_marker_spec(#[trigger] ls[i], ch)
}

proof fn lemma_free_of_init(ls: Seq<Seq<char>>, ch: char)
    requires
        ls.len() > 0,
        free_of(ls, ch),
    ensures
        free_of(ls.drop_last(), ch),
        !is_marker_spec(ls.last(), ch),
{
    assert forall|i: int| 0 <= i < ls.drop_last().len() implies !is_marker_spec(
        #[trigger] ls.drop_last()[i],
        ch,
    ) by {
        assert(ls.drop_last()[i] == ls[i]);
    }
}

proof fn lemma_outside_run(st: Scan, ls: Seq<Seq<char>>)
    requires
        st.region == Region::Outside,
        free_of(ls, '<'),
    ensures
        scan_from(st, ls) == st,
    decreases ls.len(),
{
    if ls.len() > 0 {
        lemma_free_of_init(ls, '<');
        lemma_outside_run(st, ls.drop_last());
    }
}

proof fn lemma_ours_run(st: Scan, ls: Seq<Seq<char>>)
    requires
        st.region == Region::Ours,
        free_of(ls, '|'),
        free_of(ls, '='),
    ensures
        scan_from(st, ls) == (Scan { ours: st.ours + ls, ..st }),
    decreases ls.len(),
{
    if ls.len() == 0 {
        assert(st.ours + ls =~= st.ours);
    } else {
        lemma_free_of_init(ls, '|');
        lemma_free_of_init(ls, '=');
        lemma_ours_run(st, ls.drop_last());
        assert((st.ours + ls.drop_last()).push(ls.last()) =~= st.ours + ls);
    }
}

proof fn lemma_base_run(st: Scan, ls: Seq<Seq<char>>)
    requires
        st.region == Region::Base,
        free_of(ls, '='),
    ensures
        scan_from(st, ls) == (Scan { base: st.base + ls, ..st }),
    decreases ls.len(),
{
    if ls.len() == 0 {
        assert(st.base + ls =~= st.base);
    } else {
        lemma_free_of_init(ls, '=');
        lemma_base_run(st, ls.drop_last());
        assert((st.base + ls.drop_last()).push(ls.last()) =~= st.base + ls);
    }
}

proof fn lemma_theirs_run(st: Scan, ls: Seq<Seq<char>>)
    requires
        st.region == Region::Theirs,
        free_of(ls, '>'),
    ensures
        scan_from(st, ls) == (Scan { theirs: st.theirs + ls, ..st }),
    decreases ls.len(),
{
    if ls.len() == 0 {
        assert(st.theirs + ls =~= st.theirs);
    } else {
        lemma_free_of_init(ls, '>');
        lemma_theirs_run(st, ls.drop_last());
        assert((st.theirs + ls.drop_last()).push(ls.last()) =~= st.theirs + ls);
    }
}

/// The lines of one conflict block: the `<<<<<<<` line `open`, the lines of
/// the first side, for a diff3-style block the `|||||||` line `bar` and the
/// common-ancestor lines, the `=======` line `sep`, the lines of the second
/// side and the `>>>>>>>` line `close`.
pub open spec fn conflict_block(
    open: Seq<char>,
    ours: Seq<Seq<char>>,
    bar: Seq<char>,
    base: Option<Seq<Seq<char>>>,
    sep: Seq<char>,
    theirs: Seq<Seq<char>>,
    close: Seq<char>,
) -> Seq<Seq<char>> {
    let middle = match base {
        Some(b) => seq![bar] + b,
        None => seq![],
    };
    seq![open] + ours + middle + seq![sep] + theirs + seq![close]
}

/// Whether the parts of a block are shaped as Git writes them: each marker
/// line is a marker of its kind, and no content line could be read as the
/// marker that ends its part.
pub open spec fn well_formed_block(
    open: Seq<char>,
    ours: Seq<Seq<char>>,
    bar: Seq<char>,
    base: Option<Seq<Seq<char>>>,
    sep: Seq<char>,
    theirs: Seq<Seq<char>>,
    close: Seq<char>,
) -> bool {
    &&& is_marker_spec(open, '<')
    &&& free_of(ours, '|') && free_of(ours, '=')
    &&& base is Some ==> is_marker_spec(bar, '|') && free_of(base->0, '=')
    &&& is_marker_spec(sep, '=')
    &&& free_of(theirs, '>')
    &&& is_marker_spec(close, '>')
}

/// A complete conflict block read after text that ends outside any block
/// adds exactly its own hunk, after the hunks found so far: its first side,
/// its common-ancestor lines exactly when it has a `|||||||` part, and its
/// second side, without the marker lines. The scanner is then outside a
/// block again.
pub proof fn complete_block_adds_its_hunk(
    before: Seq<Seq<char>>,
    open: Seq<char>,
    ours: Seq<Seq<char>>,
    bar: Seq<char>,
    base: Option<Seq<Seq<char>>>,
    sep: Seq<char>,
    theirs: Seq<Seq<char>>,
    close: Seq<char>,
)
    requires
        scan_lines(before).region == Region::Outside,
        well_formed_block(open, ours, bar, base, sep, theirs, close),
    ensures
        scan_lines(before + conflict_block(open, ours, bar, base, sep, theirs, close)).region
            == Region::Outside,
        scan_lines(before + conflict_block(open, ours, bar, base, sep, theirs, close)).hunks
            == scan_lines(before).hunks.push(HunkView { ours, base, theirs }),
{
    let st0 = scan_lines(before);
    let middle = match base {
        Some(b) => seq![bar] + b,
        None => seq![],
    };
    let block = conflict_block(open, ours, bar, base, sep, theirs, close);
    lemma_scan_lines_concat(before, block);
    // Opening line.
    let st1 = scan_from(st0, seq![open]);
    lemma_scan_one(st0, open);
    assert(st1.region == Region::Ours && st1.ours == Seq::<Seq<char>>::empty());
    assert(st1.hunks == st0.hunks && st1.theirs == Seq::<Seq<char>>::empty());
    // First side.
    lemma_ours_run(st1, ours);
    let st2 = scan_from(st1, ours);
    assert(st1.ours + ours =~= ours);
    // Common-ancestor part, if any.
    let st3 = scan_from(st2, middle);
    match base {
        Some(b) => {
            lemma_scan_from_concat(st2, seq![bar], b);
            let sb = scan_from(st2, seq![bar]);
            lemma_scan_one(st2, bar);
            assert(sb.region == Region::Base && sb.have_base);
            lemma_base_run(sb, b);
            assert(sb.base + b =~= b);
        },
        None => {},
    }
    assert(st3.region == (if base is Some { Region::Base } else { Region::Ours }));
    assert(st3.ours == ours && st3.hunks == st0.hunks);
    assert(st3.have_base == base is Some);
    assert(st3.theirs == Seq::<Seq<char>>::empty());
    assert(base is Some ==> st3.base == base->0);
    // Separator, second side, closing line.
    let st4 = scan_from(st3, seq![sep]);
    lemma_scan_one(st3, sep);
    assert(!is_marker_spec(sep, '|')) by {
        assert(sep[0] == '=');
    }
    assert(st4.region == Region::Theirs && st4.theirs == Seq::<Seq<char>>::empty());
    lemma_theirs_run(st4, theirs);
    let st5 = scan_from(st4, theirs);
    assert(st4.theirs + theirs =~= theirs);
    let st6 = scan_from(st5, seq![close]);
    lemma_scan_one(st5, close);
    lemma_scan_from_concat(st0, seq![open], ours);
    lemma_scan_from_concat(st0, seq![open] + ours, middle);
    lemma_scan_from_concat(st0, seq![open] + ours + middle, seq![sep]);
    lemma_scan_from_concat(st0, seq![open] + ours + middle + seq![sep], theirs);
    lemma_scan_from_concat(st0, seq![open] + ours + middle + seq![sep] + theirs, seq![close]);
    assert(st6.hunks == st0.hunks.push(HunkView { ours, base, theirs }));
}

/// Lines that hold no `>>>>>>>` marker add no hunk, whatever state they are
/// read in: a block still open at the end of the text is no hunk.
pub proof fn unclosed_block_adds_no_hunk(before: Seq<Seq<char>>, rest: Seq<Seq<char>>)
    requires
        free_of(rest, '>'),
    ensures
        scan_lines(before + rest).hunks == scan_lines(before).hunks,
{
    lemma_scan_lines_concat(before, rest);
    lemma_no_close_keeps_hunks(scan_lines(before), rest);
}

proof fn lemma_no_close_keeps_hunks(st: Scan, ls: Seq<Seq<char>>)
    requires
        free_of(ls, '>'),
    ensures
        scan_from(st, ls).hunks == st.hunks,
    decreases ls.len(),
{
    if ls.len() > 0 {
        lemma_free_of_init(ls, '>');
        lemma_no_close_keeps_hunks(st, ls.drop_last());
    }
}

/// Context lines read outside a block, none of which opens one, change
/// nothing: they belong to no hunk.
pub proof fn context_lines_add_no_hunk(before: Seq<Seq<char>>, context: Seq<Seq<char>>)
    requires
        scan_lines(before).region == Region::Outside,
        free_of(context, '<'),
    ensures
        scan_lines(before + context) == scan_lines(before),
{
    lemma_scan_lines_concat(before, context);
    lemma_outside_run(scan_lines(before), context);
}

/// A file made of context lines, one well-formed conflict block and more
/// context lines parses to exactly that block's hunk.
pub proof fn one_block_parses_to_its_hunk(
    content: Seq<char>,
    before: Seq<Seq<char>>,
    open: Seq<char>,
    ours: Seq<Seq<char>>,
    bar: Seq<char>,
    base: Option<Seq<Seq<char>>>,
    sep: Seq<char>,
    theirs: Seq<Seq<char>>,
    close: Seq<char>,
    after: Seq<Seq<char>>,
)
    requires
        lines(content) == before + conflict_block(open, ours, bar, base, sep, theirs, close)
            + after,
        free_of(before, '<'),
        free_of(after, '<'),
        well_formed_block(open, ours, bar, base, sep, theirs, close),
    ensures
        parse_conflicts(content) == seq![HunkView { ours, base, theirs }],
{
    let block = conflict_block(open, ours, bar, base, sep, theirs, close);
    lemma_scan_stays_outside(before);
    complete_block_adds_its_hunk(before, open, ours, bar, base, sep, theirs, close);
    context_lines_add_no_hunk(before + block, after);
    assert(scan_lines(before).hunks =~= Seq::<HunkView>::empty());
    assert(Seq::<HunkView>::empty().push(HunkView { ours, base, theirs }) =~= seq![
        HunkView { ours, base, theirs },
    ]);
}

} // verus!
