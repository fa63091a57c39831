//! Extraction of fenced code blocks from markdown text.
//!
//! A block opens at a line made of three or more backticks followed by an
//! optional language tag (any backtick-free text), and closes at the next line
//! made solely of at least as many backticks. The block's content is the lines
//! strictly between the two fences, joined with newlines; the tag is
//! discarded. Text outside fence pairs and blocks left unterminated at the end
//! of the input contribute nothing.
use crate::text::{append_chars, str_to_chars, string_from_chars};
use vstd::prelude::*;

verus! {

/// The views of a sequence of character vectors.
pub open spec fn views_of(lines: Seq<Vec<char>>) -> Seq<Seq<char>> {
    lines.map_values(|l: Vec<char>| l@)
}

/// The views of a sequence of strings.
pub open spec fn string_views(blocks: Seq<String>) -> Seq<Seq<char>> {
    blocks.map_values(|b: String| b@)
}

// ---------------------------------------------------------------------------
// Splitting a document into lines
// ---------------------------------------------------------------------------
/// The lines of `s`, split at `'\n'` separators. A document always has at
/// least one (possibly empty) line; a trailing newline yields an empty final
/// line.
pub open spec fn lines_of(s: Seq<char>) -> Seq<Seq<char>>
    decreases s.len(),
{
    if s.len() == 0 {
        seq![Seq::<char>::empty()]
    } else if s[0] == '\n' {
        seq![Seq::<char>::empty()] + lines_of(s.skip(1))
    } else {
        let rest = lines_of(s.skip(1));
        seq![seq![s[0]] + rest[0]] + rest.skip(1)
    }
}

pub proof fn lemma_lines_of_nonempty(s: Seq<char>)
    ensures
        lines_of(s).len() >= 1,
    decreases s.len(),
{
    if s.len() == 0 {
    } else {
        lemma_lines_of_nonempty(s.skip(1));
    }
}

/// A newline-free document is a single line.
pub proof fn lemma_lines_of_single(p: Seq<char>)
    requires
        forall|i: int| 0 <= i < p.len() ==> p[i] != '\n',
    ensures
        lines_of(p) == seq![p],
    decreases p.len(),
{
    if p.len() == 0 {
        assert(p =~= Seq::<char>::empty());
        assert(lines_of(p) =~= seq![p]);
    } else {
        lemma_lines_of_single(p.skip(1));
        assert(seq![p[0]] + p.skip(1) =~= p);
        assert(lines_of(p) =~= seq![p]);
    }
}

/// Splitting at the first newline: a newline-free prefix is one whole line.
pub proof fn lemma_lines_of_split(p: Seq<char>, rest: Seq<char>)
    requires
        forall|i: int| 0 <= i < p.len() ==> p[i] != '\n',
    ensures
        lines_of(p + seq!['\n'] + rest) == seq![p] + lines_of(rest),
    decreases p.len(),
{
    let s = p + seq!['\n'] + rest;
    if p.len() == 0 {
        assert(p =~= Seq::<char>::empty());
        assert(s[0] == '\n');
        assert(s.skip(1) =~= rest);
        assert(lines_of(s) =~= seq![p] + lines_of(rest));
    } else {
        lemma_lines_of_split(p.skip(1), rest);
        lemma_lines_of_nonempty(rest);
        assert(s[0] == p[0]);
        assert(s[0] != '\n');
        assert(s.skip(1) =~= p.skip(1) + seq!['\n'] + rest);
        let inner = lines_of(s.skip(1));
        assert(inner == seq![p.skip(1)] + lines_of(rest));
        assert(inner[0] == p.skip(1));
        assert(seq![s[0]] + inner[0] =~= p);
        assert(inner.skip(1) =~= lines_of(rest));
        assert(lines_of(s) =~= seq![p] + lines_of(rest));
    }
}

// ---------------------------------------------------------------------------
// Fence lines
// ---------------------------------------------------------------------------
/// The number of leading backticks of a line.
pub open spec fn fence_len(line: Seq<char>) -> nat
    decreases line.len(),
{
    if line.len() == 0 || line[0] != '`' {
        0
    } else {
        1 + fence_len(line.skip(1))
    }
}

pub proof fn lemma_fence_len_facts(line: Seq<char>)
    ensures
        fence_len(line) <= line.len(),
        forall|m: int| 0 <= m < fence_len(line) ==> line[m] == '`',
        fence_len(line) < line.len() ==> line[fence_len(line) as int] != '`',
    decreases line.len(),
{
    if line.len() == 0 || line[0] != '`' {
    } else {
        lemma_fence_len_facts(line.skip(1));
        assert forall|m: int| 0 <= m < fence_len(line) implies line[m] == '`' by {
            if m >= 1 {
                assert(line.skip(1)[m - 1] == line[m]);
            }
        }
        if fence_len(line) < line.len() {
            assert(line.skip(1)[fence_len(line) - 1] == line[fence_len(line) as int]);
        }
    }
}

/// A line that opens a fenced block: three or more backticks, then an optional
/// language tag that contains no backtick.
pub open spec fn is_fence_open(line: Seq<char>) -> bool {
    fence_len(line) >= 3 && forall|i: int| fence_len(line) <= i < line.len() ==> line[i] != '`'
}

/// A line that closes a block opened by a fence of `open_len` backticks: made
/// solely of backticks, at least as many as the opening fence.
pub open spec fn is_fence_close(line: Seq<char>, open_len: nat) -> bool {
    line.len() >= open_len && forall|i: int| 0 <= i < line.len() ==> line[i] == '`'
}

/// The first line at or after `from` that closes a fence of `open_len`
/// backticks.
pub open spec fn find_close(lines: Seq<Seq<char>>, from: int, open_len: nat) -> Option<int>
    decreases lines.len() - from,
{
    if !(0 <= from < lines.len()) {
        None
    } else if is_fence_close(lines[from], open_len) {
        Some(from)
    } else {
        find_close(lines, from + 1, open_len)
    }
}

pub proof fn lemma_find_close_some(lines: Seq<Seq<char>>, from: int, open_len: nat, j: int)
    requires
        0 <= from <= j < lines.len(),
        is_fence_close(lines[j], open_len),
        forall|m: int| from <= m < j ==> !is_fence_close(#[trigger] lines[m], open_len),
    ensures
        find_close(lines, from, open_len) == Some(j),
    decreases j - from,
{
    if from < j {
        lemma_find_close_some(lines, from + 1, open_len, j);
    }
}

pub proof fn lemma_find_close_none(lines: Seq<Seq<char>>, from: int, open_len: nat)
    requires
        0 <= from,
        forall|m: int| from <= m < lines.len() ==> !is_fence_close(#[trigger] lines[m], open_len),
    ensures
        find_close(lines, from, open_len) is None,
    decreases lines.len() - from,
{
    if from < lines.len() {
        lemma_find_close_none(lines, from + 1, open_len);
    }
}

// ---------------------------------------------------------------------------
// Block extraction
// ---------------------------------------------------------------------------
/// The content lines of a block, joined with newline separators and no
/// trailing newline.
pub open spec fn join_lines(ls: Seq<Seq<char>>) -> Seq<char>
    decreases ls.len(),
{
    if ls.len() == 0 {
        Seq::<char>::empty()
    } else if ls.len() == 1 {
        ls[0]
    } else {
        ls[0] + seq!['\n'] + join_lines(ls.skip(1))
    }
}

pub proof fn lemma_join_lines_push(ls: Seq<Seq<char>>, x: Seq<char>)
    ensures
        ls.len() == 0 ==> join_lines(ls.push(x)) == x,
        ls.len() > 0 ==> join_lines(ls.push(x)) == join_lines(ls) + seq!['\n'] + x,
    decreases ls.len(),
{
    let e = ls.push(x);
    if ls.len() == 0 {
        assert(e[0] == x);
    } else if ls.len() == 1 {
        assert(e[0] == ls[0]);
        assert(e.skip(1) =~= seq![x]);
        assert(join_lines(e.skip(1)) == x);
    } else {
        lemma_join_lines_push(ls.skip(1), x);
        assert(e[0] == ls[0]);
        assert(e.skip(1) =~= ls.skip(1).push(x));
        assert(join_lines(e) == ls[0] + seq!['\n'] + (join_lines(ls.skip(1)) + seq!['\n'] + x));
        assert(ls[0] + seq!['\n'] + (join_lines(ls.skip(1)) + seq!['\n'] + x) =~= (ls[0]
            + seq!['\n'] + join_lines(ls.skip(1))) + seq!['\n'] + x);
    }
}

/// The code blocks of the given lines, from line `i` on: for each opening
/// fence, the verbatim content up to its matching close, in document order.
/// An opening fence with no matching close contributes nothing and ends the
/// scan, since every later line sits inside the unterminated block.
pub open spec fn extract_from(lines: Seq<Seq<char>>, i: int) -> Seq<Seq<char>>
    decreases lines.len() - i,
        via extract_from_decreases
{
    if !(0 <= i < lines.len()) {
        Seq::<Seq<char>>::empty()
    } else if is_fence_open(lines[i]) {
        match find_close(lines, i + 1, fence_len(lines[i])) {
            Some(j) => seq![join_lines(lines.subrange(i + 1, j))] + extract_from(lines, j + 1),
            None => Seq::<Seq<char>>::empty(),
        }
    } else {
        extract_from(lines, i + 1)
    }
}

proof fn lemma_find_close_bounds(lines: Seq<Seq<char>>, from: int, open_len: nat)
    ensures
        find_close(lines, from, open_len) matches Some(j) ==> from <= j < lines.len(),
    decreases lines.len() - from,
{
    if 0 <= from < lines.len() && !is_fence_close(lines[from], open_len) {
        lemma_find_close_bounds(lines, from + 1, open_len);
    }
}

#[via_fn]
proof fn extract_from_decreases(lines: Seq<Seq<char>>, i: int) {
    if 0 <= i < lines.len() && is_fence_open(lines[i]) {
        lemma_find_close_bounds(lines, i + 1, fence_len(lines[i]));
    }
}

/// The code blocks of a markdown document, per the fence-matching semantics of
/// this module.
pub open spec fn spec_extract(s: Seq<char>) -> Seq<Seq<char>> {
    extract_from(lines_of(s), 0)
}

/// A document in which no line begins with three backticks holds no fence
/// marker, so it yields no blocks.
pub proof fn lemma_no_fence_no_blocks(s: Seq<char>)
    requires
        forall|k: int| 0 <= k < lines_of(s).len() ==> fence_len(#[trigger] lines_of(s)[k]) < 3,
    ensures
        spec_extract(s).len() == 0,
{
    lemma_extract_from_no_open(lines_of(s), 0);
}

// ---------------------------------------------------------------------------
// Executable extractor
// ---------------------------------------------------------------------------
/// Splits a document into its lines.
fn split_lines(text: &Vec<char>) -> (r: Vec<Vec<char>>)
    ensures
        views_of(r@) == lines_of(text@),
{
    let n: usize = text.len();
    let mut done: Vec<Vec<char>> = Vec::new();
    let mut cur: Vec<char> = Vec::new();
    let mut i: usize = 0;
    proof {
        assert(cur@ + text@.skip(0) =~= text@);
        assert(views_of(done@) + lines_of(text@) =~~= lines_of(text@));
    }
    while i < n
        invariant
            i <= n == text@.len(),
            forall|m: int| 0 <= m < cur@.len() ==> cur@[m] != '\n',
            lines_of(text@) == views_of(done@) + lines_of(cur@ + text@.skip(i as int)),
        decreases n - i,
    {
        let c = text[i];
        if c == '\n' {
            proof {
                assert(cur@ + text@.skip(i as int) =~= cur@ + seq!['\n'] + text@.skip(i + 1));
                lemma_lines_of_split(cur@, text@.skip(i + 1));
                assert(views_of(done@.push(cur)) =~= views_of(done@).push(cur@));
                assert(views_of(done@) + (seq![cur@] + lines_of(text@.skip(i + 1))) =~~= views_of(
                    done@.push(cur),
                ) + lines_of(text@.skip(i + 1)));
            }
            done.push(cur);
            cur = Vec::new();
        } else {
            proof {
                assert(cur@ + text@.skip(i as int) =~= cur@.push(c) + text@.skip(i + 1));
            }
            cur.push(c);
        }
        i = i + 1;
    }
    proof {
        assert(cur@ + text@.skip(n as int) =~= cur@);
        lemma_lines_of_single(cur@);
        assert(views_of(done@.push(cur)) =~= views_of(done@).push(cur@));
        assert(views_of(done@) + seq![cur@] =~~= views_of(done@.push(cur)));
    }
    done.push(cur);
    done
}

/// The length of the opening fence of a line, or `None` if the line opens no
/// block.
fn fence_open_len(line: &Vec<char>) -> (r: Option<usize>)
    ensures
        r matches Some(k) ==> is_fence_open(line@) && k as nat == fence_len(line@),
        r is None ==> !is_fence_open(line@),
{
    proof {
        lemma_fence_len_facts(line@);
    }
    let n: usize = line.len();
    let mut k: usize = 0;
    while k < n && line[k] == '`'
        invariant
            k <= n == line@.len(),
            forall|m: int| 0 <= m < k ==> line@[m] == '`',
            fence_len(line@) <= line@.len(),
            forall|m: int| 0 <= m < fence_len(line@) ==> line@[m] == '`',
            fence_len(line@) < line@.len() ==> line@[fence_len(line@) as int] != '`',
        decreases n - k,
    {
        k = k + 1;
    }
    assert(k as nat == fence_len(line@));
    if k < 3 {
        return None;
    }
    let mut i: usize = k;
    while i < n
        invariant
            k <= i <= n == line@.len(),
            k as nat == fence_len(line@),
            forall|m: int| k <= m < i ==> line@[m] != '`',
        decreases n - i,
    {
        if line[i] == '`' {
            assert(!is_fence_open(line@));
            return None;
        }
        i = i + 1;
    }
    Some(k)
}

/// Whether a line closes a block whose opening fence had `open_len` backticks.
fn is_close_fence(line: &Vec<char>, open_len: usize) -> (r: bool)
    ensures
        r == is_fence_close(line@, open_len as nat),
{
    let n: usize = line.len();
    if n < open_len {
        return false;
    }
    let mut i: usize = 0;
    while i < n
        invariant
            i <= n == line@.len(),
            open_len <= n,
            forall|m: int| 0 <= m < i ==> line@[m] == '`',
        decreases n - i,
    {
        if line[i] != '`' {
            return false;
        }
        i = i + 1;
    }
    true
}

/// The lines `from..to`, joined with newline separators.
fn join_range(lines: &Vec<Vec<char>>, from: usize, to: usize) -> (r: Vec<char>)
    requires
        from <= to <= lines@.len(),
    ensures
        r@ == join_lines(views_of(lines@).subrange(from as int, to as int)),
{
    let ghost all = views_of(lines@);
    let mut r: Vec<char> = Vec::new();
    let mut m: usize = from;
    proof {
        assert(all.subrange(from as int, from as int) =~= Seq::<Seq<char>>::empty());
    }
    while m < to
        invariant
            from <= m <= to <= lines@.len(),
            all == views_of(lines@),
            r@ == join_lines(all.subrange(from as int, m as int)),
        decreases to - m,
    {
        proof {
            lemma_join_lines_push(all.subrange(from as int, m as int), all[m as int]);
            assert(all.subrange(from as int, m + 1) =~= all.subrange(from as int, m as int).push(
                all[m as int],
            ));
        }
        if m > from {
            r.push('\n');
        }
        append_chars(&mut r, &lines[m]);
        assert(all[m as int] == lines@[m as int]@);
        m = m + 1;
    }
    r
}

/// Extracts the fenced code blocks of a markdown document, in document order.
///
/// Each returned string is the verbatim content between an opening fence line
/// and its matching closing fence, the lines joined with newlines and the
/// language tag discarded. A document with no fence pair yields an empty
/// vector; an unterminated opening fence contributes no block.
pub fn extract_code_blocks(markdown_text: &str) -> (r: Vec<String>)
    ensures
        string_views(r@) == spec_extract(markdown_text@),
{
    let chars = str_to_chars(markdown_text);
    let lines = split_lines(&chars);
    let ghost all = views_of(lines@);
    let n: usize = lines.len();
    let mut blocks: Vec<String> = Vec::new();
    let mut i: usize = 0;
    proof {
        assert(string_views(blocks@) + extract_from(all, 0) =~~= extract_from(all, 0));
    }
    while i < n
        invariant
            i <= n == lines@.len(),
            all == views_of(lines@),
            all == lines_of(markdown_text@),
            extract_from(all, 0) == string_views(blocks@) + extract_from(all, i as int),
        decreases n - i,
    {
        let open = fence_open_len(&lines[i]);
        assert(lines@[i as int]@ == all[i as int]);
        match open {
            Some(k) => {
                let mut j: usize = i + 1;
                let mut close: Option<usize> = None;
                while j < n && close.is_none()
                    invariant
                        i + 1 <= j <= n == lines@.len(),
                        all == views_of(lines@),
                        k as nat == fence_len(all[i as int]),
                        close is None ==> forall|m: int|
                            i + 1 <= m < j ==> !is_fence_close(#[trigger] all[m], k as nat),
                        close matches Some(c)
                            ==> c == j && i + 1 <= c < n && is_fence_close(all[c as int], k as nat)
                            && forall|m: int|
                            i + 1 <= m < c ==> !is_fence_close(#[trigger] all[m], k as nat),
                    decreases n - j, (if close is None {
                        1int
                    } else {
                        0int
                    }),
                {
                    if is_close_fence(&lines[j], k) {
                        assert(lines@[j as int]@ == all[j as int]);
                        close = Some(j);
                    } else {
                        assert(lines@[j as int]@ == all[j as int]);
                        j = j + 1;
                    }
                }
                match close {
                    Some(c) => {
                        proof {
                            lemma_find_close_some(all, i + 1, k as nat, c as int);
                        }
                        let content = join_range(&lines, i + 1, c);
                        let block = string_from_chars(&content);
                        proof {
                            assert(string_views(blocks@.push(block)) =~= string_views(
                                blocks@,
                            ).push(block@));
                            assert(string_views(blocks@) + (seq![block@] + extract_from(
                                all,
                                c + 1,
                            )) =~~= string_views(blocks@.push(block)) + extract_from(all, c + 1));
                        }
                        blocks.push(block);
                        i = c + 1;
                    },
                    None => {
                        proof {
                            lemma_find_close_none(all, i + 1, k as nat);
                            assert(extract_from(all, i as int) =~~= Seq::<Seq<char>>::empty());
                            assert(extract_from(all, n as int) =~~= Seq::<Seq<char>>::empty());
                            assert(string_views(blocks@) + extract_from(all, n as int)
                                =~~= string_views(blocks@) + extract_from(all, i as int));
                        }
                        i = n;
                    },
                }
            },
            None => {
                assert(extract_from(all, i as int) == extract_from(all, i + 1));
                i = i + 1;
            },
        }
    }
    proof {
        assert(extract_from(all, n as int) =~~= Seq::<Seq<char>>::empty());
        assert(string_views(blocks@) + extract_from(all, n as int) =~~= string_views(blocks@));
    }
    blocks
}

proof fn lemma_extract_from_no_open(lines: Seq<Seq<char>>, i: int)
    requires
        0 <= i,
        forall|k: int| i <= k < lines.len() ==> fence_len(#[trigger] lines[k]) < 3,
    ensures
        extract_from(lines, i).len() == 0,
    decreases lines.len() - i,
{
    if i < lines.len() {
        assert(!is_fence_open(lines[i]));
        lemma_extract_from_no_open(lines, i + 1);
    }
}

proof fn lemma_extract_skip_non_open(lines: Seq<Seq<char>>, i: int, j: int)
    requires
        0 <= i <= j <= lines.len(),
        forall|m: int| i <= m < j ==> !is_fence_open(#[trigger] lines[m]),
    ensures
        extract_from(lines, i) == extract_from(lines, j),
    decreases j - i,
{
    if i < j {
        lemma_extract_skip_non_open(lines, i + 1, j);
    }
}

/// Law: two adjacent fenced blocks yield exactly their two contents, in
/// document order and with the fence lines — language tags included —
/// absent from the results. The blocks may carry any tags, and any lines
/// that open no block (a blank line among them) may stand between the two.
pub proof fn lemma_adjacent_blocks(
    open1: Seq<char>,
    body1: Seq<Seq<char>>,
    close1: Seq<char>,
    sep: Seq<Seq<char>>,
    open2: Seq<char>,
    body2: Seq<Seq<char>>,
    close2: Seq<char>,
)
    requires
        is_fence_open(open1),
        is_fence_close(close1, fence_len(open1)),
        forall|i: int| 0 <= i < body1.len() ==> !is_fence_close(#[trigger] body1[i], fence_len(open1)),
        is_fence_open(open2),
        is_fence_close(close2, fence_len(open2)),
        forall|i: int| 0 <= i < body2.len() ==> !is_fence_close(#[trigger] body2[i], fence_len(open2)),
        forall|i: int| 0 <= i < sep.len() ==> !is_fence_open(#[trigger] sep[i]),
    ensures
        extract_from(
            seq![open1] + body1 + seq![close1] + sep + seq![open2] + body2 + seq![close2],
            0,
        ) == seq![join_lines(body1), join_lines(body2)],
{
    let lines = seq![open1] + body1 + seq![close1] + sep + seq![open2] + body2 + seq![close2];
    let c1 = 1 + body1.len() as int;
    let o2 = c1 + 1 + sep.len() as int;
    let c2 = o2 + 1 + body2.len() as int;
    assert(lines.len() == c2 + 1);
    assert(lines[0] == open1);
    assert(lines[c1] == close1);
    assert(lines[o2] == open2);
    assert(lines[c2] == close2);
    assert forall|m: int| 1 <= m < c1 implies !is_fence_close(
        #[trigger] lines[m],
        fence_len(open1),
    ) by {
        assert(lines[m] == body1[m - 1]);
    }
    lemma_find_close_some(lines, 1, fence_len(open1), c1);
    assert(extract_from(lines, 0) == seq![join_lines(lines.subrange(1, c1))] + extract_from(
        lines,
        c1 + 1,
    ));
    assert(lines.subrange(1, c1) =~= body1);
    assert forall|m: int| c1 + 1 <= m < o2 implies !is_fence_open(#[trigger] lines[m]) by {
        assert(lines[m] == sep[m - (c1 + 1)]);
    }
    lemma_extract_skip_non_open(lines, c1 + 1, o2);
    assert forall|m: int| o2 + 1 <= m < c2 implies !is_fence_close(
        #[trigger] lines[m],
        fence_len(open2),
    ) by {
        assert(lines[m] == body2[m - (o2 + 1)]);
    }
    lemma_find_close_some(lines, o2 + 1, fence_len(open2), c2);
    assert(extract_from(lines, o2) == seq![join_lines(lines.subrange(o2 + 1, c2))] + extract_from(
        lines,
        c2 + 1,
    ));
    assert(lines.subrange(o2 + 1, c2) =~= body2);
    assert(extract_from(lines, c2 + 1) =~= Seq::<Seq<char>>::empty());
    assert(extract_from(lines, 0) =~= seq![join_lines(body1), join_lines(body2)]);
}

} // verus!
