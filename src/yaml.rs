//! Compact vertex lists for the YAML encoding.
//!
//! A generic YAML writer emits each vertex as a block-sequence entry of two
//! mapping lines:
//!
//! ```text
//!   vertices:
//!   - x: 0.1
//!     y: 0.2
//! ```
//!
//! `inline_vertex_lists` rewrites every such block into one line,
//! `vertices: [[0.1, 0.2]]`, and passes every other line through unchanged.
//! A line is the text up to the next line feed (or the end of the text).
//! The items of a block stand at one indentation, no less than that of its
//! `vertices:` line; the block is rewritten only when it consists entirely of
//! such pairs with plain scalar values, and is left alone when the sequence
//! continues in any other shape.

use vstd::prelude::*;
use crate::text::{chars_of, matches_at, push_all, push_range, string_from_chars};

verus! {

/// Position of the line feed that ends the line containing `p`, or the
/// length of `s` when that line is the last one.
pub open spec fn line_end(s: Seq<char>, p: int) -> int
    decreases s.len() - p,
{
    if 0 <= p < s.len() && s[p] != '\n' {
        line_end(s, p + 1)
    } else {
        p
    }
}

/// Number of spaces that open `s[p..e]`.
pub open spec fn spaces_from(s: Seq<char>, p: int, e: int) -> nat
    decreases e - p,
{
    if 0 <= p < e && p < s.len() && s[p] == ' ' {
        1 + spaces_from(s, p + 1, e)
    } else {
        0
    }
}

/// Characters that may make up a plain scalar value copied into a flow list.
pub open spec fn is_scalar_char(c: char) -> bool {
    ('0' <= c && c <= '9') || ('a' <= c && c <= 'z') || ('A' <= c && c <= 'Z') || c == '+' || c
        == '-' || c == '.' || c == '_'
}

/// `s[a..e]` is a non-empty plain scalar.
pub open spec fn is_scalar(s: Seq<char>, a: int, e: int) -> bool {
    &&& 0 <= a < e <= s.len()
    &&& forall|i: int| a <= i < e ==> is_scalar_char(#[trigger] s[i])
}

pub open spec fn header_key() -> Seq<char> {
    seq!['v', 'e', 'r', 't', 'i', 'c', 'e', 's', ':']
}

pub open spec fn x_key() -> Seq<char> {
    seq!['-', ' ', 'x', ':', ' ']
}

pub open spec fn y_key() -> Seq<char> {
    seq!['y', ':', ' ']
}

/// The line `s[p..e]` is `vertices:` between spaces.
pub open spec fn is_header(s: Seq<char>, p: int, e: int) -> bool {
    let k = spaces_from(s, p, e);
    &&& 0 <= p
    &&& p + k + 9 <= e <= s.len()
    &&& s.subrange(p + k, p + k + 9) == header_key()
    &&& forall|i: int| p + k + 9 <= i < e ==> #[trigger] s[i] == ' '
}

/// The line `s[p..e]` is `- x: <scalar>` indented by `j`.
pub open spec fn is_x_line(s: Seq<char>, p: int, e: int, j: nat) -> bool {
    &&& spaces_from(s, p, e) == j
    &&& 0 <= p
    &&& p + j + 5 <= e <= s.len()
    &&& s.subrange(p + j, p + j + 5) == x_key()
    &&& is_scalar(s, p + j + 5, e)
}

/// The line `s[p..e]` is `y: <scalar>` indented by `j + 2`.
pub open spec fn is_y_line(s: Seq<char>, p: int, e: int, j: nat) -> bool {
    &&& spaces_from(s, p, e) == j + 2
    &&& 0 <= p
    &&& p + j + 5 <= e <= s.len()
    &&& s.subrange(p + j + 2, p + j + 5) == y_key()
    &&& is_scalar(s, p + j + 5, e)
}

/// The lines starting at `q` are an x line and a y line, indented by `j`.
pub open spec fn pair_at(s: Seq<char>, q: int, j: nat) -> bool {
    &&& 0 <= q <= s.len()
    &&& line_end(s, q) < s.len()
    &&& is_x_line(s, q, line_end(s, q), j)
    &&& is_y_line(s, line_end(s, q) + 1, line_end(s, line_end(s, q) + 1), j)
}

/// Start of the line after the pair at `q` (one past the end of `s` when
/// there is none).
pub open spec fn pair_next(s: Seq<char>, q: int) -> int {
    line_end(s, line_end(s, q) + 1) + 1
}

pub open spec fn x_value(s: Seq<char>, q: int, j: nat) -> Seq<char> {
    s.subrange(q + j + 5, line_end(s, q))
}

pub open spec fn y_value(s: Seq<char>, q: int, j: nat) -> Seq<char> {
    let q2 = line_end(s, q) + 1;
    s.subrange(q2 + j + 5, line_end(s, q2))
}

/// `[x, y]` for the pair at `q`.
pub open spec fn pair_text(s: Seq<char>, q: int, j: nat) -> Seq<char> {
    seq!['['] + x_value(s, q, j) + seq![',', ' '] + y_value(s, q, j) + seq![']']
}

pub proof fn lemma_line_end(s: Seq<char>, p: int)
    requires
        0 <= p <= s.len(),
    ensures
        p <= line_end(s, p) <= s.len(),
        line_end(s, p) < s.len() ==> s[line_end(s, p)] == '\n',
    decreases s.len() - p,
{
    if p < s.len() && s[p] != '\n' {
        lemma_line_end(s, p + 1);
    }
}

pub proof fn lemma_pair_next(s: Seq<char>, q: int, j: nat)
    requires
        pair_at(s, q, j),
    ensures
        q < pair_next(s, q) <= s.len() + 1,
{
    lemma_line_end(s, q);
    lemma_line_end(s, line_end(s, q) + 1);
}

/// `, [x, y]` for each pair of the run starting at `q`.
pub open spec fn more_pairs(s: Seq<char>, q: int, j: nat) -> Seq<char>
    decreases s.len() + 2 - q,
{
    if pair_at(s, q, j) {
        proof {
            lemma_pair_next(s, q, j);
        }
        seq![',', ' '] + pair_text(s, q, j) + more_pairs(s, pair_next(s, q), j)
    } else {
        Seq::empty()
    }
}

/// Start of the first line after the run of pairs starting at `q`.
pub open spec fn run_end(s: Seq<char>, q: int, j: nat) -> int
    decreases s.len() + 2 - q,
{
    if pair_at(s, q, j) {
        proof {
            lemma_pair_next(s, q, j);
        }
        run_end(s, pair_next(s, q), j)
    } else {
        q
    }
}

pub proof fn lemma_run_end(s: Seq<char>, q: int, j: nat)
    requires
        0 <= q <= s.len() + 1,
    ensures
        q <= run_end(s, q, j) <= s.len() + 1,
        pair_at(s, q, j) ==> q < run_end(s, q, j),
        !pair_at(s, run_end(s, q, j), j),
    decreases s.len() + 2 - q,
{
    if pair_at(s, q, j) {
        lemma_pair_next(s, q, j);
        lemma_run_end(s, pair_next(s, q), j);
    }
}

/// The line at `q` carries the sequence at indentation `j` on in a shape
/// other than a pair: a deeper line, or another `-` entry.
pub open spec fn continues(s: Seq<char>, q: int, j: nat) -> bool {
    let e = line_end(s, q);
    let k = spaces_from(s, q, e);
    &&& 0 <= q <= s.len()
    &&& (k > j || (k == j && q + j < e && s[q + j] == '-'))
}

/// Indentation of the items of the block whose header line ends at `e`.
pub open spec fn item_indent(s: Seq<char>, e: int) -> nat {
    spaces_from(s, e + 1, line_end(s, e + 1))
}

/// The header line `s[p..e]` opens a block of vertex pairs to rewrite.
pub open spec fn block_at(s: Seq<char>, p: int, e: int) -> bool {
    let j = item_indent(s, e);
    &&& is_header(s, p, e)
    &&& e < s.len()
    &&& j >= spaces_from(s, p, e)
    &&& pair_at(s, e + 1, j)
    &&& !continues(s, run_end(s, e + 1, j), j)
}

/// The one line that replaces the block whose header is `s[p..e]`.
pub open spec fn inline_line(s: Seq<char>, p: int, e: int) -> Seq<char> {
    let j = item_indent(s, e);
    s.subrange(p, p + spaces_from(s, p, e)) + header_key() + seq![' ', '['] + pair_text(
        s,
        e + 1,
        j,
    ) + more_pairs(s, pair_next(s, e + 1), j) + seq![']']
}

/// The rewritten text from the line starting at `p` to the end.
pub open spec fn inline_from(s: Seq<char>, p: int) -> Seq<char>
    decreases s.len() + 1 - p,
{
    if 0 <= p <= s.len() {
        proof {
            lemma_line_end(s, p);
        }
        let e = line_end(s, p);
        if block_at(s, p, e) {
            let next = run_end(s, e + 1, item_indent(s, e));
            proof {
                lemma_run_end(s, e + 1, item_indent(s, e));
            }
            if next <= s.len() {
                inline_line(s, p, e) + seq!['\n'] + inline_from(s, next)
            } else {
                inline_line(s, p, e)
            }
        } else if e < s.len() {
            s.subrange(p, e) + seq!['\n'] + inline_from(s, e + 1)
        } else {
            s.subrange(p, e)
        }
    } else {
        Seq::empty()
    }
}

/// The whole text with every vertex block written as one inline list.
pub open spec fn inline_text(s: Seq<char>) -> Seq<char> {
    inline_from(s, 0)
}

fn line_end_exec(s: &Vec<char>, p: usize) -> (r: usize)
    requires
        p <= s@.len(),
    ensures
        r == line_end(s@, p as int),
        p <= r <= s@.len(),
{
    let mut i = p;
    while i < s.len() && s[i] != '\n'
        invariant
            p <= i <= s@.len(),
            line_end(s@, i as int) == line_end(s@, p as int),
        decreases s@.len() - i,
    {
        i += 1;
    }
    i
}

fn spaces_exec(s: &Vec<char>, p: usize, e: usize) -> (r: usize)
    requires
        p <= e <= s@.len(),
    ensures
        r == spaces_from(s@, p as int, e as int),
        r <= e - p,
        forall|t: int| p <= t < p + r ==> s@[t] == ' ',
{
    let mut i = p;
    while i < e && s[i] == ' '
        invariant
            p <= i <= e <= s@.len(),
            spaces_from(s@, p as int, e as int) == (i - p) + spaces_from(s@, i as int, e as int),
            forall|t: int| p <= t < i ==> s@[t] == ' ',
        decreases e - i,
    {
        i += 1;
    }
    i - p
}

fn scalar_char(c: char) -> (r: bool)
    ensures
        r == is_scalar_char(c),
{
    ('0' <= c && c <= '9') || ('a' <= c && c <= 'z') || ('A' <= c && c <= 'Z') || c == '+' || c
        == '-' || c == '.' || c == '_'
}

fn scalar_exec(s: &Vec<char>, a: usize, e: usize) -> (r: bool)
    requires
        e <= s@.len(),
    ensures
        r == is_scalar(s@, a as int, e as int),
{
    if a >= e {
        return false;
    }
    let mut i = a;
    while i < e
        invariant
            a <= i <= e <= s@.len(),
            forall|t: int| a <= t < i ==> is_scalar_char(#[trigger] s@[t]),
        decreases e - i,
    {
        if !scalar_char(s[i]) {
            return false;
        }
        i += 1;
    }
    true
}

fn header_exec(s: &Vec<char>, p: usize, e: usize) -> (r: bool)
    requires
        p <= e <= s@.len(),
    ensures
        r == is_header(s@, p as int, e as int),
{
    let k = spaces_exec(s, p, e);
    if e - p - k < 9 {
        return false;
    }
    let key: Vec<char> = vec!['v', 'e', 'r', 't', 'i', 'c', 'e', 's', ':'];
    assert(key@ =~= header_key());
    if !matches_at(s, p + k, &key) {
        return false;
    }
    let mut i = p + k + 9;
    while i < e
        invariant
            p + k + 9 <= i <= e <= s@.len(),
            k == spaces_from(s@, p as int, e as int),
            forall|t: int| p + k + 9 <= t < i ==> s@[t] == ' ',
        decreases e - i,
    {
        if s[i] != ' ' {
            assert(s@[i as int] != ' ');
            return false;
        }
        i += 1;
    }
    true
}

fn x_line_exec(s: &Vec<char>, p: usize, e: usize, j: usize) -> (r: bool)
    requires
        p <= e <= s@.len(),
    ensures
        r == is_x_line(s@, p as int, e as int, j as nat),
{
    let k = spaces_exec(s, p, e);
    if k != j || e - p - k < 5 {
        return false;
    }
    let key: Vec<char> = vec!['-', ' ', 'x', ':', ' '];
    assert(key@ =~= x_key());
    matches_at(s, p + j, &key) && scalar_exec(s, p + j + 5, e)
}

fn y_line_exec(s: &Vec<char>, p: usize, e: usize, j: usize) -> (r: bool)
    requires
        p <= e <= s@.len(),
    ensures
        r == is_y_line(s@, p as int, e as int, j as nat),
{
    let k = spaces_exec(s, p, e);
    if j >= usize::MAX - 2 || k != j + 2 || e - p - k < 3 {
        return false;
    }
    let key: Vec<char> = vec!['y', ':', ' '];
    assert(key@ =~= y_key());
    matches_at(s, p + j + 2, &key) && scalar_exec(s, p + j + 5, e)
}

/// Whether a pair starts at `q`; if so, also the ends of its two lines.
fn pair_exec(s: &Vec<char>, q: usize, j: usize) -> (r: (bool, usize, usize))
    requires
        q <= s@.len(),
    ensures
        r.0 == pair_at(s@, q as int, j as nat),
        r.0 ==> r.1 == line_end(s@, q as int) && r.2 == line_end(s@, line_end(s@, q as int) + 1)
            && r.2 + 1 == pair_next(s@, q as int),
{
    let e1 = line_end_exec(s, q);
    if e1 >= s.len() {
        return (false, 0, 0);
    }
    let e2 = line_end_exec(s, e1 + 1);
    let ok = x_line_exec(s, q, e1, j) && y_line_exec(s, e1 + 1, e2, j);
    (ok, e1, e2)
}

fn continues_exec(s: &Vec<char>, q: usize, j: usize) -> (r: bool)
    requires
        q <= s@.len(),
    ensures
        r == continues(s@, q as int, j as nat),
{
    let e = line_end_exec(s, q);
    let k = spaces_exec(s, q, e);
    k > j || (k == j && e - q > j && s[q + j] == '-')
}

/// Appends `[x, y]` for the pair at `q`, whose lines end at `e1` and `e2`.
fn push_pair(out: &mut Vec<char>, s: &Vec<char>, q: usize, j: usize, e1: usize, e2: usize)
    requires
        pair_at(s@, q as int, j as nat),
        e1 == line_end(s@, q as int),
        e2 == line_end(s@, e1 + 1),
    ensures
        final(out)@ == old(out)@ + pair_text(s@, q as int, j as nat),
{
    out.push('[');
    push_range(out, s, q + j + 5, e1);
    out.push(',');
    out.push(' ');
    push_range(out, s, e1 + 1 + j + 5, e2);
    out.push(']');
    assert(out@ =~= old(out)@ + pair_text(s@, q as int, j as nat));
}

/// The start of the line at spec position `q`, or `None` when `q` is one
/// past the end of the text.
pub open spec fn start_of(s: Seq<char>, q: Option<usize>) -> int {
    match q {
        Some(q) => q as int,
        None => s.len() as int + 1,
    }
}

/// The replacement line for the block whose header line is `s[p..e]`, and
/// the start of the line after the block (`None` when the block ends the
/// text); `None` when no block starts there.
#[verifier::rlimit(40)]
fn block_exec(s: &Vec<char>, p: usize, e: usize) -> (r: Option<(Vec<char>, Option<usize>)>)
    requires
        p <= e < s@.len(),
        e == line_end(s@, p as int),
    ensures
        r is Some <==> block_at(s@, p as int, e as int),
        r matches Some(b) ==> b.0@ == inline_line(s@, p as int, e as int) && start_of(s@, b.1)
            == run_end(s@, e + 1, item_indent(s@, e as int)) && (b.1 matches Some(q) ==> q
            <= s@.len()),
{
    let len = s.len();
    if !header_exec(s, p, e) {
        return None;
    }
    let k = spaces_exec(s, p, e);
    let e1 = line_end_exec(s, e + 1);
    let j = spaces_exec(s, e + 1, e1);
    let first = pair_exec(s, e + 1, j);
    if j < k || !first.0 {
        return None;
    }
    proof {
        lemma_pair_next(s@, e + 1, j as nat);
    }
    let mut items: Vec<char> = Vec::new();
    push_pair(&mut items, s, e + 1, j, first.1, first.2);
    let ghost start = pair_next(s@, e + 1);
    let mut next_start: Option<usize> = if first.2 < len {
        Some(first.2 + 1)
    } else {
        None
    };
    let mut tail: Vec<char> = Vec::new();
    loop
        invariant
            e + 1 < start_of(s@, next_start) <= s@.len() + 1,
            next_start matches Some(q) ==> q <= s@.len(),
            tail@ + more_pairs(s@, start_of(s@, next_start), j as nat) == more_pairs(
                s@,
                start,
                j as nat,
            ),
            run_end(s@, start_of(s@, next_start), j as nat) == run_end(s@, e + 1, j as nat),
        ensures
            e + 1 < start_of(s@, next_start) <= s@.len() + 1,
            next_start matches Some(q) ==> q <= s@.len(),
            tail@ + more_pairs(s@, start_of(s@, next_start), j as nat) == more_pairs(
                s@,
                start,
                j as nat,
            ),
            run_end(s@, start_of(s@, next_start), j as nat) == run_end(s@, e + 1, j as nat),
            !pair_at(s@, start_of(s@, next_start), j as nat),
        decreases s@.len() + 2 - start_of(s@, next_start),
    {
        let q = match next_start {
            Some(q) => q,
            None => {
                break ;
            },
        };
        let next = pair_exec(s, q, j);
        if !next.0 {
            break ;
        }
        proof {
            lemma_pair_next(s@, q as int, j as nat);
        }
        let ghost t0 = tail@;
        tail.push(',');
        tail.push(' ');
        push_pair(&mut tail, s, q, j, next.1, next.2);
        assert(tail@ =~= t0 + seq![',', ' '] + pair_text(s@, q as int, j as nat));
        next_start = if next.2 < s.len() {
            Some(next.2 + 1)
        } else {
            None
        };
    }
    assert(more_pairs(s@, start_of(s@, next_start), j as nat) =~= Seq::<char>::empty());
    assert(tail@ =~= more_pairs(s@, start, j as nat));
    match next_start {
        Some(q) => {
            if continues_exec(s, q, j) {
                return None;
            }
        },
        None => {},
    }
    let mut line: Vec<char> = Vec::new();
    push_range(&mut line, s, p, p + k);
    let key: Vec<char> = vec!['v', 'e', 'r', 't', 'i', 'c', 'e', 's', ':', ' ', '['];
    assert(key@ =~= header_key() + seq![' ', '[']);
    push_all(&mut line, &key);
    push_all(&mut line, &items);
    push_all(&mut line, &tail);
    line.push(']');
    assert(line@ =~= inline_line(s@, p as int, e as int));
    Some((line, next_start))
}

/// Rewrites each vertex block of `s` as one inline list.
fn inline_chars(s: &Vec<char>) -> (r: Vec<char>)
    ensures
        r@ == inline_text(s@),
{
    let mut out: Vec<char> = Vec::new();
    let mut p: usize = 0;
    loop
        invariant
            p <= s@.len(),
            out@ + inline_from(s@, p as int) == inline_text(s@),
        decreases s@.len() - p,
    {
        proof {
            lemma_line_end(s@, p as int);
        }
        let ghost before = out@;
        let e = line_end_exec(s, p);
        let block = if e < s.len() {
            block_exec(s, p, e)
        } else {
            None
        };
        match block {
            Some(b) => {
                let (line, next) = b;
                proof {
                    lemma_run_end(s@, e + 1, item_indent(s@, e as int));
                }
                push_all(&mut out, &line);
                match next {
                    None => {
                        return out;
                    },
                    Some(q) => {
                        out.push('\n');
                        assert(out@ + inline_from(s@, q as int) =~= before + inline_from(
                            s@,
                            p as int,
                        ));
                        p = q;
                    },
                }
            },
            None => {
                push_range(&mut out, s, p, e);
                if e >= s.len() {
                    return out;
                }
                out.push('\n');
                assert(out@ + inline_from(s@, (e + 1) as int) =~= before + inline_from(
                    s@,
                    p as int,
                ));
                p = e + 1;
            },
        }
    }
}

/// Rewrites every block of vertex pairs in `text` as one inline list
/// `vertices: [[x, y], ...]`, leaving every other line as it is.
pub fn inline_vertex_lists(text: &str) -> (r: String)
    ensures
        r@ == inline_text(text@),
{
    let chars = chars_of(text);
    let out = inline_chars(&chars);
    string_from_chars(&out)
}

} // verus!
