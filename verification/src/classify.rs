//! Statement classification: decides from the text alone whether a SQL
//! statement is row-producing (a read) or a mutation (a write).
//!
//! The policy is a prefix heuristic, not a parser: the text is trimmed of
//! leading and trailing whitespace, ASCII letters are folded to lower case,
//! and the result is checked for one of the read-indicating keywords
//! (`select` or `pragma`). Anything else — including text that is not SQL at
//! all — is classified as a write; execution failure is reported separately.

use vstd::prelude::*;

verus! {

/// Whether a statement is expected to produce rows or to mutate the database.
#[derive(Clone, Copy, PartialEq, Eq, Structural, Debug)]
pub enum StmtKind {
    Read,
    Write,
}

/// The characters treated as whitespace when a statement is trimmed: the
/// Unicode `White_Space` set, as `str::trim` uses.
pub open spec fn is_space(c: char) -> bool {
    ||| c == ' '
    ||| ('\u{0009}' <= c && c <= '\u{000D}')
    ||| c == '\u{0085}'
    ||| c == '\u{00A0}'
    ||| c == '\u{1680}'
    ||| ('\u{2000}' <= c && c <= '\u{200A}')
    ||| c == '\u{2028}'
    ||| c == '\u{2029}'
    ||| c == '\u{202F}'
    ||| c == '\u{205F}'
    ||| c == '\u{3000}'
}

/// Case folding for the prefix check: ASCII upper-case letters map to their
/// lower-case forms, every other character is left alone.
pub open spec fn fold_char(c: char) -> char {
    if 'A' <= c && c <= 'Z' {
        ((c as u32) + 32) as char
    } else {
        c
    }
}

/// The text with its leading whitespace removed.
pub open spec fn trim_front(s: Seq<char>) -> Seq<char>
    decreases s.len(),
{
    if s.len() > 0 && is_space(s[0]) {
        trim_front(s.drop_first())
    } else {
        s
    }
}

/// The text with its trailing whitespace removed.
pub open spec fn trim_back(s: Seq<char>) -> Seq<char>
    decreases s.len(),
{
    if s.len() > 0 && is_space(s.last()) {
        trim_back(s.drop_last())
    } else {
        s
    }
}

/// The text with whitespace removed at both ends.
pub open spec fn trimmed(s: Seq<char>) -> Seq<char> {
    trim_back(trim_front(s))
}

/// The text with every character case-folded.
pub open spec fn fold_text(s: Seq<char>) -> Seq<char> {
    s.map_values(|c: char| fold_char(c))
}

/// Whether `s` begins with `prefix`.
pub open spec fn has_prefix(s: Seq<char>, prefix: Seq<char>) -> bool {
    prefix.len() <= s.len() && s.subrange(0, prefix.len() as int) == prefix
}

/// The classification policy: a statement is a read exactly when its
/// trimmed, case-folded text starts with `select` or `pragma`.
pub open spec fn is_read_stmt(s: Seq<char>) -> bool {
    has_prefix(fold_text(trimmed(s)), "select"@) || has_prefix(fold_text(trimmed(s)), "pragma"@)
}

fn is_space_x(c: char) -> (r: bool)
    ensures
        r == is_space(c),
{
    let u = c as u32;
    u == 0x20 || (0x09 <= u && u <= 0x0D) || u == 0x85 || u == 0xA0 || u == 0x1680 || (0x2000
        <= u && u <= 0x200A) || u == 0x2028 || u == 0x2029 || u == 0x202F || u == 0x205F || u
        == 0x3000
}

fn fold_char_x(c: char) -> (r: char)
    ensures
        r == fold_char(c),
{
    match c {
        'A' => 'a',
        'B' => 'b',
        'C' => 'c',
        'D' => 'd',
        'E' => 'e',
        'F' => 'f',
        'G' => 'g',
        'H' => 'h',
        'I' => 'i',
        'J' => 'j',
        'K' => 'k',
        'L' => 'l',
        'M' => 'm',
        'N' => 'n',
        'O' => 'o',
        'P' => 'p',
        'Q' => 'q',
        'R' => 'r',
        'S' => 's',
        'T' => 't',
        'U' => 'u',
        'V' => 'v',
        'W' => 'w',
        'X' => 'x',
        'Y' => 'y',
        'Z' => 'z',
        _ => c,
    }
}

proof fn lemma_trim_front_step(s: Seq<char>)
    requires
        s.len() > 0,
        is_space(s[0]),
    ensures
        trim_front(s) == trim_front(s.drop_first()),
{
}

proof fn lemma_trim_back_step(s: Seq<char>)
    requires
        s.len() > 0,
        is_space(s.last()),
    ensures
        trim_back(s) == trim_back(s.drop_last()),
{
}

/// Whether the case-folded characters of `query` at positions
/// `lo .. lo + kw.len()` spell out `kw`.
fn prefix_matches_folded(query: &str, lo: usize, hi: usize, kw: &str) -> (r: bool)
    requires
        lo <= hi <= query@.len(),
        kw@.len() <= hi - lo,
    ensures
        r == (forall|j: int|
            0 <= j < kw@.len() ==> fold_char(query@[lo + j]) == kw@[j]),
{
    let m = kw.unicode_len();
    let mut j: usize = 0;
    while j < m
        invariant
            m == kw@.len(),
            lo + m <= hi <= query@.len(),
            j <= m,
            forall|t: int| 0 <= t < j ==> fold_char(query@[lo + t]) == kw@[t],
        decreases m - j,
    {
        let c = fold_char_x(query.get_char(lo + j));
        let k = kw.get_char(j);
        if c != k {
            return false;
        }
        j += 1;
    }
    true
}

/// Classifies a statement: `Read` exactly when the trimmed, case-folded
/// text starts with a read-indicating keyword, `Write` for everything else.
pub fn classify(query: &str) -> (k: StmtKind)
    ensures
        (k == StmtKind::Read) == is_read_stmt(query@),
        (k == StmtKind::Write) == !is_read_stmt(query@),
{
    let ghost q = query@;
    let n = query.unicode_len();
    proof {
        assert(q.subrange(0, n as int) =~= q);
    }
    let mut lo: usize = 0;
    while lo < n && is_space_x(query.get_char(lo))
        invariant
            n == q.len(),
            q == query@,
            lo <= n,
            trim_front(q) == trim_front(q.subrange(lo as int, n as int)),
        decreases n - lo,
    {
        proof {
            let sub = q.subrange(lo as int, n as int);
            lemma_trim_front_step(sub);
            assert(sub.drop_first() =~= q.subrange(lo as int + 1, n as int));
        }
        lo += 1;
    }
    proof {
        assert(q.subrange(0, n as int) =~= q);
        if lo < n {
            assert(trim_front(q.subrange(lo as int, n as int)) == q.subrange(
                lo as int,
                n as int,
            ));
        } else {
            assert(q.subrange(lo as int, n as int).len() == 0);
        }
        assert(trim_front(q) == q.subrange(lo as int, n as int));
    }
    let mut hi: usize = n;
    while hi > lo && is_space_x(query.get_char(hi - 1))
        invariant
            n == q.len(),
            q == query@,
            lo <= hi <= n,
            trim_front(q) == q.subrange(lo as int, n as int),
            trim_back(q.subrange(lo as int, n as int)) == trim_back(
                q.subrange(lo as int, hi as int),
            ),
        decreases hi,
    {
        proof {
            let sub = q.subrange(lo as int, hi as int);
            assert(sub.last() == q[hi - 1]);
            lemma_trim_back_step(sub);
            assert(sub.drop_last() =~= q.subrange(lo as int, hi as int - 1));
        }
        hi -= 1;
    }
    proof {
        if hi > lo {
            assert(trim_back(q.subrange(lo as int, hi as int)) == q.subrange(
                lo as int,
                hi as int,
            ));
        } else {
            assert(q.subrange(lo as int, hi as int).len() == 0);
        }
        assert(trimmed(q) == q.subrange(lo as int, hi as int));
    }
    let ghost tr = trimmed(q);
    proof {
        reveal_strlit("select");
        reveal_strlit("pragma");
    }
    if hi - lo < 6 {
        proof {
            assert(fold_text(tr).len() < 6);
            assert(!is_read_stmt(q));
        }
        return StmtKind::Write;
    }
    let is_sel = prefix_matches_folded(query, lo, hi, "select");
    proof {
        lemma_prefix_matches(q, tr, lo as int, hi as int, "select"@, is_sel);
    }
    if is_sel {
        return StmtKind::Read;
    }
    let is_prag = prefix_matches_folded(query, lo, hi, "pragma");
    proof {
        lemma_prefix_matches(q, tr, lo as int, hi as int, "pragma"@, is_prag);
    }
    if is_prag {
        StmtKind::Read
    } else {
        StmtKind::Write
    }
}

proof fn lemma_prefix_matches(q: Seq<char>, tr: Seq<char>, lo: int, hi: int, kw: Seq<char>, m: bool)
    requires
        0 <= lo <= hi <= q.len(),
        tr == q.subrange(lo, hi),
        kw.len() <= hi - lo,
        m == (forall|j: int| 0 <= j < kw.len() ==> fold_char(q[lo + j]) == kw[j]),
    ensures
        m == has_prefix(fold_text(tr), kw),
{
    assert(fold_text(tr).len() == tr.len());
    if m {
        assert(fold_text(tr).subrange(0, kw.len() as int) =~= kw) by {
            assert forall|j: int| 0 <= j < kw.len() implies fold_text(tr).subrange(
                0,
                kw.len() as int,
            )[j] == kw[j] by {
                assert(fold_text(tr)[j] == fold_char(tr[j]));
                assert(tr[j] == q[lo + j]);
            }
        }
    } else {
        let j = choose|j: int| 0 <= j < kw.len() && fold_char(q[lo + j]) != kw[j];
        if has_prefix(fold_text(tr), kw) {
            assert(fold_text(tr).subrange(0, kw.len() as int)[j] == kw[j]);
            assert(fold_text(tr)[j] == fold_char(tr[j]));
            assert(tr[j] == q[lo + j]);
        }
    }
}

} // verus!
