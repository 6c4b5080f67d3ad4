//! Text primitives the detectors are built on: splitting source text into
//! lines, substring search, and regular-expression search over lines.
use vstd::prelude::*;

verus! {

/// The pieces of `s` between newline characters: a text holding `n`
/// newline characters has `n + 1` pieces, the last one possibly empty.
pub open spec fn pieces(s: Seq<char>) -> Seq<Seq<char>>
    decreases s.len(),
{
    if s.len() == 0 {
        seq![Seq::empty()]
    } else {
        let prev = pieces(s.drop_last());
        if s.last() == '\n' {
            prev.push(Seq::empty())
        } else {
            prev.update(prev.len() - 1, prev.last().push(s.last()))
        }
    }
}

/// A line that was ended by `"\r\n"` loses the carriage return.
pub open spec fn trim_cr(l: Seq<char>) -> Seq<char> {
    if l.len() > 0 && l.last() == '\r' {
        l.drop_last()
    } else {
        l
    }
}

/// The lines of `s`: split at `'\n'` or `"\r\n"`, terminators dropped, and a
/// final line ending optional (a text ending in a newline has no empty last
/// line; the empty text has no lines).
pub open spec fn lines_of(s: Seq<char>) -> Seq<Seq<char>> {
    let p = pieces(s);
    let n = if p.last().len() == 0 {
        p.len() - 1
    } else {
        p.len() as int
    };
    Seq::new(n as nat, |i: int| if i < p.len() - 1 { trim_cr(p[i]) } else { p[i] })
}

/// Relies on `str::lines`: the lines of the text, as `lines_of` describes.
#[verifier::external_body]
pub(crate) fn split_lines(code: &str) -> (r: Vec<&str>)
    ensures
        r@.len() == lines_of(code@).len(),
        forall|i: int| 0 <= i < r@.len() ==> (#[trigger] r@[i])@ == lines_of(code@)[i],
{
    code.lines().collect()
}

/// `needle` occurs in `hay` at some position.
pub open spec fn has_sub(hay: Seq<char>, needle: Seq<char>) -> bool {
    exists|k: int|
        0 <= k && k + needle.len() <= hay.len() && #[trigger] hay.subrange(k, k + needle.len())
            == needle
}

/// Whether `needle` occurs in `hay`.
pub fn contains_text(hay: &str, needle: &str) -> (r: bool)
    ensures
        r == has_sub(hay@, needle@),
{
    let n = hay.unicode_len();
    let m = needle.unicode_len();
    if m > n {
        assert(!has_sub(hay@, needle@));
        return false;
    }
    let mut k: usize = 0;
    while k <= n - m
        invariant
            n == hay@.len(),
            m == needle@.len(),
            m <= n,
            k <= n - m + 1,
            forall|p: int| 0 <= p < k ==> #[trigger] hay@.subrange(p, p + m) != needle@,
        decreases n - m + 1 - k,
    {
        let mut j: usize = 0;
        let mut same = true;
        while j < m
            invariant
                n == hay@.len(),
                m == needle@.len(),
                k + m <= n,
                j <= m,
                same == (forall|q: int| 0 <= q < j ==> hay@[k + q] == needle@[q]),
            decreases m - j,
        {
            if hay.get_char(k + j) != needle.get_char(j) {
                same = false;
            }
            j = j + 1;
        }
        if same {
            assert(hay@.subrange(k as int, k + m) =~= needle@);
            return true;
        }
        assert(hay@.subrange(k as int, k + m) != needle@) by {
            let q = choose|q: int| 0 <= q < m && hay@[k + q] != needle@[q];
            assert(hay@.subrange(k as int, k + m)[q] == hay@[k + q]);
        }
        k = k + 1;
    }
    assert(!has_sub(hay@, needle@));
    false
}

/// What `regex` reports for the regular expression `pattern` on `hay`:
/// true when `pattern` compiles and matches somewhere in `hay`, false when it
/// matches nowhere or does not compile.
pub uninterp spec fn regex_finds(pattern: Seq<char>, hay: Seq<char>) -> bool;

/// Relies on `regex::Regex::new` and `regex::Regex::is_match`: the pattern is
/// compiled once and searched for in each line.
#[verifier::external_body]
pub(crate) fn match_lines(pattern: &str, lines: &Vec<&str>) -> (r: Vec<bool>)
    ensures
        r@.len() == lines@.len(),
        forall|i: int| 0 <= i < r@.len() ==> r@[i] == regex_finds(pattern@, (#[trigger] lines@[i])@),
{
    match regex::Regex::new(pattern) {
        Ok(re) => lines.iter().map(|l| re.is_match(l)).collect(),
        Err(_) => vec![false; lines.len()],
    }
}

/// The 1-based positions at which `f` holds, in increasing order.
pub open spec fn marked(f: Seq<bool>) -> Seq<int>
    decreases f.len(),
{
    if f.len() == 0 {
        seq![]
    } else if f.last() {
        marked(f.drop_last()).push(f.len() as int)
    } else {
        marked(f.drop_last())
    }
}

/// A position is marked exactly when it is in range and `f` holds there.
pub proof fn lemma_marked_contains(f: Seq<bool>, n: int)
    ensures
        marked(f).contains(n) <==> (1 <= n <= f.len() && f[n - 1]),
    decreases f.len(),
{
    if f.len() > 0 {
        lemma_marked_contains(f.drop_last(), n);
        if f.last() {
            assert(marked(f) == marked(f.drop_last()).push(f.len() as int));
            if n == f.len() {
                assert(marked(f)[marked(f).len() - 1] == n);
            }
            if marked(f).contains(n) && n != f.len() {
                let k = choose|k: int| 0 <= k < marked(f).len() && marked(f)[k] == n;
                assert(marked(f.drop_last())[k] == n);
            }
            if marked(f.drop_last()).contains(n) {
                let k = choose|k: int| 0 <= k < marked(f.drop_last()).len() && marked(f.drop_last())[k] == n;
                assert(marked(f)[k] == n);
            }
        }
    }
}

} // verus!
