//! Character-level text operations: whitespace, words, lines, prefixes and
//! substrings, each specified over the `Seq<char>` view of the text.
use vstd::prelude::*;

verus! {

/// Unicode `White_Space`, the property that `char::is_whitespace` tests.
pub open spec fn is_ws(c: char) -> bool {
    let u = c as u32;
    ||| u == 0x20
    ||| (0x09 <= u && u <= 0x0d)
    ||| u == 0x85
    ||| u == 0xa0
    ||| u == 0x1680
    ||| (0x2000 <= u && u <= 0x200a)
    ||| u == 0x2028
    ||| u == 0x2029
    ||| u == 0x202f
    ||| u == 0x205f
    ||| u == 0x3000
}

/// Whether `c` is Unicode whitespace.
pub fn is_whitespace(c: char) -> (b: bool)
    ensures
        b == is_ws(c),
{
    let u = c as u32;
    u == 0x20 || (0x09 <= u && u <= 0x0d) || u == 0x85 || u == 0xa0 || u == 0x1680 || (0x2000
        <= u && u <= 0x200a) || u == 0x2028 || u == 0x2029 || u == 0x202f || u == 0x205f || u
        == 0x3000
}

/// Every character of `s` is whitespace (what `s.trim().is_empty()` tests).
pub open spec fn is_blank(s: Seq<char>) -> bool {
    forall|i: int| 0 <= i < s.len() ==> is_ws(#[trigger] s[i])
}

/// `p` occurs in `s` as a contiguous run of characters.
pub open spec fn contains_seq(s: Seq<char>, p: Seq<char>) -> bool {
    exists|i: int| 0 <= i && i + p.len() <= s.len() && #[trigger] s.subrange(i, i + p.len()) == p
}

/// The characters of `s`, in order.
pub fn chars_of(s: &str) -> (v: Vec<char>)
    ensures
        v@ == s@,
{
    let mut v: Vec<char> = Vec::new();
    for c in it: s.chars()
        invariant
            v@ == it.history(),
    {
        v.push(c);
    }
    v
}

/// `String::push`: appends `c` at the end of `s`.
#[verifier::external_body]
pub(crate) fn push_char(s: &mut String, c: char)
    ensures
        final(s)@ == old(s)@.push(c),
{
    s.push(c)
}

/// `String::pop`: removes the last character of `s` and returns it, or
/// returns `None` and leaves `s` as it is when `s` is empty.
#[verifier::external_body]
pub(crate) fn pop_char(s: &mut String) -> (r: Option<char>)
    ensures
        old(s)@.len() == 0 ==> r is None && final(s)@ == old(s)@,
        old(s)@.len() > 0 ==> r == Some(old(s)@.last()) && final(s)@ == old(s)@.drop_last(),
{
    s.pop()
}

/// A `String` holding `v[lo..hi]`.
pub fn string_of_range(v: &Vec<char>, lo: usize, hi: usize) -> (s: String)
    requires
        lo <= hi <= v@.len(),
    ensures
        s@ == v@.subrange(lo as int, hi as int),
{
    let mut s = String::new();
    let mut i = lo;
    while i < hi
        invariant
            lo <= i <= hi <= v@.len(),
            s@ == v@.subrange(lo as int, i as int),
        decreases hi - i,
    {
        push_char(&mut s, v[i]);
        assert(v@.subrange(lo as int, i + 1) == v@.subrange(lo as int, i as int).push(v@[i as int]));
        i += 1;
    }
    s
}

/// A `String` holding the characters of `v`.
pub fn string_of(v: &Vec<char>) -> (s: String)
    ensures
        s@ == v@,
{
    let s = string_of_range(v, 0, v.len());
    assert(v@.subrange(0, v@.len() as int) == v@);
    s
}

/// Whether `p` occurs in `s` starting at index `at`.
pub fn matches_at(s: &Vec<char>, p: &Vec<char>, at: usize) -> (b: bool)
    requires
        at <= s@.len(),
    ensures
        b == (at + p@.len() <= s@.len() && s@.subrange(at as int, at + p@.len()) == p@),
{
    if p.len() > s.len() - at {
        return false;
    }
    let n = s.len();
    let mut j: usize = 0;
    while j < p.len()
        invariant
            n == s@.len(),
            at + p@.len() <= s@.len(),
            j <= p@.len(),
            forall|k: int| 0 <= k < j ==> s@[at + k] == p@[k],
        decreases p@.len() - j,
    {
        if s[at + j] != p[j] {
            assert(s@.subrange(at as int, at + p@.len())[j as int] != p@[j as int]);
            return false;
        }
        j += 1;
    }
    assert(s@.subrange(at as int, at + p@.len()) =~= p@);
    true
}

/// Whether the characters of `s` equal those of `p`.
pub fn seq_equals(s: &Vec<char>, p: &Vec<char>) -> (b: bool)
    ensures
        b == (s@ == p@),
{
    if s.len() != p.len() {
        return false;
    }
    let b = matches_at(s, p, 0);
    assert(s@.subrange(0, s@.len() as int) == s@);
    b
}

/// Whether `s` begins with `p`.
pub fn starts_with(s: &Vec<char>, p: &Vec<char>) -> (b: bool)
    ensures
        b == p@.is_prefix_of(s@),
{
    let b = matches_at(s, p, 0);
    proof {
        if b {
            assert forall|k: int| 0 <= k < p@.len() implies p@[k] == s@[k] by {
                assert(s@.subrange(0, p@.len() as int)[k] == s@[k]);
            }
        } else if p@.len() <= s@.len() {
            assert(!(s@.subrange(0, p@.len() as int) =~= p@));
        }
    }
    b
}

/// Whether `p` occurs somewhere in `s`.
pub fn contains(s: &Vec<char>, p: &Vec<char>) -> (b: bool)
    ensures
        b == contains_seq(s@, p@),
{
    let mut at: usize = 0;
    while at < s.len()
        invariant
            at <= s@.len(),
            forall|i: int|
                0 <= i < at && i + p@.len() <= s@.len() ==> #[trigger] s@.subrange(
                    i,
                    i + p@.len(),
                ) != p@,
        decreases s@.len() - at,
    {
        if matches_at(s, p, at) {
            return true;
        }
        at += 1;
    }
    if matches_at(s, p, at) {
        return true;
    }
    false
}

/// The character sequences held by a vector of character vectors.
pub open spec fn char_seqs(v: Seq<Vec<char>>) -> Seq<Seq<char>> {
    v.map_values(|x: Vec<char>| x@)
}

/// One step of cutting text into words: `acc.0` holds the words read so far,
/// `acc.1` the word being read; whitespace ends a word.
pub open spec fn words_step(acc: (Seq<Seq<char>>, Seq<char>), c: char) -> (
    Seq<Seq<char>>,
    Seq<char>,
) {
    if is_ws(c) {
        if acc.1.len() > 0 {
            (acc.0.push(acc.1), Seq::empty())
        } else {
            (acc.0, Seq::empty())
        }
    } else {
        (acc.0, acc.1.push(c))
    }
}

/// The state of cutting the first `n` characters of `s` into words.
pub open spec fn words_upto(s: Seq<char>, n: nat) -> (Seq<Seq<char>>, Seq<char>)
    decreases n,
{
    if n == 0 {
        (Seq::empty(), Seq::empty())
    } else {
        words_step(words_upto(s, (n - 1) as nat), s[n - 1])
    }
}

/// The maximal runs of non-whitespace characters of `s`, in order
/// (what `str::split_whitespace` yields).
pub open spec fn words(s: Seq<char>) -> Seq<Seq<char>> {
    let acc = words_upto(s, s.len());
    if acc.1.len() > 0 {
        acc.0.push(acc.1)
    } else {
        acc.0
    }
}

/// `l` without one trailing carriage return.
pub open spec fn strip_cr(l: Seq<char>) -> Seq<char> {
    if l.len() > 0 && l.last() == '\r' {
        l.drop_last()
    } else {
        l
    }
}

/// One step of cutting text into lines: `acc.0` holds the lines read so far,
/// `acc.1` the line being read; a line feed ends a line, and a carriage return
/// just before it is dropped.
pub open spec fn lines_step(acc: (Seq<Seq<char>>, Seq<char>), c: char) -> (
    Seq<Seq<char>>,
    Seq<char>,
) {
    if c == '\n' {
        (acc.0.push(strip_cr(acc.1)), Seq::empty())
    } else {
        (acc.0, acc.1.push(c))
    }
}

/// The state of cutting the first `n` characters of `s` into lines.
pub open spec fn lines_upto(s: Seq<char>, n: nat) -> (Seq<Seq<char>>, Seq<char>)
    decreases n,
{
    if n == 0 {
        (Seq::empty(), Seq::empty())
    } else {
        lines_step(lines_upto(s, (n - 1) as nat), s[n - 1])
    }
}

/// The lines of `s` (what `str::lines` yields): the text between line feeds,
/// a final line feed ending the last line rather than starting an empty one.
pub open spec fn lines(s: Seq<char>) -> Seq<Seq<char>> {
    let acc = lines_upto(s, s.len());
    if acc.1.len() > 0 {
        acc.0.push(acc.1)
    } else {
        acc.0
    }
}

/// No character of `w` is whitespace.
pub open spec fn ws_free(w: Seq<char>) -> bool {
    forall|j: int| 0 <= j < w.len() ==> !is_ws(#[trigger] w[j])
}

/// No character of `l` is a line feed.
pub open spec fn lf_free(l: Seq<char>) -> bool {
    forall|j: int| 0 <= j < l.len() ==> #[trigger] l[j] != '\n'
}

proof fn lemma_words_upto_shape(s: Seq<char>, n: nat)
    ensures
        forall|i: int|
            0 <= i < words_upto(s, n).0.len() ==> (#[trigger] words_upto(s, n).0[i]).len() > 0
                && ws_free(words_upto(s, n).0[i]),
        ws_free(words_upto(s, n).1),
    decreases n,
{
    if n > 0 {
        lemma_words_upto_shape(s, (n - 1) as nat);
        let prev = words_upto(s, (n - 1) as nat);
        let c = s[n - 1];
        if !is_ws(c) {
            assert forall|j: int| 0 <= j < prev.1.push(c).len() implies !is_ws(
                #[trigger] prev.1.push(c)[j],
            ) by {
                if j < prev.1.len() {
                    assert(prev.1.push(c)[j] == prev.1[j]);
                }
            }
        }
    }
}

/// Every word is non-empty and holds no whitespace.
pub proof fn law_words_are_nonempty_and_whitespace_free(s: Seq<char>)
    ensures
        forall|i: int|
            0 <= i < words(s).len() ==> (#[trigger] words(s)[i]).len() > 0 && ws_free(words(s)[i]),
{
    lemma_words_upto_shape(s, s.len());
}

proof fn lemma_lines_upto_shape(s: Seq<char>, n: nat)
    ensures
        forall|i: int| 0 <= i < lines_upto(s, n).0.len() ==> lf_free(#[trigger] lines_upto(s, n).0[i]),
        lf_free(lines_upto(s, n).1),
    decreases n,
{
    if n > 0 {
        lemma_lines_upto_shape(s, (n - 1) as nat);
        let prev = lines_upto(s, (n - 1) as nat);
        let c = s[n - 1];
        if c == '\n' {
            let l = strip_cr(prev.1);
            assert forall|j: int| 0 <= j < l.len() implies #[trigger] l[j] != '\n' by {
                assert(l[j] == prev.1[j]);
            }
        } else {
            assert forall|j: int| 0 <= j < prev.1.push(c).len() implies #[trigger] prev.1.push(
                c,
            )[j] != '\n' by {
                if j < prev.1.len() {
                    assert(prev.1.push(c)[j] == prev.1[j]);
                }
            }
        }
    }
}

/// No line holds a line feed.
pub proof fn law_lines_hold_no_line_feed(s: Seq<char>)
    ensures
        forall|i: int| 0 <= i < lines(s).len() ==> lf_free(#[trigger] lines(s)[i]),
{
    lemma_lines_upto_shape(s, s.len());
}

proof fn lemma_char_seqs_push(v: Seq<Vec<char>>, x: Vec<char>)
    ensures
        char_seqs(v.push(x)) == char_seqs(v).push(x@),
{
    assert(char_seqs(v.push(x)) =~= char_seqs(v).push(x@));
}

/// The words of `s`.
pub fn split_words(s: &Vec<char>) -> (w: Vec<Vec<char>>)
    ensures
        char_seqs(w@) == words(s@),
{
    let mut done: Vec<Vec<char>> = Vec::new();
    let mut cur: Vec<char> = Vec::new();
    let mut i: usize = 0;
    while i < s.len()
        invariant
            i <= s@.len(),
            (char_seqs(done@), cur@) == words_upto(s@, i as nat),
        decreases s@.len() - i,
    {
        let c = s[i];
        if is_whitespace(c) {
            if cur.len() > 0 {
                proof {
                    lemma_char_seqs_push(done@, cur);
                }
                done.push(cur);
                cur = Vec::new();
            } else {
                cur = Vec::new();
            }
        } else {
            cur.push(c);
        }
        i += 1;
    }
    if cur.len() > 0 {
        proof {
            lemma_char_seqs_push(done@, cur);
        }
        done.push(cur);
    }
    done
}

/// The lines of `s`.
pub fn split_lines(s: &Vec<char>) -> (l: Vec<Vec<char>>)
    ensures
        char_seqs(l@) == lines(s@),
{
    let mut done: Vec<Vec<char>> = Vec::new();
    let mut cur: Vec<char> = Vec::new();
    let mut i: usize = 0;
    while i < s.len()
        invariant
            i <= s@.len(),
            (char_seqs(done@), cur@) == lines_upto(s@, i as nat),
        decreases s@.len() - i,
    {
        let c = s[i];
        if c == '\n' {
            let n = cur.len();
            if n > 0 && cur[n - 1] == '\r' {
                cur.pop();
            }
            proof {
                lemma_char_seqs_push(done@, cur);
            }
            done.push(cur);
            cur = Vec::new();
        } else {
            cur.push(c);
        }
        i += 1;
    }
    if cur.len() > 0 {
        proof {
            lemma_char_seqs_push(done@, cur);
        }
        done.push(cur);
    }
    done
}

} // verus!
