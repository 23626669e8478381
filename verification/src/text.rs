//! Text, modelled as a sequence of characters, and the string operations that
//! the agent's file formats and messages are made of.

use vstd::prelude::*;
use vstd::string::*;

verus! {

/// The texts that a list of strings holds.
pub open spec fn texts(list: Seq<String>) -> Seq<Seq<char>> {
    Seq::new(list.len(), |i: int| list[i]@)
}

/// The text in an optional string.
pub open spec fn text_of(s: Option<String>) -> Option<Seq<char>> {
    match s {
        Some(s) => Some(s@),
        None => None,
    }
}

/// Whether `c` has Unicode's `White_Space` property.
pub open spec fn white_space(c: char) -> bool {
    ||| '\u{9}' <= c <= '\u{d}'
    ||| c == ' '
    ||| c == '\u{85}'
    ||| c == '\u{a0}'
    ||| c == '\u{1680}'
    ||| '\u{2000}' <= c <= '\u{200a}'
    ||| c == '\u{2028}'
    ||| c == '\u{2029}'
    ||| c == '\u{202f}'
    ||| c == '\u{205f}'
    ||| c == '\u{3000}'
}

/// `s` without the white space that it starts with.
pub open spec fn trimmed_start(s: Seq<char>) -> Seq<char>
    decreases s.len(),
{
    if s.len() > 0 && white_space(s[0]) {
        trimmed_start(s.drop_first())
    } else {
        s
    }
}

/// `s` without the white space that it ends with.
pub open spec fn trimmed_end(s: Seq<char>) -> Seq<char>
    decreases s.len(),
{
    if s.len() > 0 && white_space(s.last()) {
        trimmed_end(s.drop_last())
    } else {
        s
    }
}

/// `s` without the white space at either end.
pub open spec fn trimmed(s: Seq<char>) -> Seq<char> {
    trimmed_end(trimmed_start(s))
}

/// Where `c` first stands in `s`; the length of `s` where it does not.
pub open spec fn first_pos(s: Seq<char>, c: char) -> int
    decreases s.len(),
{
    if s.len() == 0 || s[0] == c {
        0
    } else {
        1 + first_pos(s.drop_first(), c)
    }
}

/// What stands before and after the first `c` in `s`.
pub open spec fn split_at_first(s: Seq<char>, c: char) -> Option<(Seq<char>, Seq<char>)> {
    let i = first_pos(s, c);
    if i < s.len() {
        Some((s.take(i), s.skip(i + 1)))
    } else {
        None
    }
}

/// `s` without the carriage return that it ends with, where it ends with one.
pub open spec fn without_cr(s: Seq<char>) -> Seq<char> {
    if s.len() > 0 && s.last() == '\r' {
        s.drop_last()
    } else {
        s
    }
}

/// The lines of `s`. A line ends at a line feed, alone or after a carriage
/// return; what follows the last line feed is a line unless it is empty.
pub open spec fn lines_of(s: Seq<char>) -> Seq<Seq<char>>
    decreases s.len(),
{
    let i = first_pos(s, '\n');
    if s.len() == 0 {
        seq![]
    } else if 0 <= i < s.len() {
        seq![without_cr(s.take(i))] + lines_of(s.skip(i + 1))
    } else {
        seq![s]
    }
}

/// Whether `s` starts with `p`.
pub open spec fn has_prefix(s: Seq<char>, p: Seq<char>) -> bool {
    p.len() <= s.len() && s.take(p.len() as int) == p
}

/// Whether `s` ends with `p`.
pub open spec fn has_suffix(s: Seq<char>, p: Seq<char>) -> bool {
    p.len() <= s.len() && s.skip(s.len() - p.len()) == p
}

/// Whether `p` stands somewhere in `s`.
pub open spec fn has_infix(s: Seq<char>, p: Seq<char>) -> bool {
    exists|i: int| #[trigger] infix_at(s, p, i)
}

/// Whether `p` stands in `s` at position `i`.
pub open spec fn infix_at(s: Seq<char>, p: Seq<char>, i: int) -> bool {
    0 <= i <= s.len() - p.len() && s.subrange(i, i + p.len()) == p
}

/// `s` after as many copies of `p` as stand at its end have been taken off.
pub open spec fn without_suffixes(s: Seq<char>, p: Seq<char>) -> Seq<char>
    decreases s.len(),
{
    if p.len() > 0 && has_suffix(s, p) {
        without_suffixes(s.take(s.len() - p.len()), p)
    } else {
        s
    }
}

/// `s` with each occurrence of the non-empty `p`, found from the left, replaced
/// by `r`.
pub open spec fn replaced(s: Seq<char>, p: Seq<char>, r: Seq<char>) -> Seq<char>
    decreases s.len(),
{
    if p.len() == 0 || s.len() == 0 {
        s
    } else if has_prefix(s, p) {
        r + replaced(s.skip(p.len() as int), p, r)
    } else {
        s.take(1) + replaced(s.skip(1), p, r)
    }
}

/// The elements of `list` one after the other, with `sep` between them.
pub open spec fn joined(list: Seq<Seq<char>>, sep: Seq<char>) -> Seq<char>
    decreases list.len(),
{
    if list.len() == 0 {
        seq![]
    } else if list.len() == 1 {
        list[0]
    } else {
        joined(list.drop_last(), sep) + sep + list.last()
    }
}

/// The decimal digit for a value below ten.
pub open spec fn digit(n: nat) -> char {
    ('0' as u8 + n) as char
}

/// `n` in decimal, without leading zeros.
pub open spec fn decimal(n: nat) -> Seq<char>
    decreases n,
{
    if n < 10 {
        seq![digit(n)]
    } else {
        decimal(n / 10).push(digit(n % 10))
    }
}

// Facts about the definitions above.

/// The first position of a character is the first one that holds it.
pub proof fn lemma_first_pos(s: Seq<char>, c: char)
    ensures
        0 <= first_pos(s, c) <= s.len(),
        forall|j: int| 0 <= j < first_pos(s, c) ==> s[j] != c,
        first_pos(s, c) < s.len() ==> s[first_pos(s, c)] == c,
    decreases s.len(),
{
    if s.len() == 0 || s[0] == c {
    } else {
        let t = s.drop_first();
        lemma_first_pos(t, c);
        assert forall|j: int| 0 <= j < first_pos(s, c) implies s[j] != c by {
            if j > 0 {
                assert(s[j] == t[j - 1]);
            }
        }
    }
}

/// The first position that holds a character is its first position.
pub proof fn lemma_first_pos_is(s: Seq<char>, c: char, i: int)
    requires
        0 <= i <= s.len(),
        forall|j: int| 0 <= j < i ==> s[j] != c,
        i < s.len() ==> s[i] == c,
    ensures
        first_pos(s, c) == i,
{
    lemma_first_pos(s, c);
    let k = first_pos(s, c);
    if k < i {
        assert(s[k] != c);
    } else if i < k {
        assert(s[i] != c);
    }
}

/// White space at the start can be passed over.
pub proof fn lemma_trimmed_start_at(s: Seq<char>, i: int)
    requires
        0 <= i <= s.len(),
        forall|j: int| 0 <= j < i ==> white_space(s[j]),
        i < s.len() ==> !white_space(s[i]),
    ensures
        trimmed_start(s) == s.skip(i),
    decreases i,
{
    if i == 0 {
        assert(s.skip(0) =~= s);
    } else {
        let t = s.drop_first();
        assert forall|j: int| 0 <= j < i - 1 implies white_space(t[j]) by {
            assert(t[j] == s[j + 1]);
        }
        lemma_trimmed_start_at(t, i - 1);
        assert(t.skip(i - 1) =~= s.skip(i));
    }
}

/// White space at the end can be passed over.
pub proof fn lemma_trimmed_end_at(s: Seq<char>, i: int)
    requires
        0 <= i <= s.len(),
        forall|j: int| i <= j < s.len() ==> white_space(s[j]),
        i > 0 ==> !white_space(s[i - 1]),
    ensures
        trimmed_end(s) == s.take(i),
    decreases s.len() - i,
{
    if i == s.len() {
        assert(s.take(i) =~= s);
    } else {
        let t = s.drop_last();
        lemma_trimmed_end_at(t, i);
        assert(t.take(i) =~= s.take(i));
    }
}

// Executable counterparts.

/// The characters of `s`.
pub fn chars_of(s: &str) -> (r: Vec<char>)
    ensures
        r@ == s@,
{
    let mut v: Vec<char> = Vec::new();
    for c in it: s.chars()
        invariant
            it.seq() == s@,
            v@ == s@.take(it.index() as int),
    {
        v.push(c);
    }
    v
}

/// Whether the two strings hold the same text.
pub fn same_text(a: &str, b: &str) -> (r: bool)
    ensures
        r == (a@ == b@),
{
    a.to_owned() == b.to_owned()
}

/// Whether `c` is white space.
pub fn is_white_space(c: char) -> (r: bool)
    ensures
        r == white_space(c),
{
    ('\u{9}' <= c && c <= '\u{d}') || c == ' ' || c == '\u{85}' || c == '\u{a0}' || c == '\u{1680}'
        || ('\u{2000}' <= c && c <= '\u{200a}') || c == '\u{2028}' || c == '\u{2029}'
        || c == '\u{202f}' || c == '\u{205f}' || c == '\u{3000}'
}

/// `s` without the white space at either end.
pub fn trim(s: &str) -> (r: &str)
    ensures
        r@ == trimmed(s@),
{
    let cs: Vec<char> = chars_of(s);
    let n: usize = cs.len();
    let mut i: usize = 0;
    while i < n && is_white_space(cs[i])
        invariant
            cs@ == s@,
            n == cs@.len(),
            i <= n,
            forall|j: int| 0 <= j < i ==> white_space(s@[j]),
        decreases n - i,
    {
        i = i + 1;
    }
    let mut k: usize = n;
    while k > i && is_white_space(cs[k - 1])
        invariant
            cs@ == s@,
            n == cs@.len(),
            i <= k <= n,
            i < n ==> !white_space(s@[i as int]),
            forall|j: int| k <= j < n ==> white_space(s@[j]),
        decreases k,
    {
        k = k - 1;
    }
    proof {
        lemma_trimmed_start_at(s@, i as int);
        let t = s@.skip(i as int);
        assert forall|j: int| k - i <= j < t.len() implies white_space(t[j]) by {
            assert(t[j] == s@[j + i]);
        }
        if k > i {
            assert(t[k - i - 1] == s@[k - 1]);
        }
        lemma_trimmed_end_at(t, k - i);
        assert(t.take(k - i) =~= s@.subrange(i as int, k as int));
    }
    s.substring_char(i, k)
}

/// Where `c` first stands in `cs` at or after `from`; the length where nowhere.
fn find_char(cs: &Vec<char>, from: usize, c: char) -> (r: usize)
    requires
        from <= cs@.len(),
    ensures
        from <= r <= cs@.len(),
        r - from == first_pos(cs@.skip(from as int), c),
{
    let n: usize = cs.len();
    let mut i: usize = from;
    while i < n && cs[i] != c
        invariant
            n == cs@.len(),
            from <= i <= n,
            forall|j: int| from <= j < i ==> cs@[j] != c,
        decreases n - i,
    {
        i = i + 1;
    }
    proof {
        let t = cs@.skip(from as int);
        assert forall|j: int| 0 <= j < i - from implies t[j] != c by {
            assert(t[j] == cs@[j + from]);
        }
        lemma_first_pos_is(t, c, i - from);
    }
    i
}

/// What stands before and after the first `c` in `s`.
pub fn split_once(s: &str, c: char) -> (r: Option<(&str, &str)>)
    ensures
        match r {
            Some((a, b)) => split_at_first(s@, c) == Some((a@, b@)),
            None => split_at_first(s@, c) is None,
        },
{
    let cs: Vec<char> = chars_of(s);
    let i: usize = find_char(&cs, 0, c);
    proof {
        assert(s@.skip(0) =~= s@);
    }
    if i < cs.len() {
        let a = s.substring_char(0, i);
        let b = s.substring_char(i + 1, cs.len());
        proof {
            assert(a@ =~= s@.take(i as int));
            assert(b@ =~= s@.skip(i + 1));
        }
        Some((a, b))
    } else {
        None
    }
}

/// The lines of `s`.
pub fn lines(s: &str) -> (r: Vec<String>)
    ensures
        texts(r@) == lines_of(s@),
{
    let cs: Vec<char> = chars_of(s);
    let n: usize = cs.len();
    let mut out: Vec<String> = Vec::new();
    let mut i: usize = 0;
    proof {
        assert(s@.skip(0) =~= s@);
        assert(texts(out@) + lines_of(s@) =~= lines_of(s@));
    }
    while i < n
        invariant
            cs@ == s@,
            n == cs@.len(),
            i <= n,
            texts(out@) + lines_of(s@.skip(i as int)) == lines_of(s@),
        decreases n - i,
    {
        let k: usize = find_char(&cs, i, '\n');
        let ghost rest = s@.skip(i as int);
        let ghost before = texts(out@);
        let mut end: usize = k;
        if k < n && k > i && cs[k - 1] == '\r' {
            end = k - 1;
        }
        let line = s.substring_char(i, end);
        out.push(line.to_owned());
        proof {
            if k < n {
                let head = rest.take(k - i);
                assert(line@ =~= without_cr(head)) by {
                    if k > i {
                        assert(head.last() == cs@[k - 1]);
                    }
                }
                assert(rest.skip(k - i + 1) =~= s@.skip(k + 1));
            } else {
                assert(line@ =~= rest);
                assert(s@.skip(n as int) =~= seq![]);
            }
            assert(texts(out@) =~= before.push(line@));
            if k < n {
                assert(texts(out@) + lines_of(s@.skip(k + 1)) =~= before + lines_of(rest));
            } else {
                assert(texts(out@) + lines_of(s@.skip(n as int)) =~= before + lines_of(rest));
            }
        }
        if k < n {
            i = k + 1;
        } else {
            i = n;
        }
    }
    proof {
        assert(s@.skip(n as int) =~= seq![]);
        assert(texts(out@) + lines_of(s@.skip(n as int)) =~= texts(out@));
    }
    out
}

/// Whether `p` stands in `cs` at position `i`.
fn stands_at(cs: &Vec<char>, i: usize, p: &Vec<char>) -> (r: bool)
    requires
        i <= cs@.len(),
    ensures
        r == (p@.len() <= cs@.len() - i && cs@.subrange(i as int, i + p@.len()) == p@),
{
    let n: usize = cs.len();
    if p.len() > n - i {
        return false;
    }
    let mut j: usize = 0;
    while j < p.len()
        invariant
            n == cs@.len(),
            i + p@.len() <= n,
            j <= p@.len(),
            forall|m: int| 0 <= m < j ==> cs@[i + m] == p@[m],
        decreases p@.len() - j,
    {
        if cs[i + j] != p[j] {
            proof {
                assert(cs@.subrange(i as int, i + p@.len())[j as int] == cs@[i + j]);
            }
            return false;
        }
        j = j + 1;
    }
    proof {
        assert(cs@.subrange(i as int, i + p@.len()) =~= p@);
    }
    true
}

/// Whether `p` stands somewhere in `s`.
pub fn contains(s: &str, p: &str) -> (r: bool)
    ensures
        r == has_infix(s@, p@),
{
    let cs: Vec<char> = chars_of(s);
    let ps: Vec<char> = chars_of(p);
    let n: usize = cs.len();
    let mut i: usize = 0;
    while i <= n
        invariant
            cs@ == s@,
            ps@ == p@,
            n == cs@.len(),
            i <= n + 1,
            forall|k: int| 0 <= k < i ==> !infix_at(s@, p@, k),
        decreases n + 1 - i,
    {
        if stands_at(&cs, i, &ps) {
            proof {
                assert(infix_at(s@, p@, i as int));
            }
            return true;
        }
        if i == n {
            return false;
        }
        i = i + 1;
    }
    false
}

/// What follows the prefix `p` of `s`, where `s` starts with `p`.
pub fn strip_prefix<'a>(s: &'a str, p: &str) -> (r: Option<&'a str>)
    ensures
        match r {
            Some(t) => has_prefix(s@, p@) && t@ == s@.skip(p@.len() as int),
            None => !has_prefix(s@, p@),
        },
{
    let cs: Vec<char> = chars_of(s);
    let ps: Vec<char> = chars_of(p);
    proof {
        if ps@.len() <= cs@.len() {
            assert(cs@.subrange(0, ps@.len() as int) =~= s@.take(p@.len() as int));
        }
    }
    if stands_at(&cs, 0, &ps) {
        let t = s.substring_char(ps.len(), cs.len());
        proof {
            assert(t@ =~= s@.skip(p@.len() as int));
        }
        Some(t)
    } else {
        None
    }
}

/// `s` after as many copies of `p` as stand at its end have been taken off.
pub fn trim_end_matches<'a>(s: &'a str, p: &str) -> (r: &'a str)
    ensures
        r@ == without_suffixes(s@, p@),
{
    let cs: Vec<char> = chars_of(s);
    let ps: Vec<char> = chars_of(p);
    let mut n: usize = cs.len();
    proof {
        assert(s@.take(n as int) =~= s@);
    }
    while ps.len() > 0 && ps.len() <= n && stands_before(&cs, n, &ps)
        invariant
            cs@ == s@,
            ps@ == p@,
            n <= cs@.len(),
            without_suffixes(s@.take(n as int), p@) == without_suffixes(s@, p@),
        decreases n,
    {
        proof {
            let t = s@.take(n as int);
            assert(t.skip(t.len() - p@.len()) =~= s@.subrange(n - p@.len(), n as int));
            assert(has_suffix(t, p@));
            assert(t.take(t.len() - p@.len()) =~= s@.take(n - p@.len()));
        }
        n = n - ps.len();
    }
    let t = s.substring_char(0, n);
    proof {
        let u = s@.take(n as int);
        assert(t@ =~= u);
        if p@.len() > 0 && p@.len() <= n {
            assert(u.skip(u.len() - p@.len()) =~= s@.subrange(n - p@.len(), n as int));
        }
    }
    t
}

/// Whether `p` stands in `cs` right before position `n`.
fn stands_before(cs: &Vec<char>, n: usize, p: &Vec<char>) -> (r: bool)
    requires
        p@.len() <= n <= cs@.len(),
    ensures
        r == (cs@.subrange(n - p@.len(), n as int) == p@),
{
    stands_at(cs, n - p.len(), p)
}

/// `s` with each occurrence of the non-empty `p` replaced by `r`.
pub fn replace(s: &str, p: &str, r: &str) -> (out: String)
    requires
        p@.len() > 0,
    ensures
        out@ == replaced(s@, p@, r@),
{
    let cs: Vec<char> = chars_of(s);
    let ps: Vec<char> = chars_of(p);
    let n: usize = cs.len();
    let mut out: String = String::new();
    let mut i: usize = 0;
    proof {
        assert(s@.skip(0) =~= s@);
        assert(out@ + replaced(s@, p@, r@) =~= replaced(s@, p@, r@));
    }
    while i < n
        invariant
            cs@ == s@,
            ps@ == p@,
            p@.len() > 0,
            n == cs@.len(),
            i <= n,
            out@ + replaced(s@.skip(i as int), p@, r@) == replaced(s@, p@, r@),
        decreases n - i,
    {
        let ghost rest = s@.skip(i as int);
        let ghost before = out@;
        proof {
            if p@.len() <= n - i {
                assert(rest.take(p@.len() as int) =~= cs@.subrange(i as int, i + p@.len()));
            }
        }
        if stands_at(&cs, i, &ps) {
            out.append(r);
            proof {
                assert(has_prefix(rest, p@));
                assert(rest.skip(p@.len() as int) =~= s@.skip(i + p@.len()));
                assert(out@ + replaced(s@.skip(i + p@.len()), p@, r@) =~= before + replaced(
                    rest,
                    p@,
                    r@,
                ));
            }
            i = i + ps.len();
        } else {
            let one = s.substring_char(i, i + 1);
            out.append(one);
            proof {
                assert(!has_prefix(rest, p@));
                assert(one@ =~= rest.take(1));
                assert(rest.skip(1) =~= s@.skip(i + 1));
                assert(out@ + replaced(s@.skip(i + 1), p@, r@) =~= before + replaced(rest, p@, r@));
            }
            i = i + 1;
        }
    }
    proof {
        assert(s@.skip(n as int) =~= seq![]);
        assert(out@ + replaced(s@.skip(n as int), p@, r@) =~= out@);
    }
    out
}

/// The elements of `list` one after the other, with `sep` between them.
pub fn join(list: &Vec<String>, sep: &str) -> (r: String)
    ensures
        r@ == joined(texts(list@), sep@),
{
    let mut out: String = String::new();
    let n: usize = list.len();
    let mut i: usize = 0;
    let ghost all = texts(list@);
    proof {
        assert(all.take(0) =~= seq![]);
    }
    while i < n
        invariant
            n == list@.len(),
            all == texts(list@),
            i <= n,
            out@ == joined(all.take(i as int), sep@),
        decreases n - i,
    {
        let ghost upto = all.take(i + 1);
        proof {
            assert(upto.drop_last() =~= all.take(i as int));
            assert(upto.last() == list@[i as int]@);
        }
        if i > 0 {
            out.append(sep);
        }
        out.append(list[i].as_str());
        proof {
            if i == 0 {
                assert(out@ =~= upto[0]);
            }
        }
        i = i + 1;
    }
    proof {
        assert(all.take(n as int) =~= all);
    }
    out
}

/// The decimal digit for a value below ten.
fn digit_text(n: u64) -> (r: &'static str)
    requires
        n < 10,
    ensures
        r@ == seq![digit(n as nat)],
{
    proof {
        reveal_strlit("0");
        reveal_strlit("1");
        reveal_strlit("2");
        reveal_strlit("3");
        reveal_strlit("4");
        reveal_strlit("5");
        reveal_strlit("6");
        reveal_strlit("7");
        reveal_strlit("8");
        reveal_strlit("9");
    }
    let r = if n == 0 {
        "0"
    } else if n == 1 {
        "1"
    } else if n == 2 {
        "2"
    } else if n == 3 {
        "3"
    } else if n == 4 {
        "4"
    } else if n == 5 {
        "5"
    } else if n == 6 {
        "6"
    } else if n == 7 {
        "7"
    } else if n == 8 {
        "8"
    } else {
        "9"
    };
    proof {
        assert(r@ =~= seq![digit(n as nat)]);
    }
    r
}

/// `n` in decimal.
pub fn decimal_text(n: u64) -> (r: String)
    ensures
        r@ == decimal(n as nat),
    decreases n,
{
    if n < 10 {
        digit_text(n).to_owned()
    } else {
        let head: String = decimal_text(n / 10);
        let r: String = head.concat(digit_text(n % 10));
        proof {
            assert(r@ =~= decimal((n / 10) as nat).push(digit((n % 10) as nat)));
        }
        r
    }
}

} // verus!
