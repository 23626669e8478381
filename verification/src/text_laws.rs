//! What the text operations and the reading of JSON members come down to: how they
//! act on texts put together from parts.

use vstd::prelude::*;
use crate::json::{JsonView, NumberView, control_escape, json_escaped, json_quoted, lemma_lookup_at,
    lookup, signed_decimal};
use crate::text::{decimal, digit, first_pos, has_infix, has_prefix, has_suffix, infix_at, joined,
    lemma_first_pos, lemma_first_pos_is, lemma_trimmed_end_at, lemma_trimmed_start_at, lines_of,
    replaced, split_at_first, text_of, texts, trimmed, trimmed_end, trimmed_start, white_space,
    without_suffixes};

verus! {

// Parts of a text.

/// A text starts with another exactly where it is the other with something after
/// it.
pub proof fn law_prefix_is_what_a_text_starts_with(s: Seq<char>, p: Seq<char>)
    ensures
        has_prefix(s, p) <==> exists|rest: Seq<char>| s == #[trigger] (p + rest),
{
    if has_prefix(s, p) {
        assert(s =~= p + s.skip(p.len() as int));
    }
    if exists|rest: Seq<char>| s == #[trigger] (p + rest) {
        let rest = choose|rest: Seq<char>| s == #[trigger] (p + rest);
        assert(s.take(p.len() as int) =~= p);
    }
}

/// A text ends with another exactly where it is the other with something before
/// it.
pub proof fn law_suffix_is_what_a_text_ends_with(s: Seq<char>, p: Seq<char>)
    ensures
        has_suffix(s, p) <==> exists|start: Seq<char>| s == #[trigger] (start + p),
{
    if has_suffix(s, p) {
        assert(s =~= s.take(s.len() - p.len()) + p);
    }
    if exists|start: Seq<char>| s == #[trigger] (start + p) {
        let start = choose|start: Seq<char>| s == #[trigger] (start + p);
        assert(s.skip(s.len() - p.len()) =~= p);
    }
}

/// A text holds another exactly where it is the other with something before and
/// something after it.
pub proof fn law_infix_is_what_a_text_holds(s: Seq<char>, p: Seq<char>)
    ensures
        has_infix(s, p) <==> exists|a: Seq<char>, b: Seq<char>| s == #[trigger] (a + p + b),
{
    if has_infix(s, p) {
        let i = choose|i: int| #[trigger] infix_at(s, p, i);
        assert(s =~= s.take(i) + p + s.skip(i + p.len())) by {
            assert(s.subrange(i, i + p.len()) == p);
            assert forall|j: int| 0 <= j < p.len() implies s[i + j] == p[j] by {
                assert(s.subrange(i, i + p.len())[j] == s[i + j]);
            }
        }
    }
    if exists|a: Seq<char>, b: Seq<char>| s == #[trigger] (a + p + b) {
        let (a, b) = choose|a: Seq<char>, b: Seq<char>| s == #[trigger] (a + p + b);
        let n: int = a.len() as int;
        assert(s.subrange(n, n + p.len()) =~= p);
        assert(infix_at(s, p, n));
    }
}

/// A text is split where a character stands in it for the first time; one without
/// the character is not split.
pub proof fn law_split_at_the_first(before: Seq<char>, c: char, after: Seq<char>)
    requires
        !before.contains(c),
    ensures
        split_at_first(before + seq![c] + after, c) == Some((before, after)),
        split_at_first(before, c) is None,
{
    let s = before + seq![c] + after;
    assert forall|j: int| 0 <= j < before.len() implies before[j] != c by {
        if before[j] == c {
            assert(before.contains(c));
        }
    }
    lemma_first_pos_is(s, c, before.len() as int);
    lemma_first_pos_is(before, c, before.len() as int);
    assert(s.take(before.len() as int) =~= before);
    assert(s.skip((before.len() + 1) as int) =~= after);
}

/// A split text is what stands before the character, the character, and what
/// stands after it.
pub proof fn law_split_gives_all_of_the_text(s: Seq<char>, c: char)
    ensures
        split_at_first(s, c) is Some <==> s.contains(c),
        split_at_first(s, c) matches Some((before, after)) ==> s == before + seq![c] + after
            && !before.contains(c),
{
    lemma_first_pos(s, c);
    let i = first_pos(s, c);
    if i < s.len() {
        assert(s[i] == c);
        assert(s =~= s.take(i) + seq![c] + s.skip(i + 1));
        assert forall|j: int| 0 <= j < s.take(i).len() implies s.take(i)[j] != c by {
            assert(s.take(i)[j] == s[j]);
        }
    } else {
        assert forall|j: int| 0 <= j < s.len() implies s[j] != c by {}
    }
}

/// The characters that count as white space.
pub proof fn law_white_space(c: char)
    ensures
        white_space(c) <==> {
            let code = c as u32;
            ||| 9 <= code <= 13
            ||| code == 32
            ||| code == 133
            ||| code == 160
            ||| code == 5760
            ||| 8192 <= code <= 8202
            ||| code == 8232
            ||| code == 8233
            ||| code == 8239
            ||| code == 8287
            ||| code == 12288
        },
{
}

/// Trimming takes off all white space on both sides and nothing else.
pub proof fn law_trimming_takes_off_white_space(
    before: Seq<char>,
    s: Seq<char>,
    after: Seq<char>,
)
    requires
        forall|i: int| 0 <= i < before.len() ==> white_space(#[trigger] before[i]),
        forall|i: int| 0 <= i < after.len() ==> white_space(#[trigger] after[i]),
        s.len() > 0 ==> !white_space(s[0]) && !white_space(s.last()),
    ensures
        trimmed(before + s + after) == s,
{
    let all = before + s + after;
    let n = before.len() as int;
    if s.len() == 0 {
        assert forall|j: int| 0 <= j < all.len() implies white_space(all[j]) by {
            if j < n {
                assert(all[j] == before[j]);
            } else {
                assert(all[j] == after[j - n]);
            }
        }
        lemma_trimmed_start_at(all, all.len() as int);
        assert(all.skip(all.len() as int) =~= s);
        assert(trimmed_start(all) =~= s);
        assert(trimmed_end(s) == s);
    } else {
        assert forall|j: int| 0 <= j < n implies white_space(all[j]) by {
            assert(all[j] == before[j]);
        }
        assert(all[n] == s[0]);
        lemma_trimmed_start_at(all, n);
        let rest = all.skip(n);
        let m = s.len() as int;
        assert(rest =~= s + after);
        assert forall|j: int| m <= j < rest.len() implies white_space(rest[j]) by {
            assert(rest[j] == after[j - m]);
        }
        assert(rest[m - 1] == s.last());
        lemma_trimmed_end_at(rest, m);
        assert(rest.take(m) =~= s);
    }
}

/// A line ends at a line feed; a carriage return before it belongs to the end. The
/// last line needs no end, and keeps what it holds.
pub proof fn law_lines_end_at_line_feeds(line: Seq<char>, rest: Seq<char>)
    requires
        !line.contains('\n'),
    ensures
        line.len() > 0 ==> lines_of(line) == seq![line],
        lines_of(Seq::empty()) == Seq::<Seq<char>>::empty(),
        lines_of(line + seq!['\r', '\n'] + rest) == seq![line] + lines_of(rest),
        (line.len() == 0 || line.last() != '\r') ==> lines_of(line + seq!['\n'] + rest)
            == seq![line] + lines_of(rest),
{
    assert forall|j: int| 0 <= j < line.len() implies line[j] != '\n' by {
        if line[j] == '\n' {
            assert(line.contains('\n'));
        }
    }
    lemma_first_pos_is(line, '\n', line.len() as int);
    let n = line.len() as int;
    let a = line + seq!['\r', '\n'] + rest;
    assert(a[n] == '\r' && a[n + 1] == '\n');
    lemma_first_pos_is(a, '\n', n + 1);
    assert(a.take(n + 1).last() == '\r');
    assert(a.take(n + 1).drop_last() =~= line);
    assert(a.skip(n + 2) =~= rest);
    assert(lines_of(a) =~= seq![line] + lines_of(rest));
    let b = line + seq!['\n'] + rest;
    assert(b[n] == '\n');
    lemma_first_pos_is(b, '\n', n);
    assert(b.take(n) =~= line);
    assert(b.skip(n + 1) =~= rest);
}

/// Joining two lists is joining each and putting the separator between.
pub proof fn law_joining_puts_the_separator_between(
    a: Seq<Seq<char>>,
    b: Seq<Seq<char>>,
    sep: Seq<char>,
    one: Seq<char>,
)
    ensures
        joined(Seq::empty(), sep) == Seq::<char>::empty(),
        joined(seq![one], sep) == one,
        a.len() > 0 && b.len() > 0 ==> joined(a + b, sep) == joined(a, sep) + sep + joined(b, sep),
    decreases b.len(),
{
    if a.len() > 0 && b.len() > 0 {
        let all = a + b;
        assert(all.last() == b.last());
        assert(all.drop_last() =~= a + b.drop_last());
        if b.len() > 1 {
            law_joining_puts_the_separator_between(a, b.drop_last(), sep, one);
            assert(joined(all, sep) =~= joined(a, sep) + sep + joined(b, sep));
        } else {
            assert(a + b.drop_last() =~= a);
        }
    }
}

/// Taking an end off a text takes off as many copies of it as stand there.
pub proof fn law_every_copy_of_an_end_is_taken_off(s: Seq<char>, p: Seq<char>)
    requires
        p.len() > 0,
    ensures
        without_suffixes(s + p, p) == without_suffixes(s, p),
        (forall|start: Seq<char>| s != #[trigger] (start + p)) ==> without_suffixes(s, p) == s,
{
    let t = s + p;
    assert(t.skip(t.len() - p.len()) =~= p);
    assert(t.take(t.len() - p.len()) =~= s);
    law_suffix_is_what_a_text_ends_with(s, p);
}

/// A text in which the pattern does not stand stays as it is; otherwise what stands
/// before the first place where it stands stays, the pattern is replaced, and the
/// rest is treated alike.
pub proof fn law_replacing_goes_from_the_left(
    before: Seq<char>,
    p: Seq<char>,
    after: Seq<char>,
    r: Seq<char>,
)
    requires
        p.len() > 0,
        forall|a: Seq<char>, b: Seq<char>|
            before + p == #[trigger] (a + p + b) ==> a.len() >= before.len(),
    ensures
        replaced(before + p + after, p, r) == before + r + replaced(after, p, r),
    decreases before.len(),
{
    let s = before + p + after;
    if before.len() == 0 {
        assert(s =~= p + after);
        assert(s.take(p.len() as int) =~= p);
        assert(s.skip(p.len() as int) =~= after);
        assert(replaced(s, p, r) =~= before + r + replaced(after, p, r));
    } else {
        if has_prefix(s, p) {
            assert forall|j: int| 0 <= j < p.len() implies (before + p)[j] == p[j] by {
                assert(s.take(p.len() as int)[j] == s[j]);
            }
            let none = Seq::<char>::empty();
            let rest = (before + p).skip(p.len() as int);
            assert(before + p =~= none + p + rest);
            assert(false);
        }
        let t = before.skip(1);
        assert(s.skip(1) =~= t + p + after);
        assert forall|a: Seq<char>, b: Seq<char>| t + p == #[trigger] (a + p + b) implies a.len()
            >= t.len() by {
            let whole = before.take(1) + a;
            assert(before + p =~= before.take(1) + (t + p));
            assert(before + p =~= whole + p + b);
        }
        law_replacing_goes_from_the_left(t, p, after, r);
        assert(replaced(s, p, r) =~= before + r + replaced(after, p, r)) by {
            assert(s.take(1) =~= before.take(1));
            assert(before =~= before.take(1) + t);
        }
    }
}

/// A text in which the pattern does not stand stays as it is.
pub proof fn law_replacing_leaves_other_texts(s: Seq<char>, p: Seq<char>, r: Seq<char>)
    requires
        p.len() > 0,
        forall|a: Seq<char>, b: Seq<char>| s != #[trigger] (a + p + b),
    ensures
        replaced(s, p, r) == s,
    decreases s.len(),
{
    if s.len() > 0 {
        if has_prefix(s, p) {
            let none = Seq::<char>::empty();
            assert(s =~= none + p + s.skip(p.len() as int)) by {
                assert(s.take(p.len() as int) == p);
                assert(s =~= s.take(p.len() as int) + s.skip(p.len() as int));
            }
            assert(false);
        }
        let t = s.skip(1);
        assert forall|a: Seq<char>, b: Seq<char>| t != #[trigger] (a + p + b) by {
            if t == a + p + b {
                let whole = s.take(1) + a;
                assert(s =~= s.take(1) + t);
                assert(s =~= whole + p + b);
                assert(false);
            }
        }
        law_replacing_leaves_other_texts(t, p, r);
        assert(s =~= s.take(1) + t);
    }
}

// Numbers.

/// The number that a text of decimal digits stands for.
pub open spec fn number_read(s: Seq<char>) -> int
    decreases s.len(),
{
    if s.len() == 0 {
        0
    } else {
        10 * number_read(s.drop_last()) + (s.last() as int - '0' as int)
    }
}

/// A number in decimal is made of digits alone, does not start with a zero that
/// could be left out, and reads as the number.
pub proof fn law_decimal_reads_as_the_number(n: nat)
    ensures
        decimal(n).len() > 0,
        forall|i: int| 0 <= i < decimal(n).len() ==> '0' <= #[trigger] decimal(n)[i] <= '9',
        n > 0 ==> decimal(n)[0] != '0',
        number_read(decimal(n)) == n,
    decreases n,
{
    reveal_with_fuel(number_read, 2);
    let d = digit(n % 10);
    assert(d as int == '0' as int + (n % 10) as int) by {
        let m = (n % 10) as u8;
        assert(48 + m < 256);
    }
    if n < 10 {
        assert(n % 10 == n);
        assert(seq![digit(n)].drop_last() =~= seq![]);
    } else {
        law_decimal_reads_as_the_number(n / 10);
        assert(decimal(n).drop_last() =~= decimal(n / 10));
        assert(decimal(n)[0] == decimal(n / 10)[0]);
        assert forall|i: int| 0 <= i < decimal(n).len() implies '0' <= #[trigger] decimal(n)[i]
            <= '9' by {
            if i < decimal(n / 10).len() {
                assert(decimal(n)[i] == decimal(n / 10)[i]);
            }
        }
    }
}

/// A negative integer is a minus sign before its amount; any other is the amount.
pub proof fn law_signed_decimal(n: nat)
    ensures
        signed_decimal(n as int) == decimal(n),
        n > 0 ==> signed_decimal(-(n as int)) == seq!['-'] + decimal(n),
{
    reveal_strlit("-");
    assert("-"@ =~= seq!['-']);
}

// Lists of texts.

/// What is said of a list of strings is said of each of its texts, in order.
pub proof fn law_texts_are_the_strings(list: Seq<String>, s: Option<String>)
    ensures
        texts(list).len() == list.len(),
        forall|i: int| 0 <= i < list.len() ==> #[trigger] texts(list)[i] == list[i]@,
        s is None ==> text_of(s) is None,
        s matches Some(t) ==> text_of(s) == Some(t@),
{
}

// Members of JSON objects.

/// The value under a key is that of the first member with the key.
pub proof fn law_first_member_counts(ms: Seq<(Seq<char>, JsonView)>, i: int)
    requires
        0 <= i < ms.len(),
        forall|j: int| 0 <= j < i ==> (#[trigger] ms[j]).0 != ms[i].0,
    ensures
        lookup(ms, ms[i].0) == Some(ms[i].1),
        JsonView::Object(ms).get(ms[i].0) == Some(ms[i].1),
        ms[i].1 matches JsonView::String(s) ==> JsonView::Object(ms).str_at(ms[i].0) == Some(s),
        !(ms[i].1 is String) ==> JsonView::Object(ms).str_at(ms[i].0) is None,
        ms[i].1 matches JsonView::Number(NumberView::PosInt(n)) ==> JsonView::Object(ms).u64_at(
            ms[i].0,
        ) == Some(n),
        (!(ms[i].1 is Number) || !(ms[i].1->Number_0 is PosInt)) ==> JsonView::Object(ms).u64_at(
            ms[i].0,
        ) is None,
{
    lemma_lookup_at(ms, ms[i].0, i);
    assert(ms.skip(i)[0] == ms[i]);
}

/// A value that is no object, or has no member with the key, has nothing under it.
pub proof fn law_absent_members_are_not_found(j: JsonView, key: Seq<char>)
    requires
        j matches JsonView::Object(ms) ==> forall|i: int|
            0 <= i < ms.len() ==> (#[trigger] ms[i]).0 != key,
    ensures
        j.get(key) is None,
        j.str_at(key) is None,
        j.u64_at(key) is None,
{
    if let JsonView::Object(ms) = j {
        lemma_lookup_at(ms, key, ms.len() as int);
        assert(ms.skip(ms.len() as int).len() == 0);
    }
}

/// Quoting a text puts it between double quotes and escapes it character by
/// character; only quotes, backslashes and control characters change.
pub proof fn law_quoting_goes_by_characters(a: Seq<char>, b: Seq<char>, c: char)
    ensures
        json_quoted(a) == seq!['"'] + json_escaped(a) + seq!['"'],
        json_escaped(a + b) == json_escaped(a) + json_escaped(b),
        c >= ' ' && c != '"' && c != '\\' ==> json_escaped(seq![c]) == seq![c],
        json_escaped(seq!['"']) == seq!['\\', '"'],
        json_escaped(seq!['\\']) == seq!['\\', '\\'],
        json_escaped(seq!['\n']) == seq!['\\', 'n'],
        json_escaped(seq!['\r']) == seq!['\\', 'r'],
        json_escaped(seq!['\t']) == seq!['\\', 't'],
        json_escaped(seq!['\u{8}']) == seq!['\\', 'b'],
        json_escaped(seq!['\u{c}']) == seq!['\\', 'f'],
    decreases b.len(),
{
    reveal_with_fuel(json_escaped, 2);
    assert forall|d: char| #[trigger] seq![d].drop_last() =~= seq![] by {}
    if b.len() == 0 {
        assert(a + b =~= a);
        assert(json_escaped(a + b) =~= json_escaped(a) + json_escaped(b));
    } else {
        law_quoting_goes_by_characters(a, b.drop_last(), c);
        assert((a + b).drop_last() =~= a + b.drop_last());
        assert((a + b).last() == b.last());
        assert(json_escaped(a + b) =~= json_escaped(a) + json_escaped(b));
    }
}

/// Any other control character is escaped by its number, in four hexadecimal
/// digits.
pub proof fn law_control_characters_are_escaped_by_number(c: char)
    requires
        c < ' ',
        c != '\u{8}' && c != '\t' && c != '\n' && c != '\u{c}' && c != '\r',
    ensures
        json_escaped(seq![c]).len() == 6,
        json_escaped(seq![c]).take(4) == seq!['\\', 'u', '0', '0'],
        json_escaped(seq![c])[4] == if (c as int) < 16 {
            '0'
        } else {
            '1'
        },
        json_escaped(seq![c])[5] as int == if (c as int) % 16 < 10 {
            '0' as int + (c as int) % 16
        } else {
            'a' as int + (c as int) % 16 - 10
        },
{
    reveal_with_fuel(json_escaped, 2);
    assert(seq![c].drop_last() =~= seq![]);
    let code = c as int;
    assert(0 <= code < 32);
    assert(json_escaped(seq![c]) =~= control_escape(code));
    assert(control_escape(code).take(4) =~= seq!['\\', 'u', '0', '0']);
}

} // verus!
