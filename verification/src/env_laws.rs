//! What holds of the `.env` file across operations: a change of it touches the
//! requested variables and nothing else, and what it wrote is read back.

use vstd::prelude::*;
use crate::dotenv::{all_changes, assignment, assignments, changes_in, edit_of, edited_line,
    edited_lines, env_completed, env_entry, env_listing, env_of, env_pos, env_set, env_value,
    lemma_env_pos, lemma_env_pos_is, line_name, lines_named, missing, set_somewhere, sets,
    skipped_line, updated_lines, where_name_has, written};
use crate::json::{JsonView, hex_digit, json_escape, json_escaped, json_quoted, lemma_lookup_at,
    lookup};
use crate::outside::lowercase_of;
use crate::text::{first_pos, has_infix, joined, lemma_first_pos, lemma_first_pos_is,
    lemma_trimmed_start_at, lines_of, split_at_first, trimmed, trimmed_end, trimmed_start,
    white_space, without_cr};
use crate::text_laws::{law_infix_is_what_a_text_holds, law_split_at_the_first,
    law_split_gives_all_of_the_text};

verus! {

/// Whether no two members have the same key.
pub open spec fn distinct_keys(values: Seq<(Seq<char>, JsonView)>) -> bool {
    forall|i: int, j: int|
        0 <= i < j < values.len() ==> (#[trigger] values[i]).0 != (#[trigger] values[j]).0
}

/// Whether `key` can be the name of a variable in a `.env` file: it holds no `=`
/// and no line feed, and does not start with white space or `#`.
pub open spec fn plain_key(key: Seq<char>) -> bool {
    &&& !key.contains('=')
    &&& !key.contains('\n')
    &&& key.len() > 0 ==> !white_space(key[0]) && key[0] != '#'
}

/// Whether the members map variable names to strings.
pub open spec fn plain_values(values: Seq<(Seq<char>, JsonView)>) -> bool {
    &&& distinct_keys(values)
    &&& forall|i: int|
        0 <= i < values.len() ==> plain_key((#[trigger] values[i]).0) && values[i].1 is String
}

/// Whether the line sets the variable `name`.
pub open spec fn names(line: Seq<char>, name: Seq<char>) -> bool {
    env_entry(line) matches Some((n, _)) && n == name
}

/// The value that the last line which sets a variable gives it.
pub open spec fn last_setting(list: Seq<Seq<char>>, name: Seq<char>) -> Option<Seq<char>>
    decreases list.len(),
{
    if list.len() == 0 {
        None
    } else {
        match env_entry(list.last()) {
            Some((n, v)) => if n == name {
                Some(v)
            } else {
                last_setting(list.drop_last(), name)
            },
            None => last_setting(list.drop_last(), name),
        }
    }
}

// Setting and reading variables.

/// Setting a variable gives it the value and leaves all others.
pub proof fn law_env_set_reads_back(
    env: Seq<(Seq<char>, Seq<char>)>,
    name: Seq<char>,
    value: Seq<char>,
    other: Seq<char>,
)
    ensures
        env_value(env_set(env, name, value), name) == Some(value),
        other != name ==> env_value(env_set(env, name, value), other) == env_value(env, other),
{
    let after = env_set(env, name, value);
    lemma_env_pos(env, name);
    lemma_env_pos(env, other);
    let i = env_pos(env, name);
    assert forall|j: int| 0 <= j < i implies (#[trigger] after[j]).0 != name by {
        assert(after[j] == env[j]);
    }
    lemma_env_pos_is(after, name, i);
    if other != name {
        let k = env_pos(env, other);
        assert forall|j: int| 0 <= j < k implies (#[trigger] after[j]).0 != other by {
            if j != i {
                assert(after[j] == env[j]);
            }
        }
        if k < env.len() {
            assert(after[k] == env[k]);
            lemma_env_pos_is(after, other, k);
        } else {
            assert(after.len() > env.len() ==> after[env.len() as int].0 == name);
            lemma_env_pos_is(after, other, after.len() as int);
        }
    }
}

/// The value of a variable in a `.env` file is the one that the last line which
/// sets it gives it.
pub proof fn law_last_setting_counts(list: Seq<Seq<char>>, name: Seq<char>)
    ensures
        env_value(env_of(list), name) == last_setting(list, name),
    decreases list.len(),
{
    if list.len() > 0 {
        let init = list.drop_last();
        law_last_setting_counts(init, name);
        match env_entry(list.last()) {
            Some((n, v)) => {
                law_env_set_reads_back(env_of(init), n, v, name);
            },
            None => {},
        }
    } else {
        lemma_env_pos(env_of(list), name);
    }
}

/// The variables that a recreated container gets: every variable of the `.env`
/// file has the value that the file gives it now, whatever the container had.
pub proof fn law_env_file_wins(
    base: Seq<(Seq<char>, Seq<char>)>,
    list: Seq<Seq<char>>,
    name: Seq<char>,
)
    requires
        env_pos(base, name) < base.len(),
    ensures
        env_value(env_completed(base, list), name) == env_value(base, name),
    decreases list.len(),
{
    if list.len() > 0 {
        law_env_file_wins(base, list.drop_last(), name);
        match split_at_first(list.last(), '=') {
            Some((n, v)) => {
                if !(env_pos(base, n) < base.len()) {
                    law_env_set_reads_back(env_completed(base, list.drop_last()), n, v, name);
                }
            },
            None => {},
        }
    }
}

/// The value that the last of a container's `NAME=value` lines gives a variable.
pub open spec fn container_value(list: Seq<Seq<char>>, name: Seq<char>) -> Option<Seq<char>>
    decreases list.len(),
{
    if list.len() == 0 {
        None
    } else {
        match split_at_first(list.last(), '=') {
            Some((n, v)) => if n == name {
                Some(v)
            } else {
                container_value(list.drop_last(), name)
            },
            None => container_value(list.drop_last(), name),
        }
    }
}

/// The variables that a recreated container gets: a variable that the `.env` file
/// does not set is preserved from the original container, and no other variable
/// is there.
pub proof fn law_container_extras_preserved(
    base: Seq<(Seq<char>, Seq<char>)>,
    list: Seq<Seq<char>>,
    name: Seq<char>,
)
    requires
        env_pos(base, name) >= base.len(),
    ensures
        env_value(env_completed(base, list), name) == container_value(list, name),
    decreases list.len(),
{
    if list.len() > 0 {
        law_container_extras_preserved(base, list.drop_last(), name);
        match split_at_first(list.last(), '=') {
            Some((n, v)) => {
                if !(env_pos(base, n) < base.len()) {
                    law_env_set_reads_back(env_completed(base, list.drop_last()), n, v, name);
                }
            },
            None => {},
        }
    }
}

/// Whether no variable is listed twice.
pub open spec fn distinct_names(env: Seq<(Seq<char>, Seq<char>)>) -> bool {
    forall|i: int, j: int|
        0 <= i < j < env.len() ==> (#[trigger] env[i]).0 != (#[trigger] env[j]).0
}

proof fn lemma_set_keeps_distinct(
    env: Seq<(Seq<char>, Seq<char>)>,
    name: Seq<char>,
    value: Seq<char>,
)
    requires
        distinct_names(env),
    ensures
        distinct_names(env_set(env, name, value)),
{
    lemma_env_pos(env, name);
}

proof fn lemma_env_of_distinct(list: Seq<Seq<char>>)
    ensures
        distinct_names(env_of(list)),
    decreases list.len(),
{
    if list.len() > 0 {
        lemma_env_of_distinct(list.drop_last());
        match env_entry(list.last()) {
            Some((n, v)) => lemma_set_keeps_distinct(env_of(list.drop_last()), n, v),
            None => {},
        }
    }
}

/// No variable is handed to a recreated container twice.
pub proof fn law_no_variable_twice(list: Seq<Seq<char>>, extra: Seq<Seq<char>>)
    ensures
        distinct_names(env_completed(env_of(list), extra)),
    decreases extra.len(),
{
    let base = env_of(list);
    if extra.len() == 0 {
        lemma_env_of_distinct(list);
    } else {
        law_no_variable_twice(list, extra.drop_last());
        match split_at_first(extra.last(), '=') {
            Some((n, v)) => lemma_set_keeps_distinct(
                env_completed(base, extra.drop_last()),
                n,
                v,
            ),
            None => {},
        }
    }
}

// Changing the file.

/// A change of the `.env` file leaves each line that sets no requested variable
/// as it was and where it was, and gives each other line the requested value.
pub proof fn law_env_update_keeps_other_lines(
    list: Seq<Seq<char>>,
    values: Seq<(Seq<char>, JsonView)>,
    i: int,
)
    requires
        0 <= i < list.len(),
    ensures
        updated_lines(list, values).len() >= list.len(),
        edit_of(list[i], values) is None ==> updated_lines(list, values)[i] == list[i],
        edit_of(list[i], values) matches Some((key, _, value)) ==> updated_lines(list, values)[i]
            == assignment(key, value) && lookup(values, key) == Some(value),
{
    assert(updated_lines(list, values)[i] == edited_lines(list, values)[i]);
}

proof fn lemma_lookup_distinct(values: Seq<(Seq<char>, JsonView)>, i: int)
    requires
        distinct_keys(values),
        0 <= i < values.len(),
    ensures
        lookup(values, values[i].0) == Some(values[i].1),
{
    assert forall|j: int| 0 <= j < i implies (#[trigger] values[j]).0 != values[i].0 by {}
    lemma_lookup_at(values, values[i].0, i);
    assert(values.skip(i)[0] == values[i]);
}

proof fn lemma_missing(
    wanted: Seq<(Seq<char>, JsonView)>,
    list: Seq<Seq<char>>,
    values: Seq<(Seq<char>, JsonView)>,
)
    ensures
        forall|i: int|
            0 <= i < wanted.len() && !set_somewhere(list, values, (#[trigger] wanted[i]).0)
                ==> missing(wanted, list, values).contains(wanted[i]),
        forall|k: int|
            0 <= k < missing(wanted, list, values).len() ==> wanted.contains(
                #[trigger] missing(wanted, list, values)[k],
            ) && !set_somewhere(list, values, missing(wanted, list, values)[k].0),
    decreases wanted.len(),
{
    if wanted.len() > 0 {
        let init = wanted.drop_last();
        let rest = missing(init, list, values);
        let all = missing(wanted, list, values);
        lemma_missing(init, list, values);
        assert forall|i: int|
            0 <= i < wanted.len() && !set_somewhere(
                list,
                values,
                (#[trigger] wanted[i]).0,
            ) implies all.contains(wanted[i]) by {
            if i < init.len() {
                assert(init[i] == wanted[i]);
                let k = choose|k: int| 0 <= k < rest.len() && rest[k] == wanted[i];
                assert(all[k] == wanted[i]);
            } else {
                assert(all[rest.len() as int] == wanted[i]);
            }
        }
        assert forall|k: int| 0 <= k < all.len() implies wanted.contains(#[trigger] all[k])
            && !set_somewhere(list, values, all[k].0) by {
            if k < rest.len() {
                assert(all[k] == rest[k]);
                let i = choose|i: int| 0 <= i < init.len() && init[i] == rest[k];
                assert(wanted[i] == all[k]);
            } else {
                assert(wanted[wanted.len() - 1] == all[k]);
            }
        }
    }
}

/// After a change of the `.env` file each requested variable is set, to the
/// requested value, by some line.
pub proof fn law_env_update_sets_requested(
    list: Seq<Seq<char>>,
    values: Seq<(Seq<char>, JsonView)>,
    i: int,
)
    requires
        distinct_keys(values),
        0 <= i < values.len(),
    ensures
        updated_lines(list, values).contains(assignment(values[i].0, values[i].1)),
{
    let (key, value) = values[i];
    let after = updated_lines(list, values);
    lemma_lookup_distinct(values, i);
    lemma_missing(values, list, values);
    if set_somewhere(list, values, key) {
        let k = choose|k: int| 0 <= k < list.len() && #[trigger] sets(list[k], values, key);
        assert(after[k] == edited_line(list[k], values));
        assert(after[k] == assignment(key, value));
    } else {
        let added = missing(values, list, values);
        assert(added.contains(values[i]));
        let k = choose|k: int| 0 <= k < added.len() && added[k] == values[i];
        assert(after[list.len() + k] == assignments(added)[k]);
    }
}

/// A change is reported exactly where the lines of the file change.
pub proof fn law_env_update_reports_changes(
    list: Seq<Seq<char>>,
    values: Seq<(Seq<char>, JsonView)>,
)
    ensures
        all_changes(list, values).len() > 0 <==> updated_lines(list, values) != list,
{
    let after = updated_lines(list, values);
    let added = missing(values, list, values);
    lemma_changes_reported(list, values);
    assert(assignments(added).len() == added.len());
    if added.len() == 0 {
        assert(after =~= edited_lines(list, values));
        if changes_in(list, values).len() == 0 {
            assert(after =~= list);
        } else {
            let i = choose|i: int|
                0 <= i < list.len() && edited_line(#[trigger] list[i], values) != list[i];
            assert(after[i] == edited_line(list[i], values));
        }
    } else {
        assert(after.len() == list.len() + added.len());
    }
}

proof fn lemma_changes_reported(list: Seq<Seq<char>>, values: Seq<(Seq<char>, JsonView)>)
    ensures
        changes_in(list, values).len() > 0 <==> exists|i: int|
            0 <= i < list.len() && edited_line(#[trigger] list[i], values) != list[i],
    decreases list.len(),
{
    if list.len() > 0 {
        let init = list.drop_last();
        let last = list.len() - 1;
        lemma_changes_reported(init, values);
        if changes_in(init, values).len() > 0 {
            let i = choose|i: int|
                0 <= i < init.len() && edited_line(#[trigger] init[i], values) != init[i];
            assert(list[i] == init[i]);
        }
        if exists|i: int|
            0 <= i < list.len() && edited_line(#[trigger] list[i], values) != list[i] {
            let i = choose|i: int|
                0 <= i < list.len() && edited_line(#[trigger] list[i], values) != list[i];
            if i < last {
                assert(init[i] == list[i]);
            }
        }
        assert(list[last] == list.last());
    }
}

// Reading back what was written.

proof fn lemma_no_newline_lines(s: Seq<char>)
    ensures
        forall|i: int| 0 <= i < lines_of(s).len() ==> !(#[trigger] lines_of(s)[i]).contains('\n'),
    decreases s.len(),
{
    lemma_first_pos(s, '\n');
    let i = first_pos(s, '\n');
    if s.len() > 0 {
        if i < s.len() {
            let rest = lines_of(s.skip(i + 1));
            lemma_no_newline_lines(s.skip(i + 1));
            let head = without_cr(s.take(i));
            assert forall|j: int| 0 <= j < head.len() implies head[j] != '\n' by {
                assert(head[j] == s[j]);
            }
            assert forall|k: int| 0 <= k < lines_of(s).len() implies !(#[trigger] lines_of(
                s,
            )[k]).contains('\n') by {
                if k > 0 {
                    assert(lines_of(s)[k] == rest[k - 1]);
                } else {
                    assert(lines_of(s)[0] == head);
                }
            }
        } else {
            assert(lines_of(s) =~= seq![s]);
        }
    }
}

proof fn lemma_trimmed_start_shape(s: Seq<char>) -> (i: int)
    ensures
        0 <= i <= s.len(),
        trimmed_start(s) == s.skip(i),
        forall|j: int| 0 <= j < i ==> white_space(s[j]),
        i < s.len() ==> !white_space(s[i]),
    decreases s.len(),
{
    if s.len() > 0 && white_space(s[0]) {
        let t = s.drop_first();
        let k = lemma_trimmed_start_shape(t);
        assert(t.skip(k) =~= s.skip(k + 1));
        assert forall|j: int| 0 <= j < k + 1 implies white_space(s[j]) by {
            if j > 0 {
                assert(s[j] == t[j - 1]);
            }
        }
        if k < t.len() {
            assert(t[k] == s[k + 1]);
        }
        k + 1
    } else {
        assert(s.skip(0) =~= s);
        0
    }
}

/// White space at the end of a text does not count for what is left of it.
proof fn lemma_trimmed_drops_last(s: Seq<char>)
    requires
        s.len() > 0,
        white_space(s.last()),
    ensures
        trimmed(s.drop_last()) == trimmed(s),
{
    let t = s.drop_last();
    let i = lemma_trimmed_start_shape(t);
    if i < t.len() {
        assert(t[i] == s[i]);
        assert forall|j: int| 0 <= j < i implies white_space(s[j]) by {
            assert(s[j] == t[j]);
        }
        lemma_trimmed_start_at(s, i);
        let a = s.skip(i);
        assert(a.last() == s.last());
        assert(a.drop_last() =~= t.skip(i));
    } else {
        assert forall|j: int| 0 <= j < s.len() implies white_space(s[j]) by {
            if j < t.len() {
                assert(s[j] == t[j]);
            }
        }
        lemma_trimmed_start_at(s, s.len() as int);
        assert(s.skip(s.len() as int) =~= seq![]);
        assert(t.skip(t.len() as int) =~= seq![]);
    }
}

proof fn lemma_entry_without_cr(line: Seq<char>)
    ensures
        env_entry(without_cr(line)) == env_entry(line),
{
    if line.len() > 0 && line.last() == '\r' {
        lemma_trimmed_drops_last(line);
    }
}

proof fn lemma_last_setting_first(a: Seq<char>, rest: Seq<Seq<char>>, name: Seq<char>)
    ensures
        last_setting(seq![a] + rest, name) == match last_setting(rest, name) {
            Some(v) => Some(v),
            None => match env_entry(a) {
                Some((n, v)) => if n == name {
                    Some(v)
                } else {
                    None
                },
                None => None,
            },
        },
    decreases rest.len(),
{
    let all = seq![a] + rest;
    if rest.len() == 0 {
        assert(all =~= seq![a]);
        assert(all.last() == a);
        assert(all.drop_last() =~= seq![]);
        assert(last_setting(all.drop_last(), name) is None);
    } else {
        assert(all.last() == rest.last());
        assert(all.drop_last() =~= seq![a] + rest.drop_last());
        lemma_last_setting_first(a, rest.drop_last(), name);
    }
}

proof fn lemma_joined_first(list: Seq<Seq<char>>, sep: Seq<char>)
    requires
        list.len() >= 2,
    ensures
        joined(list, sep) == list[0] + sep + joined(list.drop_first(), sep),
    decreases list.len(),
{
    let init = list.drop_last();
    let tail = list.drop_first();
    if list.len() == 2 {
        assert(init.len() == 1 && init[0] == list[0]);
        assert(tail.len() == 1 && tail[0] == list[1]);
        assert(joined(init, sep) == list[0]);
        assert(joined(tail, sep) == list[1]);
        assert(list.last() == list[1]);
    } else {
        lemma_joined_first(init, sep);
        assert(init.drop_first() =~= tail.drop_last());
        assert(tail.last() == list.last());
        assert(joined(list, sep) =~= list[0] + sep + joined(tail, sep));
    }
}

proof fn lemma_lines_of_first(a: Seq<char>, rest: Seq<char>)
    requires
        !a.contains('\n'),
    ensures
        lines_of(a + "\n"@ + rest) == seq![without_cr(a)] + lines_of(rest),
{
    reveal_strlit("\n");
    let s = a + "\n"@ + rest;
    assert forall|j: int| 0 <= j < a.len() implies s[j] != '\n' by {
        assert(s[j] == a[j]);
        assert(a.contains(a[j]));
    }
    assert(s[a.len() as int] == '\n');
    lemma_first_pos_is(s, '\n', a.len() as int);
    assert(s.take(a.len() as int) =~= a);
    assert(s.skip(a.len() as int + 1) =~= rest);
}

/// Lines that are joined and split again set the same variables.
proof fn lemma_joined_settings(list: Seq<Seq<char>>, name: Seq<char>)
    requires
        forall|i: int| 0 <= i < list.len() ==> !(#[trigger] list[i]).contains('\n'),
    ensures
        last_setting(lines_of(joined(list, "\n"@)), name) == last_setting(list, name),
    decreases list.len(),
{
    if list.len() == 0 {
    } else if list.len() == 1 {
        let a = list[0];
        lemma_first_pos(a, '\n');
        assert(first_pos(a, '\n') == a.len()) by {
            if first_pos(a, '\n') < a.len() {
                assert(a.contains(a[first_pos(a, '\n')]));
            }
        }
        if a.len() == 0 {
            assert(trimmed(a).len() == 0);
            assert(env_entry(a) is None);
            assert(list.drop_last() =~= seq![]);
            assert(last_setting(list.drop_last(), name) is None);
        } else {
            assert(lines_of(a) =~= list);
        }
    } else {
        let a = list[0];
        let tail = list.drop_first();
        assert forall|i: int| 0 <= i < tail.len() implies !(#[trigger] tail[i]).contains('\n') by {
            assert(tail[i] == list[i + 1]);
        }
        lemma_joined_settings(tail, name);
        lemma_joined_first(list, "\n"@);
        lemma_lines_of_first(a, joined(tail, "\n"@));
        lemma_last_setting_first(without_cr(a), lines_of(joined(tail, "\n"@)), name);
        lemma_last_setting_first(a, tail, name);
        lemma_entry_without_cr(a);
        assert(seq![a] + tail =~= list);
    }
}

proof fn lemma_trimmed_end_append(a: Seq<char>, w: Seq<char>)
    requires
        a.len() > 0,
        !white_space(a.last()),
    ensures
        trimmed_end(a + w) == a + trimmed_end(w),
    decreases w.len(),
{
    if w.len() == 0 {
        assert(a + w =~= a);
        assert(a + trimmed_end(w) =~= a);
    } else {
        assert((a + w).last() == w.last());
        if white_space(w.last()) {
            assert((a + w).drop_last() =~= a + w.drop_last());
            lemma_trimmed_end_append(a, w.drop_last());
        }
    }
}

/// A line that starts with a variable's name and `=` sets that variable.
proof fn lemma_entry_of(key: Seq<char>, w: Seq<char>)
    requires
        plain_key(key),
    ensures
        env_entry(key + "="@ + w) == Some((key, trimmed_end(w))),
        !skipped_line(key + "="@ + w),
        split_at_first(key + "="@ + w, '=') == Some((key, w)),
{
    reveal_strlit("=");
    let a = key + "="@;
    let line = a + w;
    assert(a.last() == '=');
    assert(a[0] == line[0]);
    assert(!white_space(line[0]) && line[0] != '#') by {
        if key.len() > 0 {
            assert(line[0] == key[0]);
        }
    }
    assert(trimmed_start(line) == line);
    lemma_trimmed_end_append(a, w);
    let t = a + trimmed_end(w);
    assert(trimmed(line) == t);
    assert(t[0] == line[0]);
    assert forall|j: int| 0 <= j < key.len() implies t[j] != '=' && line[j] != '=' by {
        assert(t[j] == key[j] && line[j] == key[j]);
        assert(key.contains(key[j]));
    }
    assert(t[key.len() as int] == '=' && line[key.len() as int] == '=');
    lemma_first_pos_is(t, '=', key.len() as int);
    lemma_first_pos_is(line, '=', key.len() as int);
    assert(t.take(key.len() as int) =~= key);
    assert(t.skip(key.len() as int + 1) =~= trimmed_end(w));
    assert(line.take(key.len() as int) =~= key);
    assert(line.skip(key.len() as int + 1) =~= w);
}

proof fn lemma_code_not_negative(c: char)
    ensures
        c as int >= 0,
{
}

proof fn lemma_escaped_one_line(s: Seq<char>)
    ensures
        !json_escaped(s).contains('\n'),
    decreases s.len(),
{
    if s.len() > 0 {
        lemma_escaped_one_line(s.drop_last());
        let a = json_escaped(s.drop_last());
        let b = json_escape(s.last());
        assert forall|i: int| 0 <= i < b.len() implies b[i] != '\n' by {
            lemma_code_not_negative(s.last());
            let code = s.last() as int;
            if code < 32 {
                assert(0 <= code / 16 < 16 && 0 <= code % 16 < 16);
                assert(hex_digit(code / 16) != '\n');
                assert(hex_digit(code % 16) != '\n');
            }
        }
        assert forall|i: int| 0 <= i < (a + b).len() implies (a + b)[i] != '\n' by {
            if i < a.len() {
                assert((a + b)[i] == a[i]);
                assert(a.contains(a[i]));
            } else {
                assert((a + b)[i] == b[i - a.len()]);
            }
        }
    }
}

proof fn lemma_quoted_line(s: Seq<char>)
    ensures
        !json_quoted(s).contains('\n'),
        trimmed_end(json_quoted(s)) == json_quoted(s),
{
    lemma_escaped_one_line(s);
    let e = json_escaped(s);
    let q = json_quoted(s);
    assert forall|i: int| 0 <= i < q.len() implies q[i] != '\n' by {
        if 0 < i < q.len() - 1 {
            assert(q[i] == e[i - 1]);
            assert(e.contains(e[i - 1]));
        }
    }
    assert(q.last() == '"');
}

/// What a requested string is read back as.
pub open spec fn read_back(s: Seq<char>) -> Seq<char> {
    trimmed_end(written(JsonView::String(s)))
}

/// A requested line sets its variable, on one line.
proof fn lemma_assignment_entry(key: Seq<char>, s: Seq<char>)
    requires
        plain_key(key),
    ensures
        env_entry(assignment(key, JsonView::String(s))) == Some((key, read_back(s))),
        !assignment(key, JsonView::String(s)).contains('\n'),
{
    reveal_strlit("=");
    let q = written(JsonView::String(s));
    let line = assignment(key, JsonView::String(s));
    lemma_quoted_line(s);
    lemma_entry_of(key, q);
    assert forall|i: int| 0 <= i < line.len() implies line[i] != '\n' by {
        if i < key.len() {
            assert(line[i] == key[i]);
            assert(key.contains(key[i]));
        } else if i > key.len() {
            assert(line[i] == q[i - key.len() - 1]);
            assert(q.contains(q[i - key.len() - 1]));
        }
    }
}

/// A line that is changed set the variable which it sets afterwards.
proof fn lemma_edited_line_names(
    line: Seq<char>,
    values: Seq<(Seq<char>, JsonView)>,
)
    requires
        plain_values(values),
        edit_of(line, values) is Some,
    ensures
        ({
            let (key, was, value) = edit_of(line, values)->0;
            &&& plain_key(key)
            &&& lookup(values, key) == Some(value)
            &&& value is String
            &&& env_entry(line) == Some((key, trimmed_end(was)))
            &&& env_entry(edited_line(line, values)) == Some((key, read_back(value->String_0)))
            &&& !edited_line(line, values).contains('\n')
        }),
{
    let (key, was, value) = edit_of(line, values)->0;
    lemma_lookup_found(values, key);
    let i = choose|i: int| 0 <= i < values.len() && #[trigger] values[i] == (key, value);
    assert(plain_key(values[i].0));
    lemma_first_pos(line, '=');
    let p = first_pos(line, '=');
    reveal_strlit("=");
    assert(line =~= key + "="@ + was);
    lemma_entry_of(key, was);
    lemma_assignment_entry(key, value->String_0);
}

proof fn lemma_lookup_found(values: Seq<(Seq<char>, JsonView)>, key: Seq<char>)
    ensures
        lookup(values, key) matches Some(v) ==> exists|i: int|
            0 <= i < values.len() && #[trigger] values[i] == (key, v),
    decreases values.len(),
{
    if values.len() > 0 {
        if values[0].0 == key {
            assert(values[0] == (key, values[0].1));
        } else {
            let t = values.drop_first();
            lemma_lookup_found(t, key);
            if let Some(v) = lookup(t, key) {
                let i = choose|i: int| 0 <= i < t.len() && #[trigger] t[i] == (key, v);
                assert(values[i + 1] == (key, v));
            }
        }
    }
}

proof fn lemma_updated_one_line_each(
    list: Seq<Seq<char>>,
    values: Seq<(Seq<char>, JsonView)>,
)
    requires
        plain_values(values),
        forall|i: int| 0 <= i < list.len() ==> !(#[trigger] list[i]).contains('\n'),
    ensures
        forall|i: int|
            0 <= i < updated_lines(list, values).len() ==> !(#[trigger] updated_lines(
                list,
                values,
            )[i]).contains('\n'),
{
    let all = updated_lines(list, values);
    let added = missing(values, list, values);
    lemma_missing(values, list, values);
    assert forall|i: int| 0 <= i < all.len() implies !(#[trigger] all[i]).contains('\n') by {
        if i < list.len() {
            assert(all[i] == edited_line(list[i], values));
            if edit_of(list[i], values) is Some {
                lemma_edited_line_names(list[i], values);
            }
        } else {
            let k = i - list.len();
            assert(all[i] == assignments(added)[k]);
            assert(values.contains(added[k]));
            let j = choose|j: int| 0 <= j < values.len() && values[j] == added[k];
            assert(plain_key(values[j].0) && values[j].1 is String);
            lemma_assignment_entry(values[j].0, values[j].1->String_0);
        }
    }
}

proof fn lemma_edited_others(
    list: Seq<Seq<char>>,
    values: Seq<(Seq<char>, JsonView)>,
    name: Seq<char>,
)
    requires
        plain_values(values),
        lookup(values, name) is None,
    ensures
        last_setting(edited_lines(list, values), name) == last_setting(list, name),
    decreases list.len(),
{
    let all = edited_lines(list, values);
    if list.len() > 0 {
        let init = list.drop_last();
        lemma_edited_others(init, values, name);
        assert(all.drop_last() =~= edited_lines(init, values));
        assert(all.last() == edited_line(list.last(), values));
        if edit_of(list.last(), values) is Some {
            lemma_edited_line_names(list.last(), values);
        }
    } else {
        assert(all =~= seq![]);
    }
}

/// Lines at the end that do not set a variable leave its value.
proof fn lemma_settings_append(
    list: Seq<Seq<char>>,
    more: Seq<Seq<char>>,
    name: Seq<char>,
)
    requires
        forall|i: int| 0 <= i < more.len() ==> !names(#[trigger] more[i], name),
    ensures
        last_setting(list + more, name) == last_setting(list, name),
    decreases more.len(),
{
    if more.len() == 0 {
        assert(list + more =~= list);
    } else {
        let all = list + more;
        assert(all.last() == more.last());
        assert(all.drop_last() =~= list + more.drop_last());
        assert(!names(more[more.len() - 1], name));
        lemma_settings_append(list, more.drop_last(), name);
    }
}

/// A change of the `.env` file leaves the value of every variable that was not
/// requested.
pub proof fn law_env_update_keeps_other_variables(
    current: Seq<char>,
    values: Seq<(Seq<char>, JsonView)>,
    name: Seq<char>,
)
    requires
        plain_values(values),
        lookup(values, name) is None,
    ensures
        env_value(
            env_of(lines_of(joined(updated_lines(lines_of(current), values), "\n"@))),
            name,
        ) == env_value(env_of(lines_of(current)), name),
{
    let list = lines_of(current);
    let all = updated_lines(list, values);
    let added = missing(values, list, values);
    lemma_no_newline_lines(current);
    lemma_updated_one_line_each(list, values);
    lemma_joined_settings(all, name);
    law_last_setting_counts(lines_of(joined(all, "\n"@)), name);
    law_last_setting_counts(list, name);
    lemma_edited_others(list, values, name);
    lemma_missing(values, list, values);
    assert forall|k: int| 0 <= k < assignments(added).len() implies !names(
        #[trigger] assignments(added)[k],
        name,
    ) by {
        assert(values.contains(added[k]));
        let j = choose|j: int| 0 <= j < values.len() && values[j] == added[k];
        assert(plain_key(values[j].0) && values[j].1 is String);
        lemma_assignment_entry(values[j].0, values[j].1->String_0);
        lemma_lookup_distinct(values, j);
    }
    lemma_settings_append(edited_lines(list, values), assignments(added), name);
}

/// Whether the variable `key`, where some line sets it in a form that is changed,
/// is set in that form by the last line that sets it: without white space in
/// front of its name.
pub open spec fn last_is_plain(
    list: Seq<Seq<char>>,
    values: Seq<(Seq<char>, JsonView)>,
    key: Seq<char>,
) -> bool {
    set_somewhere(list, values, key) ==> exists|p: int|
        #![trigger list[p]]
        0 <= p < list.len() && sets(list[p], values, key) && forall|j: int|
            p < j < list.len() ==> !names(#[trigger] list[j], key)
}

proof fn lemma_edited_setting(
    list: Seq<Seq<char>>,
    values: Seq<(Seq<char>, JsonView)>,
    key: Seq<char>,
    p: int,
)
    requires
        plain_values(values),
        0 <= p < list.len(),
        sets(list[p], values, key),
        forall|j: int| p < j < list.len() ==> !names(#[trigger] list[j], key),
    ensures
        lookup(values, key) matches Some(JsonView::String(s)) && last_setting(
            edited_lines(list, values),
            key,
        ) == Some(read_back(s)),
    decreases list.len(),
{
    let all = edited_lines(list, values);
    let init = list.drop_last();
    let last = list.last();
    assert(all.last() == edited_line(last, values));
    assert(all.drop_last() =~= edited_lines(init, values));
    if p == list.len() - 1 {
        lemma_edited_line_names(last, values);
    } else {
        assert(init[p] == list[p]);
        assert(!names(list[list.len() - 1], key));
        assert forall|j: int| p < j < init.len() implies !names(#[trigger] init[j], key) by {
            assert(init[j] == list[j]);
        }
        lemma_edited_setting(init, values, key, p);
        if edit_of(last, values) is Some {
            lemma_edited_line_names(last, values);
        }
    }
}

proof fn lemma_missing_distinct(
    wanted: Seq<(Seq<char>, JsonView)>,
    list: Seq<Seq<char>>,
    values: Seq<(Seq<char>, JsonView)>,
)
    requires
        distinct_keys(wanted),
    ensures
        distinct_keys(missing(wanted, list, values)),
    decreases wanted.len(),
{
    if wanted.len() > 0 {
        let init = wanted.drop_last();
        let rest = missing(init, list, values);
        let all = missing(wanted, list, values);
        assert(distinct_keys(init)) by {
            assert forall|i: int, j: int| 0 <= i < j < init.len() implies (#[trigger] init[i]).0
                != (#[trigger] init[j]).0 by {
                assert(init[i] == wanted[i] && init[j] == wanted[j]);
            }
        }
        lemma_missing_distinct(init, list, values);
        lemma_missing(init, list, values);
        assert forall|i: int, j: int| 0 <= i < j < all.len() implies (#[trigger] all[i]).0 != (
        #[trigger] all[j]).0 by {
            assert(all[i] == rest[i]);
            if j < rest.len() {
                assert(all[j] == rest[j]);
            } else {
                assert(init.contains(rest[i]));
                let k = choose|k: int| 0 <= k < init.len() && init[k] == rest[i];
                assert(wanted[k] == rest[i]);
                assert(wanted[wanted.len() - 1] == all[j]);
            }
        }
    }
}

/// What a change of the `.env` file writes is read back: each requested variable
/// then has the string that was requested. White space at the end of a line is not
/// read, and a string that holds a line feed is read in the form in which it was
/// written.
pub proof fn law_env_update_reads_back(
    current: Seq<char>,
    values: Seq<(Seq<char>, JsonView)>,
    i: int,
)
    requires
        plain_values(values),
        0 <= i < values.len(),
        last_is_plain(lines_of(current), values, values[i].0),
    ensures
        values[i].1 matches JsonView::String(s) && env_value(
            env_of(lines_of(joined(updated_lines(lines_of(current), values), "\n"@))),
            values[i].0,
        ) == Some(read_back(s)),
        values[i].1 matches JsonView::String(s) ==> (!s.contains('\n') && (s.len() > 0
            ==> !white_space(s.last())) ==> env_value(
            env_of(lines_of(joined(updated_lines(lines_of(current), values), "\n"@))),
            values[i].0,
        ) == Some(s)),
{
    let (key, value) = values[i];
    let s = value->String_0;
    let list = lines_of(current);
    let all = updated_lines(list, values);
    let edited = edited_lines(list, values);
    let added = missing(values, list, values);
    let more = assignments(added);
    assert(plain_key(values[i].0) && values[i].1 is String);
    lemma_lookup_distinct(values, i);
    lemma_no_newline_lines(current);
    lemma_updated_one_line_each(list, values);
    lemma_joined_settings(all, key);
    law_last_setting_counts(lines_of(joined(all, "\n"@)), key);
    lemma_missing(values, list, values);
    lemma_missing_distinct(values, list, values);
    assert forall|k: int| 0 <= k < more.len() implies env_entry(#[trigger] more[k]) == Some(
        (added[k].0, read_back(added[k].1->String_0)),
    ) by {
        assert(values.contains(added[k]));
        let j = choose|j: int| 0 <= j < values.len() && values[j] == added[k];
        assert(plain_key(values[j].0) && values[j].1 is String);
        lemma_assignment_entry(values[j].0, values[j].1->String_0);
    }
    if set_somewhere(list, values, key) {
        let p = choose|p: int|
            #![trigger list[p]]
            0 <= p < list.len() && sets(list[p], values, key) && forall|j: int|
                p < j < list.len() ==> !names(#[trigger] list[j], key);
        lemma_edited_setting(list, values, key, p);
        assert forall|k: int| 0 <= k < more.len() implies !names(#[trigger] more[k], key) by {
            assert(!set_somewhere(list, values, added[k].0));
        }
        lemma_settings_append(edited, more, key);
    } else {
        assert(added.contains(values[i]));
        let k = choose|k: int| 0 <= k < added.len() && added[k] == values[i];
        let front = edited + more.take(k + 1);
        let back = more.skip(k + 1);
        assert(all =~= front + back);
        assert forall|j: int| 0 <= j < back.len() implies !names(#[trigger] back[j], key) by {
            assert(back[j] == more[k + 1 + j]);
            assert(added[k + 1 + j].0 != added[k].0);
        }
        lemma_settings_append(front, back, key);
        assert(front.last() == more[k]);
    }
}

/// With a filter, exactly the variables whose name holds it are shown, whatever
/// the case of the letters.
pub proof fn law_env_filter_goes_by_name(
    list: Seq<Seq<char>>,
    filter: Seq<char>,
    line: Seq<char>,
)
    ensures
        lines_named(list, filter).contains(line) <==> list.contains(line) && has_infix(
            lowercase_of(line_name(line)),
            lowercase_of(filter),
        ),
    decreases list.len(),
{
    if list.len() > 0 {
        let init = list.drop_last();
        let rest = lines_named(init, filter);
        let all = lines_named(list, filter);
        law_env_filter_goes_by_name(init, filter, line);
        let holds = has_infix(lowercase_of(line_name(line)), lowercase_of(filter));
        if all.contains(line) {
            let i = choose|i: int| 0 <= i < all.len() && all[i] == line;
            if i < rest.len() {
                assert(rest[i] == line);
                let k = choose|k: int| 0 <= k < init.len() && init[k] == line;
                assert(list[k] == line);
            } else {
                assert(line == list.last());
                assert(list[list.len() - 1] == line);
            }
        }
        if list.contains(line) && holds {
            let k = choose|k: int| 0 <= k < list.len() && list[k] == line;
            if k < list.len() - 1 {
                assert(init[k] == line);
                let i = choose|i: int| 0 <= i < rest.len() && rest[i] == line;
                assert(all[i] == line);
            } else {
                assert(all[rest.len() as int] == line);
            }
        }
    }
}

/// A line that gives a variable a value is shown under a filter exactly where the
/// filter in lower case stands somewhere in the whole name in lower case: in all
/// that stands before the first equals sign.
pub proof fn law_filter_looks_at_the_whole_name(
    list: Seq<Seq<char>>,
    filter: Seq<char>,
    name: Seq<char>,
    value: Seq<char>,
)
    requires
        !name.contains('='),
    ensures
        lines_named(list, filter).contains(name + seq!['='] + value) <==> list.contains(
            name + seq!['='] + value,
        ) && exists|a: Seq<char>, b: Seq<char>|
            lowercase_of(name) == #[trigger] (a + lowercase_of(filter) + b),
        lines_named(list, filter).contains(name) <==> list.contains(name) && exists|
            a: Seq<char>,
            b: Seq<char>,
        |
            lowercase_of(name) == #[trigger] (a + lowercase_of(filter) + b),
{
    let line = name + seq!['='] + value;
    law_split_at_the_first(name, '=', value);
    law_infix_is_what_a_text_holds(lowercase_of(name), lowercase_of(filter));
    law_env_filter_goes_by_name(list, filter, line);
    law_env_filter_goes_by_name(list, filter, name);
}

/// Whether a line starts with a name: all that stands before its first equals
/// sign, or all of it where it has none.
pub open spec fn line_of(line: Seq<char>, name: Seq<char>) -> bool {
    &&& !name.contains('=')
    &&& line == name || exists|value: Seq<char>| line == #[trigger] (name + seq!['='] + value)
}

/// Whether a line is to be shown under a filter.
pub open spec fn shown_under(line: Seq<char>, filter: Seq<char>) -> bool {
    exists|name: Seq<char>, a: Seq<char>, b: Seq<char>|
        #[trigger] line_of(line, name) && lowercase_of(name) == #[trigger] (a + lowercase_of(filter)
            + b)
}

/// A listing of variables is shown line by line: without a filter every line, with
/// one those whose name holds it, in their order and as often as they stand there.
pub proof fn law_listing_shows_the_lines_with_the_filter(listing: Seq<char>, filter: Seq<char>)
    ensures
        filter.len() == 0 ==> env_listing(listing, filter) == joined(lines_of(listing), "\n"@),
        filter.len() > 0 ==> env_listing(listing, filter) == joined(
            lines_of(listing).filter(|line: Seq<char>| shown_under(line, filter)),
            "\n"@,
        ),
{
    lemma_lines_named_filter(lines_of(listing), filter);
}

proof fn lemma_shown_under(line: Seq<char>, filter: Seq<char>)
    ensures
        shown_under(line, filter) == has_infix(lowercase_of(line_name(line)), lowercase_of(filter)),
{
    let name = line_name(line);
    law_split_gives_all_of_the_text(line, '=');
    law_infix_is_what_a_text_holds(lowercase_of(name), lowercase_of(filter));
    assert(line_of(line, name));
    if has_infix(lowercase_of(name), lowercase_of(filter)) {
        let (a, b) = choose|a: Seq<char>, b: Seq<char>|
            lowercase_of(name) == #[trigger] (a + lowercase_of(filter) + b);
        assert(line_of(line, name) && lowercase_of(name) == a + lowercase_of(filter) + b);
    }
    if shown_under(line, filter) {
        let (n, a, b) = choose|n: Seq<char>, a: Seq<char>, b: Seq<char>|
            #[trigger] line_of(line, n) && lowercase_of(n) == #[trigger] (a + lowercase_of(filter)
                + b);
        if line != n {
            let value = choose|value: Seq<char>| line == #[trigger] (n + seq!['='] + value);
            law_split_at_the_first(n, '=', value);
        } else {
            law_split_at_the_first(n, '=', n);
        }
        assert(n == name);
    }
}

proof fn lemma_lines_named_filter(list: Seq<Seq<char>>, filter: Seq<char>)
    ensures
        lines_named(list, filter) == list.filter(|line: Seq<char>| shown_under(line, filter)),
    decreases list.len(),
{
    reveal(Seq::filter);
    if list.len() > 0 {
        lemma_lines_named_filter(list.drop_last(), filter);
        lemma_shown_under(list.last(), filter);
    }
}

/// Of a list with a name for each element, those are selected whose name holds the
/// part that is looked for.
pub proof fn law_selection_goes_by_the_names(
    list: Seq<Seq<char>>,
    names: Seq<Seq<char>>,
    part: Seq<char>,
    one: Seq<char>,
)
    requires
        list.len() <= names.len(),
    ensures
        where_name_has(list, names, part).contains(one) <==> exists|
            i: int,
            a: Seq<char>,
            b: Seq<char>,
        |
            0 <= i < list.len() && #[trigger] list[i] == one && names[i] == #[trigger] (a + part
                + b),
        where_name_has(list, names, part).len() <= list.len(),
    decreases list.len(),
{
    if list.len() > 0 {
        let init = list.drop_last();
        let last = list.len() - 1;
        let rest = where_name_has(init, names, part);
        let all = where_name_has(list, names, part);
        law_selection_goes_by_the_names(init, names, part, one);
        law_infix_is_what_a_text_holds(names[last], part);
        if all.contains(one) {
            let k = choose|k: int| 0 <= k < all.len() && all[k] == one;
            if k < rest.len() {
                assert(rest[k] == one);
                let (i, a, b) = choose|i: int, a: Seq<char>, b: Seq<char>|
                    0 <= i < init.len() && #[trigger] init[i] == one && names[i] == #[trigger] (a
                        + part + b);
                assert(list[i] == one && names[i] == a + part + b);
            } else {
                let (a, b) = choose|a: Seq<char>, b: Seq<char>|
                    names[last] == #[trigger] (a + part + b);
                assert(list[last] == one && names[last] == a + part + b);
            }
        }
        if exists|i: int, a: Seq<char>, b: Seq<char>|
            0 <= i < list.len() && #[trigger] list[i] == one && names[i] == #[trigger] (a + part
                + b) {
            let (i, a, b) = choose|i: int, a: Seq<char>, b: Seq<char>|
                0 <= i < list.len() && #[trigger] list[i] == one && names[i] == #[trigger] (a + part
                    + b);
            if i < last {
                assert(init[i] == one && names[i] == a + part + b);
                let k = choose|k: int| 0 <= k < rest.len() && rest[k] == one;
                assert(all[k] == one);
            } else {
                assert(names[last] == a + part + b);
                assert(all[rest.len() as int] == one);
            }
        }
    }
}

} // verus!
