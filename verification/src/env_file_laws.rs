//! What the lines of a `.env` file come down to: what each of them sets, and what
//! a change makes of it.

use vstd::prelude::*;
use crate::dotenv::{additions, all_changes, assignments, changes_in, edit_of, edited_lines,
    env_completed, env_entry, env_of, env_pos, env_set, env_value, lemma_env_pos, lemma_env_pos_is,
    missing, set_somewhere, sets, updated_lines};
use crate::json::{JsonView, NumberView, json_quoted, lookup, signed_decimal};
use crate::outside::{debug_of, json_debugged, json_printed};
use crate::text::{decimal, trimmed, white_space};
use crate::text_laws::{law_split_at_the_first, law_split_gives_all_of_the_text,
    law_trimming_takes_off_white_space};

verus! {

// Reading.

/// The value of a variable is that of the first entry with exactly its name.
pub proof fn law_variable_is_found_by_its_name(env: Seq<(Seq<char>, Seq<char>)>, i: int)
    requires
        0 <= i < env.len(),
        forall|j: int| 0 <= j < i ==> (#[trigger] env[j]).0 != env[i].0,
    ensures
        env_value(env, env[i].0) == Some(env[i].1),
{
    lemma_env_pos_is(env, env[i].0, i);
}

/// A name that no entry has is not found.
pub proof fn law_other_variables_are_not_found(env: Seq<(Seq<char>, Seq<char>)>, name: Seq<char>)
    requires
        forall|j: int| 0 <= j < env.len() ==> (#[trigger] env[j]).0 != name,
    ensures
        env_value(env, name) is None,
{
    lemma_env_pos_is(env, name, env.len() as int);
}

/// Whether `after` is `before` with one variable set: where it stood first, or at
/// the end where it did not stand; everything else stays in its place.
pub open spec fn is_set(
    before: Seq<(Seq<char>, Seq<char>)>,
    name: Seq<char>,
    value: Seq<char>,
    after: Seq<(Seq<char>, Seq<char>)>,
) -> bool {
    ||| (forall|i: int| 0 <= i < before.len() ==> (#[trigger] before[i]).0 != name) && after
        == before.push((name, value))
    ||| exists|i: int|
        0 <= i < before.len() && before[i].0 == name && (forall|j: int|
            0 <= j < i ==> (#[trigger] before[j]).0 != name) && after == #[trigger] before.update(
            i,
            (name, value),
        )
}

proof fn lemma_is_set(env: Seq<(Seq<char>, Seq<char>)>, name: Seq<char>, value: Seq<char>)
    ensures
        is_set(env, name, value, env_set(env, name, value)),
{
    lemma_env_pos(env, name);
    let i = env_pos(env, name);
    if i < env.len() {
        assert(env_set(env, name, value) == env.update(i, (name, value)));
    }
}

/// A line with white space, a name, an equals sign, a value and white space sets
/// the variable with all of that name to all of that value, and no other. Only the
/// first equals sign counts; the value may hold more of them.
pub proof fn law_line_sets_its_variable(
    list: Seq<Seq<char>>,
    before: Seq<char>,
    name: Seq<char>,
    value: Seq<char>,
    after: Seq<char>,
)
    requires
        forall|i: int| 0 <= i < before.len() ==> white_space(#[trigger] before[i]),
        forall|i: int| 0 <= i < after.len() ==> white_space(#[trigger] after[i]),
        !name.contains('='),
        name.len() > 0 ==> !white_space(name[0]) && name[0] != '#',
        value.len() > 0 ==> !white_space(value.last()),
    ensures
        is_set(
            env_of(list),
            name,
            value,
            env_of(list.push(before + (name + seq!['='] + value) + after)),
        ),
        env_of(Seq::empty()) == Seq::<(Seq<char>, Seq<char>)>::empty(),
{
    let t = name + seq!['='] + value;
    let line = before + t + after;
    assert(t[0] == if name.len() > 0 {
        name[0]
    } else {
        '='
    });
    assert(t.last() == if value.len() > 0 {
        value.last()
    } else {
        '='
    });
    law_trimming_takes_off_white_space(before, t, after);
    law_split_at_the_first(name, '=', value);
    assert(env_entry(line) == Some((name, value)));
    assert(list.push(line).drop_last() =~= list);
    lemma_is_set(env_of(list), name, value);
}

/// A line that is blank, a comment or without an equals sign sets nothing.
pub proof fn law_other_lines_set_nothing(list: Seq<Seq<char>>, line: Seq<char>)
    requires
        trimmed(line).len() == 0 || trimmed(line)[0] == '#' || !trimmed(line).contains('='),
    ensures
        env_of(list.push(line)) == env_of(list),
{
    law_split_gives_all_of_the_text(trimmed(line), '=');
    assert(list.push(line).drop_last() =~= list);
}

/// A variable of the container is taken over exactly where the file does not set
/// that name; what has no equals sign is no variable.
pub proof fn law_container_variable_is_taken_over(
    base: Seq<(Seq<char>, Seq<char>)>,
    list: Seq<Seq<char>>,
    name: Seq<char>,
    value: Seq<char>,
)
    requires
        !name.contains('='),
    ensures
        env_completed(base, Seq::empty()) == base,
        env_completed(base, list.push(name)) == env_completed(base, list),
        (exists|i: int| 0 <= i < base.len() && (#[trigger] base[i]).0 == name) ==> env_completed(
            base,
            list.push(name + seq!['='] + value),
        ) == env_completed(base, list),
        (forall|i: int| 0 <= i < base.len() ==> (#[trigger] base[i]).0 != name) ==> is_set(
            env_completed(base, list),
            name,
            value,
            env_completed(base, list.push(name + seq!['='] + value)),
        ),
{
    let line = name + seq!['='] + value;
    law_split_at_the_first(name, '=', value);
    assert(list.push(line).drop_last() =~= list);
    assert(list.push(name).drop_last() =~= list);
    lemma_env_pos(base, name);
    if exists|i: int| 0 <= i < base.len() && (#[trigger] base[i]).0 == name {
        let i = choose|i: int| 0 <= i < base.len() && (#[trigger] base[i]).0 == name;
        assert(env_pos(base, name) <= i);
    }
    lemma_is_set(env_completed(base, list), name, value);
}

// Changing.

/// Whether a line of the file sets a variable with exactly this name: it is the
/// name, an equals sign and a value, and no comment.
pub open spec fn line_sets(line: Seq<char>, name: Seq<char>) -> bool {
    &&& !name.contains('=')
    &&& trimmed(line).len() > 0
    &&& trimmed(line)[0] != '#'
    &&& exists|was: Seq<char>| line == #[trigger] (name + seq!['='] + was)
}

/// What is written for a value: a string without a line feed as it is, any other
/// value as JSON, which keeps it on one line.
pub open spec fn value_text(value: JsonView) -> Seq<char> {
    match value {
        JsonView::String(s) => if s.contains('\n') {
            json_quoted(s)
        } else {
            s
        },
        JsonView::Null => "null"@,
        JsonView::Bool(b) => if b {
            "true"@
        } else {
            "false"@
        },
        JsonView::Number(NumberView::PosInt(n)) => decimal(n as nat),
        JsonView::Number(NumberView::NegInt(n)) => signed_decimal(n as int),
        _ => json_printed(value),
    }
}

proof fn lemma_edit(line: Seq<char>, values: Seq<(Seq<char>, JsonView)>, name: Seq<char>)
    ensures
        line_sets(line, name) && lookup(values, name) is Some ==> (edit_of(line, values) matches Some(
            (k, _, v),
        ) && k == name && lookup(values, name) == Some(v)),
        line_sets(line, name) && lookup(values, name) is None ==> edit_of(line, values) is None,
        edit_of(line, values) matches Some((k, was, v)) ==> line_sets(line, k) && line == k
            + seq!['='] + was && lookup(values, k) == Some(v),
{
    law_split_gives_all_of_the_text(line, '=');
    if line_sets(line, name) {
        let was = choose|was: Seq<char>| line == #[trigger] (name + seq!['='] + was);
        law_split_at_the_first(name, '=', was);
    }
}

/// A line that sets a requested variable becomes the name, an equals sign and the
/// requested value; every other line stays as it is. Each stays in its place.
pub proof fn law_requested_lines_change(
    list: Seq<Seq<char>>,
    values: Seq<(Seq<char>, JsonView)>,
    i: int,
    name: Seq<char>,
)
    requires
        0 <= i < list.len(),
    ensures
        updated_lines(list, values).len() >= list.len(),
        line_sets(list[i], name) ==> (lookup(values, name) matches Some(value) ==> updated_lines(
            list,
            values,
        )[i] == name + seq!['='] + value_text(value)),
        line_sets(list[i], name) && lookup(values, name) is None ==> updated_lines(list, values)[i]
            == list[i],
        (forall|n: Seq<char>| !#[trigger] line_sets(list[i], n)) ==> updated_lines(list, values)[i]
            == list[i],
{
    reveal_strlit("=");
    assert("="@ =~= seq!['=']);
    lemma_edit(list[i], values, name);
    assert(updated_lines(list, values)[i] == edited_lines(list, values)[i]);
}

/// After the lines that were there come those for the requested variables that no
/// line sets, in the order of the request.
pub proof fn law_missing_variables_are_added(
    list: Seq<Seq<char>>,
    values: Seq<(Seq<char>, JsonView)>,
)
    ensures
        ({
            let new = values.filter(
                |m: (Seq<char>, JsonView)|
                    !exists|i: int| 0 <= i < list.len() && line_sets(#[trigger] list[i], m.0),
            );
            let after = updated_lines(list, values);
            &&& after.len() == list.len() + new.len()
            &&& forall|k: int|
                0 <= k < new.len() ==> after[list.len() + k] == (#[trigger] new[k]).0 + seq!['=']
                    + value_text(new[k].1)
        }),
{
    reveal_strlit("=");
    assert("="@ =~= seq!['=']);
    lemma_missing_are_not_set(list, values);
    let new = missing(values, list, values);
    let after = updated_lines(list, values);
    assert forall|k: int| 0 <= k < new.len() implies after[list.len() + k] == (#[trigger] new[k]).0
        + seq!['='] + value_text(new[k].1) by {
        assert(after[list.len() + k] == assignments(new)[k]);
    }
}

proof fn lemma_keys_are_found(values: Seq<(Seq<char>, JsonView)>, k: int)
    requires
        0 <= k < values.len(),
    ensures
        lookup(values, values[k].0) is Some,
    decreases k,
{
    if values[0].0 != values[k].0 {
        let rest = values.drop_first();
        assert(rest[k - 1] == values[k]);
        lemma_keys_are_found(rest, k - 1);
    }
}

proof fn lemma_missing_are_not_set(list: Seq<Seq<char>>, values: Seq<(Seq<char>, JsonView)>)
    ensures
        missing(values, list, values) == values.filter(
            |m: (Seq<char>, JsonView)|
                !exists|i: int| 0 <= i < list.len() && line_sets(#[trigger] list[i], m.0),
        ),
{
    assert forall|k: int| 0 <= k < values.len() implies lookup(
        values,
        (#[trigger] values[k]).0,
    ) is Some by {
        lemma_keys_are_found(values, k);
    }
    lemma_missing_filter(values, list, values);
}

proof fn lemma_missing_filter(
    wanted: Seq<(Seq<char>, JsonView)>,
    list: Seq<Seq<char>>,
    values: Seq<(Seq<char>, JsonView)>,
)
    requires
        forall|k: int| 0 <= k < wanted.len() ==> lookup(values, (#[trigger] wanted[k]).0) is Some,
    ensures
        missing(wanted, list, values) == wanted.filter(
            |m: (Seq<char>, JsonView)|
                !exists|i: int| 0 <= i < list.len() && line_sets(#[trigger] list[i], m.0),
        ),
    decreases wanted.len(),
{
    reveal(Seq::filter);
    if wanted.len() > 0 {
        let init = wanted.drop_last();
        assert forall|k: int| 0 <= k < init.len() implies lookup(
            values,
            (#[trigger] init[k]).0,
        ) is Some by {
            assert(init[k] == wanted[k]);
        }
        lemma_missing_filter(init, list, values);
        let key = wanted.last().0;
        assert(lookup(values, wanted[wanted.len() - 1].0) is Some);
        if set_somewhere(list, values, key) {
            let i = choose|i: int| 0 <= i < list.len() && #[trigger] sets(list[i], values, key);
            lemma_edit(list[i], values, key);
            assert(line_sets(list[i], key));
        }
        if exists|i: int| 0 <= i < list.len() && line_sets(#[trigger] list[i], key) {
            let i = choose|i: int| 0 <= i < list.len() && line_sets(#[trigger] list[i], key);
            lemma_edit(list[i], values, key);
            assert(sets(list[i], values, key));
        }
    }
}

/// How a value is shown in a report: with the name of its kind.
pub open spec fn value_shown(value: JsonView) -> Seq<char> {
    match value {
        JsonView::String(s) => "String("@ + debug_of(s) + ")"@,
        JsonView::Null => "Null"@,
        JsonView::Bool(b) => "Bool("@ + (if b {
            "true"@
        } else {
            "false"@
        }) + ")"@,
        JsonView::Number(NumberView::PosInt(n)) => "Number("@ + decimal(n as nat) + ")"@,
        JsonView::Number(NumberView::NegInt(n)) => "Number("@ + signed_decimal(n as int) + ")"@,
        _ => json_debugged(value),
    }
}

/// Of each line that changes, the report tells the name, the old value and the new
/// one; of a line that stays it tells nothing.
pub proof fn law_changed_lines_are_reported(
    list: Seq<Seq<char>>,
    more: Seq<Seq<char>>,
    values: Seq<(Seq<char>, JsonView)>,
    name: Seq<char>,
    was: Seq<char>,
    value: JsonView,
)
    requires
        line_sets(name + seq!['='] + was, name),
        lookup(values, name) == Some(value),
    ensures
        changes_in(list + more, values) == changes_in(list, values) + changes_in(more, values),
        was != value_text(value) ==> changes_in(seq![name + seq!['='] + was], values) == seq![
            "  "@ + name + ": (was Some("@ + debug_of(was) + ")) -> "@ + value_shown(value),
        ],
        was == value_text(value) ==> changes_in(seq![name + seq!['='] + was], values).len() == 0,
{
    let line = name + seq!['='] + was;
    reveal_strlit("=");
    assert("="@ =~= seq!['=']);
    lemma_changes_append(list, more, values);
    lemma_edit(line, values, name);
    law_split_at_the_first(name, '=', was);
    assert(edit_of(line, values) == Some((name, was, value)));
    reveal_with_fuel(changes_in, 2);
    assert(seq![line].drop_last() =~= seq![]);
    let after = name + seq!['='] + value_text(value);
    if was != value_text(value) {
        if after == line {
            let n = (name.len() + 1) as int;
            assert(after.skip(n) =~= value_text(value));
            assert(line.skip(n) =~= was);
        }
    }
    assert(changes_in(seq![line], values) =~= if after != line {
        seq!["  "@ + name + ": (was Some("@ + debug_of(was) + ")) -> "@ + value_shown(value)]
    } else {
        seq![]
    });
}

/// Of a line that sets no requested variable the report tells nothing.
pub proof fn law_other_lines_are_not_reported(
    line: Seq<char>,
    values: Seq<(Seq<char>, JsonView)>,
)
    requires
        forall|n: Seq<char>| #[trigger] line_sets(line, n) ==> lookup(values, n) is None,
    ensures
        changes_in(seq![line], values).len() == 0,
        changes_in(Seq::empty(), values).len() == 0,
{
    lemma_edit(line, values, line);
    reveal_with_fuel(changes_in, 2);
    assert(seq![line].drop_last() =~= seq![]);
}

proof fn lemma_changes_append(
    list: Seq<Seq<char>>,
    more: Seq<Seq<char>>,
    values: Seq<(Seq<char>, JsonView)>,
)
    ensures
        changes_in(list + more, values) == changes_in(list, values) + changes_in(more, values),
    decreases more.len(),
{
    if more.len() == 0 {
        assert(list + more =~= list);
    } else {
        lemma_changes_append(list, more.drop_last(), values);
        assert((list + more).drop_last() =~= list + more.drop_last());
        assert((list + more).last() == more.last());
    }
    assert(changes_in(list + more, values) =~= changes_in(list, values) + changes_in(more, values));
}

/// The report tells the changed lines first, and then each added variable with its
/// value.
pub proof fn law_added_variables_are_reported(
    list: Seq<Seq<char>>,
    values: Seq<(Seq<char>, JsonView)>,
)
    ensures
        ({
            let new = values.filter(
                |m: (Seq<char>, JsonView)|
                    !exists|i: int| 0 <= i < list.len() && line_sets(#[trigger] list[i], m.0),
            );
            all_changes(list, values) == changes_in(list, values) + Seq::new(
                new.len(),
                |k: int| "  "@ + new[k].0 + ": (new) -> "@ + value_shown(new[k].1),
            )
        }),
{
    lemma_missing_are_not_set(list, values);
    let new = missing(values, list, values);
    assert(additions(new) =~= Seq::new(
        new.len(),
        |k: int| "  "@ + new[k].0 + ": (new) -> "@ + value_shown(new[k].1),
    ));
}

} // verus!
