//! Environment variables: the `.env` file of the compose stack, and the
//! environment of a container.

use vstd::prelude::*;
use vstd::string::*;
use crate::json::{Json, JsonView, Member, find_member, json_shown, json_text, lookup, members_view};
use crate::outside::{debug_of, debug_text, lowercase_of, to_lowercase};
use crate::text::{chars_of, contains, has_infix, join, joined, lines, lines_of, same_text,
    split_at_first, split_once, texts, trim, trimmed};
use crate::tools::has_text;

verus! {

/// An environment variable.
#[derive(Debug, PartialEq)]
pub struct EnvVar {
    pub name: String,
    pub value: String,
}

/// The names and values of a list of variables.
pub open spec fn env_view(env: Seq<EnvVar>) -> Seq<(Seq<char>, Seq<char>)> {
    Seq::new(env.len(), |i: int| (env[i].name@, env[i].value@))
}

/// The position of the first variable with the given name; the length of the
/// list where there is none.
pub open spec fn env_pos(env: Seq<(Seq<char>, Seq<char>)>, name: Seq<char>) -> int
    decreases env.len(),
{
    if env.len() == 0 || env[0].0 == name {
        0
    } else {
        1 + env_pos(env.drop_first(), name)
    }
}

/// The value of a variable.
pub open spec fn env_value(env: Seq<(Seq<char>, Seq<char>)>, name: Seq<char>) -> Option<Seq<char>> {
    let i = env_pos(env, name);
    if i < env.len() {
        Some(env[i].1)
    } else {
        None
    }
}

/// The variables with one set: in its place where it is there already, at the end
/// where it is new.
pub open spec fn env_set(
    env: Seq<(Seq<char>, Seq<char>)>,
    name: Seq<char>,
    value: Seq<char>,
) -> Seq<(Seq<char>, Seq<char>)> {
    let i = env_pos(env, name);
    if i < env.len() {
        env.update(i, (name, value))
    } else {
        env.push((name, value))
    }
}

/// Whether a line of a `.env` file is blank or a comment.
pub open spec fn skipped_line(line: Seq<char>) -> bool {
    trimmed(line).len() == 0 || trimmed(line)[0] == '#'
}

/// The variable that a line of a `.env` file sets.
pub open spec fn env_entry(line: Seq<char>) -> Option<(Seq<char>, Seq<char>)> {
    if skipped_line(line) {
        None
    } else {
        split_at_first(trimmed(line), '=')
    }
}

/// The variables that the lines of a `.env` file set; the last setting of a
/// variable counts.
pub open spec fn env_of(list: Seq<Seq<char>>) -> Seq<(Seq<char>, Seq<char>)>
    decreases list.len(),
{
    if list.len() == 0 {
        seq![]
    } else {
        let rest = env_of(list.drop_last());
        match env_entry(list.last()) {
            Some((name, value)) => env_set(rest, name, value),
            None => rest,
        }
    }
}

/// The variables of `base` and, besides, those that the `NAME=value` lines set
/// and `base` does not have.
pub open spec fn env_completed(
    base: Seq<(Seq<char>, Seq<char>)>,
    list: Seq<Seq<char>>,
) -> Seq<(Seq<char>, Seq<char>)>
    decreases list.len(),
{
    if list.len() == 0 {
        base
    } else {
        let rest = env_completed(base, list.drop_last());
        match split_at_first(list.last(), '=') {
            Some((name, value)) => if env_pos(base, name) < base.len() {
                rest
            } else {
                env_set(rest, name, value)
            },
            None => rest,
        }
    }
}

/// The position of a variable is the first one with its name.
pub proof fn lemma_env_pos(env: Seq<(Seq<char>, Seq<char>)>, name: Seq<char>)
    ensures
        0 <= env_pos(env, name) <= env.len(),
        forall|j: int| 0 <= j < env_pos(env, name) ==> (#[trigger] env[j]).0 != name,
        env_pos(env, name) < env.len() ==> env[env_pos(env, name)].0 == name,
    decreases env.len(),
{
    if env.len() > 0 && env[0].0 != name {
        let t = env.drop_first();
        lemma_env_pos(t, name);
        assert forall|j: int| 0 <= j < env_pos(env, name) implies (#[trigger] env[j]).0 != name by {
            if j > 0 {
                assert(env[j] == t[j - 1]);
            }
        }
    }
}

/// The first position with a name is the position of the variable.
pub proof fn lemma_env_pos_is(env: Seq<(Seq<char>, Seq<char>)>, name: Seq<char>, i: int)
    requires
        0 <= i <= env.len(),
        forall|j: int| 0 <= j < i ==> (#[trigger] env[j]).0 != name,
        i < env.len() ==> env[i].0 == name,
    ensures
        env_pos(env, name) == i,
{
    lemma_env_pos(env, name);
    let k = env_pos(env, name);
    if k < i {
        assert(env[k].0 != name);
    } else if i < k {
        assert(env[i].0 != name);
    }
}

/// The position of the first variable with the given name; the length of the
/// list where there is none.
fn find_var(env: &Vec<EnvVar>, name: &str) -> (r: usize)
    ensures
        r <= env@.len(),
        r == env_pos(env_view(env@), name@),
{
    let n: usize = env.len();
    let mut i: usize = 0;
    let ghost v = env_view(env@);
    while i < n && !same_text(env[i].name.as_str(), name)
        invariant
            n == env@.len(),
            v == env_view(env@),
            i <= n,
            forall|j: int| 0 <= j < i ==> (#[trigger] v[j]).0 != name@,
        decreases n - i,
    {
        i = i + 1;
    }
    proof {
        lemma_env_pos_is(v, name@, i as int);
    }
    i
}

/// Sets a variable.
fn set_var(env: &mut Vec<EnvVar>, name: &str, value: &str)
    ensures
        env_view(final(env)@) == env_set(env_view(old(env)@), name@, value@),
{
    let i: usize = find_var(env, name);
    let ghost before = env_view(env@);
    let var = EnvVar { name: name.to_owned(), value: value.to_owned() };
    if i < env.len() {
        env.set(i, var);
        proof {
            assert(env_view(env@) =~= before.update(i as int, (name@, value@)));
        }
    } else {
        env.push(var);
        proof {
            assert(env_view(env@) =~= before.push((name@, value@)));
        }
    }
}

/// Whether a line of a `.env` file is blank or a comment.
fn is_skipped(line: &str) -> (r: bool)
    ensures
        r == skipped_line(line@),
{
    let cs: Vec<char> = chars_of(trim(line));
    cs.len() == 0 || cs[0] == '#'
}

/// The variables that a `.env` file sets.
pub fn parse_env(content: &str) -> (r: Vec<EnvVar>)
    ensures
        env_view(r@) == env_of(lines_of(content@)),
{
    let list: Vec<String> = lines(content);
    let n: usize = list.len();
    let mut env: Vec<EnvVar> = Vec::new();
    let mut i: usize = 0;
    let ghost all = texts(list@);
    proof {
        assert(all.take(0) =~= seq![]);
        assert(env_view(env@) =~= seq![]);
    }
    while i < n
        invariant
            n == list@.len(),
            all == texts(list@),
            i <= n,
            env_view(env@) == env_of(all.take(i as int)),
        decreases n - i,
    {
        proof {
            assert(all.take(i + 1).drop_last() =~= all.take(i as int));
            assert(all.take(i + 1).last() == list@[i as int]@);
        }
        if !is_skipped(list[i].as_str()) {
            match split_once(trim(list[i].as_str()), '=') {
                Some((name, value)) => {
                    set_var(&mut env, name, value);
                },
                None => {},
            }
        }
        i = i + 1;
    }
    proof {
        assert(all.take(n as int) =~= all);
    }
    env
}

/// The variables of `base` and, besides, those that the `NAME=value` lines set
/// and `base` does not have.
pub fn complete_env(base: Vec<EnvVar>, list: &Vec<String>) -> (r: Vec<EnvVar>)
    ensures
        env_view(r@) == env_completed(env_view(base@), texts(list@)),
        r@.len() >= base@.len(),
{
    let n: usize = list.len();
    let own: usize = base.len();
    let mut env: Vec<EnvVar> = base;
    let mut i: usize = 0;
    let ghost all = texts(list@);
    let ghost b = env_view(base@);
    proof {
        assert(all.take(0) =~= seq![]);
        assert(b.take(own as int) =~= b);
    }
    while i < n
        invariant
            n == list@.len(),
            all == texts(list@),
            i <= n,
            own == b.len(),
            own <= env@.len(),
            env_view(env@).take(own as int) == b,
            env_view(env@) == env_completed(b, all.take(i as int)),
        decreases n - i,
    {
        proof {
            assert(all.take(i + 1).drop_last() =~= all.take(i as int));
            assert(all.take(i + 1).last() == list@[i as int]@);
        }
        match split_once(list[i].as_str(), '=') {
            Some((name, value)) => {
                let ghost before = env_view(env@);
                let k: usize = find_var(&env, name);
                proof {
                    lemma_env_pos_prefix(before, own as int, name@);
                    lemma_env_pos(before, name@);
                }
                if k >= own {
                    set_var(&mut env, name, value);
                    proof {
                        assert(env_view(env@).take(own as int) =~= b);
                    }
                }
            },
            None => {},
        }
        i = i + 1;
    }
    proof {
        assert(all.take(n as int) =~= all);
    }
    env
}

proof fn lemma_env_pos_prefix(env: Seq<(Seq<char>, Seq<char>)>, n: int, name: Seq<char>)
    requires
        0 <= n <= env.len(),
    ensures
        env_pos(env.take(n), name) < n <==> env_pos(env, name) < n,
{
    let head = env.take(n);
    lemma_env_pos(env, name);
    lemma_env_pos(head, name);
    let k = env_pos(env, name);
    let h = env_pos(head, name);
    if k < n {
        assert forall|j: int| 0 <= j < k implies (#[trigger] head[j]).0 != name by {
            assert(head[j] == env[j]);
        }
        assert(head[k] == env[k]);
        lemma_env_pos_is(head, name, k);
    } else if h < n {
        assert(head[h] == env[h]);
        assert(env[h].0 != name);
    }
}

// Changing a `.env` file.

/// What a line sets, where it sets one of the requested variables: its name, its
/// value so far and the value requested.
pub open spec fn edit_of(line: Seq<char>, values: Seq<(Seq<char>, JsonView)>) -> Option<
    (Seq<char>, Seq<char>, JsonView),
> {
    if skipped_line(line) {
        None
    } else {
        match split_at_first(line, '=') {
            Some((key, was)) => match lookup(values, key) {
                Some(value) => Some((key, was, value)),
                None => None,
            },
            None => None,
        }
    }
}

/// How a requested value is written: a string as it is, any other value as JSON.
/// A string that holds a line feed is written as JSON too, so that it stays on
/// its line.
pub open spec fn written(value: JsonView) -> Seq<char> {
    match value {
        JsonView::String(s) => if s.contains('\n') {
            json_text(value)
        } else {
            s
        },
        _ => json_text(value),
    }
}

/// A line that sets a variable to a requested value.
pub open spec fn assignment(key: Seq<char>, value: JsonView) -> Seq<char> {
    key + "="@ + written(value)
}

/// What becomes of a line: one that sets a requested variable now sets it to the
/// requested value, every other stays as it is.
pub open spec fn edited_line(line: Seq<char>, values: Seq<(Seq<char>, JsonView)>) -> Seq<char> {
    match edit_of(line, values) {
        Some((key, _, value)) => assignment(key, value),
        None => line,
    }
}

/// What becomes of the lines of a file.
pub open spec fn edited_lines(
    list: Seq<Seq<char>>,
    values: Seq<(Seq<char>, JsonView)>,
) -> Seq<Seq<char>> {
    Seq::new(list.len(), |i: int| edited_line(list[i], values))
}

/// How the change of a line is reported.
pub open spec fn change_text(key: Seq<char>, was: Seq<char>, value: JsonView) -> Seq<char> {
    "  "@ + key + ": (was Some("@ + debug_of(was) + ")) -> "@ + json_shown(value)
}

/// The reports on the lines that change, in order. A line that has the requested
/// value already does not.
pub open spec fn changes_in(
    list: Seq<Seq<char>>,
    values: Seq<(Seq<char>, JsonView)>,
) -> Seq<Seq<char>>
    decreases list.len(),
{
    if list.len() == 0 {
        seq![]
    } else {
        let rest = changes_in(list.drop_last(), values);
        match edit_of(list.last(), values) {
            Some((key, was, value)) => if edited_line(list.last(), values) != list.last() {
                rest.push(change_text(key, was, value))
            } else {
                rest
            },
            None => rest,
        }
    }
}

/// Whether the line sets the requested variable `key`.
pub open spec fn sets(line: Seq<char>, values: Seq<(Seq<char>, JsonView)>, key: Seq<char>) -> bool {
    edit_of(line, values) matches Some((k, _, _)) && k == key
}

/// Whether some line sets the requested variable `key`.
pub open spec fn set_somewhere(
    list: Seq<Seq<char>>,
    values: Seq<(Seq<char>, JsonView)>,
    key: Seq<char>,
) -> bool {
    exists|i: int| 0 <= i < list.len() && #[trigger] sets(list[i], values, key)
}

/// Those of `wanted` that no line sets, in order.
pub open spec fn missing(
    wanted: Seq<(Seq<char>, JsonView)>,
    list: Seq<Seq<char>>,
    values: Seq<(Seq<char>, JsonView)>,
) -> Seq<(Seq<char>, JsonView)>
    decreases wanted.len(),
{
    if wanted.len() == 0 {
        seq![]
    } else {
        let rest = missing(wanted.drop_last(), list, values);
        if set_somewhere(list, values, wanted.last().0) {
            rest
        } else {
            rest.push(wanted.last())
        }
    }
}

/// The lines that set the given variables.
pub open spec fn assignments(wanted: Seq<(Seq<char>, JsonView)>) -> Seq<Seq<char>> {
    Seq::new(wanted.len(), |i: int| assignment(wanted[i].0, wanted[i].1))
}

/// How the addition of a variable is reported.
pub open spec fn addition_text(key: Seq<char>, value: JsonView) -> Seq<char> {
    "  "@ + key + ": (new) -> "@ + json_shown(value)
}

/// The reports on the variables that are added.
pub open spec fn additions(wanted: Seq<(Seq<char>, JsonView)>) -> Seq<Seq<char>> {
    Seq::new(wanted.len(), |i: int| addition_text(wanted[i].0, wanted[i].1))
}

/// The lines of a `.env` file after the requested values are set: the lines that
/// set a requested variable changed in place, the others as they were, and a
/// line at the end for each variable that no line sets.
pub open spec fn updated_lines(
    list: Seq<Seq<char>>,
    values: Seq<(Seq<char>, JsonView)>,
) -> Seq<Seq<char>> {
    edited_lines(list, values) + assignments(missing(values, list, values))
}

/// The reports on all changes.
pub open spec fn all_changes(
    list: Seq<Seq<char>>,
    values: Seq<(Seq<char>, JsonView)>,
) -> Seq<Seq<char>> {
    changes_in(list, values) + additions(missing(values, list, values))
}

/// A `.env` file with requested values set, and what that changed.
#[derive(Debug, PartialEq)]
pub struct EnvUpdate {
    pub content: String,
    pub changes: Vec<String>,
}

/// Whether a text holds a line feed.
fn breaks_line(s: &str) -> (r: bool)
    ensures
        r == s@.contains('\n'),
{
    let cs: Vec<char> = chars_of(s);
    let n: usize = cs.len();
    let mut i: usize = 0;
    while i < n
        invariant
            n == cs@.len(),
            cs@ == s@,
            i <= n,
            forall|j: int| 0 <= j < i ==> s@[j] != '\n',
        decreases n - i,
    {
        if cs[i] == '\n' {
            proof {
                assert(s@[i as int] == '\n');
            }
            return true;
        }
        i = i + 1;
    }
    false
}

fn assignment_line(key: &str, value: &Json) -> (r: String)
    ensures
        r@ == assignment(key@, value@),
{
    let start: String = key.to_owned().concat("=");
    match value {
        Json::String(s) => if breaks_line(s.as_str()) {
            start.concat(value.to_text().as_str())
        } else {
            start.concat(s.as_str())
        },
        _ => start.concat(value.to_text().as_str()),
    }
}

/// Sets the requested values in a `.env` file.
pub fn update_env(current: &str, values: &Vec<Member>) -> (r: EnvUpdate)
    ensures
        r.content@ == joined(updated_lines(lines_of(current@), members_view(values@)), "\n"@),
        texts(r.changes@) == all_changes(lines_of(current@), members_view(values@)),
{
    let list: Vec<String> = lines(current);
    let n: usize = list.len();
    let mut out: Vec<String> = Vec::new();
    let mut changes: Vec<String> = Vec::new();
    let mut keys: Vec<String> = Vec::new();
    let mut i: usize = 0;
    let ghost all = texts(list@);
    let ghost wanted = members_view(values@);
    proof {
        assert(all.take(0) =~= seq![]);
        assert(texts(out@) =~= seq![]);
        assert(texts(changes@) =~= seq![]);
    }
    while i < n
        invariant
            n == list@.len(),
            all == texts(list@),
            wanted == members_view(values@),
            i <= n,
            texts(out@) == edited_lines(all, wanted).take(i as int),
            texts(changes@) == changes_in(all.take(i as int), wanted),
            forall|key: Seq<char>| #[trigger]
                texts(keys@).contains(key) <==> set_somewhere(all.take(i as int), wanted, key),
        decreases n - i,
    {
        let ghost head = all.take(i as int);
        let ghost head1 = all.take(i + 1);
        let ghost line = list@[i as int]@;
        let ghost outs = texts(out@);
        let ghost reports = texts(changes@);
        let ghost keys0 = texts(keys@);
        proof {
            assert(head1.drop_last() =~= head);
            assert(head1.last() == line);
            assert(edited_lines(all, wanted)[i as int] == edited_line(line, wanted));
            lemma_set_somewhere_step(all, i as int, wanted);
        }
        let mut done: bool = false;
        if !is_skipped(list[i].as_str()) {
            match split_once(list[i].as_str(), '=') {
                Some((key, was)) => match find_member(values, key) {
                    Some(value) => {
                        let edited: String = assignment_line(key, value);
                        if !same_text(edited.as_str(), list[i].as_str()) {
                            changes.push(
                                "  ".to_owned().concat(key).concat(": (was Some(").concat(
                                    debug_text(was).as_str(),
                                ).concat(")) -> ").concat(value.shown().as_str()),
                            );
                            proof {
                                assert(texts(changes@) =~= reports.push(
                                    change_text(key@, was@, value@),
                                ));
                            }
                        }
                        out.push(edited);
                        keys.push(key.to_owned());
                        done = true;
                        proof {
                            assert(edit_of(line, wanted) == Some((key@, was@, value@)));
                            assert(edited_line(line, wanted) == assignment(key@, value@));
                            assert(texts(out@) =~= outs.push(assignment(key@, value@)));
                            assert(texts(keys@) =~= keys0.push(key@));
                            assert forall|k: Seq<char>| #[trigger]
                                texts(keys@).contains(k) <==> set_somewhere(head1, wanted, k) by {
                                lemma_contains_push(keys0, key@, k);
                                assert(sets(all[i as int], wanted, k) <==> k == key@);
                                assert(keys0.contains(k) <==> set_somewhere(head, wanted, k));
                            }
                        }
                    },
                    None => {},
                },
                None => {},
            }
        }
        if !done {
            out.push(list[i].clone());
            proof {
                assert(edit_of(line, wanted) is None);
                assert(texts(out@) =~= outs.push(line));
                assert forall|k: Seq<char>| #[trigger]
                    texts(keys@).contains(k) <==> set_somewhere(head1, wanted, k) by {
                    assert(!sets(all[i as int], wanted, k));
                }
            }
        }
        i = i + 1;
    }
    proof {
        assert(all.take(n as int) =~= all);
        assert(texts(out@) =~= edited_lines(all, wanted));
    }
    let m: usize = values.len();
    let mut k: usize = 0;
    proof {
        assert(wanted.take(0) =~= seq![]);
        assert(assignments(missing(wanted.take(0), all, wanted)) =~= seq![]);
        assert(additions(missing(wanted.take(0), all, wanted)) =~= seq![]);
        assert(texts(out@) =~= edited_lines(all, wanted) + seq![]);
        assert(texts(changes@) =~= changes_in(all, wanted) + seq![]);
    }
    while k < m
        invariant
            m == values@.len(),
            wanted == members_view(values@),
            k <= m,
            texts(out@) == edited_lines(all, wanted) + assignments(
                missing(wanted.take(k as int), all, wanted),
            ),
            texts(changes@) == changes_in(all, wanted) + additions(
                missing(wanted.take(k as int), all, wanted),
            ),
            forall|key: Seq<char>| #[trigger]
                texts(keys@).contains(key) <==> set_somewhere(all, wanted, key),
        decreases m - k,
    {
        let ghost rest = missing(wanted.take(k as int), all, wanted);
        let ghost outs = texts(out@);
        let ghost reports = texts(changes@);
        let key = values[k].key.as_str();
        let value = &values[k].value;
        proof {
            assert(wanted.take(k + 1).drop_last() =~= wanted.take(k as int));
            assert(wanted.take(k + 1).last() == (key@, value@));
        }
        if !has_text(&keys, key) {
            out.push(assignment_line(key, value));
            changes.push(
                "  ".to_owned().concat(key).concat(": (new) -> ").concat(value.shown().as_str()),
            );
            proof {
                let rest1 = rest.push((key@, value@));
                assert(texts(out@) =~= outs.push(assignment(key@, value@)));
                assert(texts(out@) =~= edited_lines(all, wanted) + assignments(rest1));
                assert(texts(changes@) =~= reports.push(addition_text(key@, value@)));
                assert(texts(changes@) =~= changes_in(all, wanted) + additions(rest1));
            }
        }
        k = k + 1;
    }
    proof {
        assert(wanted.take(m as int) =~= wanted);
    }
    EnvUpdate { content: join(&out, "\n"), changes }
}

proof fn lemma_contains_push(list: Seq<Seq<char>>, a: Seq<char>, k: Seq<char>)
    ensures
        list.push(a).contains(k) <==> list.contains(k) || k == a,
{
    let longer = list.push(a);
    if list.contains(k) {
        let i = choose|i: int| 0 <= i < list.len() && list[i] == k;
        assert(longer[i] == k);
    }
    if k == a {
        assert(longer[list.len() as int] == k);
    }
    if longer.contains(k) {
        let i = choose|i: int| 0 <= i < longer.len() && longer[i] == k;
        if i < list.len() {
            assert(list[i] == k);
        }
    }
}

proof fn lemma_set_somewhere_step(
    all: Seq<Seq<char>>,
    i: int,
    values: Seq<(Seq<char>, JsonView)>,
)
    requires
        0 <= i < all.len(),
    ensures
        forall|key: Seq<char>|
            set_somewhere(all.take(i + 1), values, key) <==> set_somewhere(
                all.take(i),
                values,
                key,
            ) || #[trigger] sets(all[i], values, key),
{
    let head = all.take(i);
    let head1 = all.take(i + 1);
    assert forall|key: Seq<char>|
        set_somewhere(head1, values, key) <==> set_somewhere(head, values, key)
            || #[trigger] sets(all[i], values, key) by {
        if set_somewhere(head1, values, key) {
            let k = choose|k: int| 0 <= k < head1.len() && #[trigger] sets(head1[k], values, key);
            if k < i {
                assert(sets(head[k], values, key));
            }
        }
        if set_somewhere(head, values, key) {
            let k = choose|k: int| 0 <= k < head.len() && #[trigger] sets(head[k], values, key);
            assert(sets(head1[k], values, key));
        }
        if sets(all[i], values, key) {
            assert(sets(head1[i], values, key));
        }
    }
}

// Listing the environment of a container.

/// The name in a `NAME=value` line; the whole line where it holds no `=`.
pub open spec fn line_name(line: Seq<char>) -> Seq<char> {
    match split_at_first(line, '=') {
        Some((name, _)) => name,
        None => line,
    }
}

/// The lines whose variable's name holds the filter, upper and lower case
/// counting as the same.
pub open spec fn lines_named(list: Seq<Seq<char>>, filter: Seq<char>) -> Seq<Seq<char>>
    decreases list.len(),
{
    if list.len() == 0 {
        seq![]
    } else {
        let rest = lines_named(list.drop_last(), filter);
        if has_infix(lowercase_of(line_name(list.last())), lowercase_of(filter)) {
            rest.push(list.last())
        } else {
            rest
        }
    }
}

/// What is shown of a listing of variables: all of it without a filter, the
/// variables whose name holds the filter with one.
pub open spec fn env_listing(listing: Seq<char>, filter: Seq<char>) -> Seq<char> {
    if filter.len() == 0 {
        joined(lines_of(listing), "\n"@)
    } else {
        joined(lines_named(lines_of(listing), filter), "\n"@)
    }
}

/// Those elements of `list` at whose positions `names` holds `part`.
pub open spec fn where_name_has(
    list: Seq<Seq<char>>,
    names: Seq<Seq<char>>,
    part: Seq<char>,
) -> Seq<Seq<char>>
    decreases list.len(),
{
    if list.len() == 0 {
        seq![]
    } else {
        let rest = where_name_has(list.drop_last(), names, part);
        if has_infix(names[list.len() - 1], part) {
            rest.push(list.last())
        } else {
            rest
        }
    }
}

/// Those elements of `list` at whose positions `names` holds `part`.
pub fn select_by_name(list: &Vec<String>, names: &Vec<String>, part: &str) -> (r: Vec<String>)
    requires
        list@.len() == names@.len(),
    ensures
        texts(r@) == where_name_has(texts(list@), texts(names@), part@),
{
    let n: usize = list.len();
    let mut out: Vec<String> = Vec::new();
    let mut i: usize = 0;
    let ghost all = texts(list@);
    proof {
        assert(all.take(0) =~= seq![]);
        assert(texts(out@) =~= seq![]);
    }
    while i < n
        invariant
            n == list@.len(),
            n == names@.len(),
            all == texts(list@),
            i <= n,
            texts(out@) == where_name_has(all.take(i as int), texts(names@), part@),
        decreases n - i,
    {
        proof {
            assert(all.take(i + 1).drop_last() =~= all.take(i as int));
            assert(all.take(i + 1).last() == list@[i as int]@);
        }
        if contains(names[i].as_str(), part) {
            let ghost before = texts(out@);
            out.push(list[i].clone());
            proof {
                assert(texts(out@) =~= before.push(list@[i as int]@));
            }
        }
        i = i + 1;
    }
    proof {
        assert(all.take(n as int) =~= all);
    }
    out
}

proof fn lemma_lines_named(list: Seq<Seq<char>>, names: Seq<Seq<char>>, filter: Seq<char>)
    requires
        names.len() >= list.len(),
        forall|i: int|
            0 <= i < list.len() ==> #[trigger] names[i] == lowercase_of(line_name(list[i])),
    ensures
        lines_named(list, filter) == where_name_has(list, names, lowercase_of(filter)),
    decreases list.len(),
{
    if list.len() > 0 {
        let init = list.drop_last();
        assert forall|i: int| 0 <= i < init.len() implies #[trigger] names[i] == lowercase_of(
            line_name(init[i]),
        ) by {
            assert(init[i] == list[i]);
        }
        lemma_lines_named(init, names, filter);
        assert(names[list.len() - 1] == lowercase_of(line_name(list.last())));
    }
}

/// What is shown of a listing of variables with one on each line.
pub fn filter_env(listing: &str, filter: &str) -> (r: String)
    ensures
        r@ == env_listing(listing@, filter@),
{
    let list: Vec<String> = lines(listing);
    if filter.is_empty() {
        return join(&list, "\n");
    }
    let n: usize = list.len();
    let mut names: Vec<String> = Vec::new();
    let mut i: usize = 0;
    while i < n
        invariant
            n == list@.len(),
            i <= n,
            names@.len() == i,
            forall|k: int|
                0 <= k < i ==> (#[trigger] names@[k])@ == lowercase_of(line_name(list@[k]@)),
        decreases n - i,
    {
        let name = match split_once(list[i].as_str(), '=') {
            Some((name, _)) => name,
            None => list[i].as_str(),
        };
        names.push(to_lowercase(name));
        i = i + 1;
    }
    let part: String = to_lowercase(filter);
    proof {
        lemma_lines_named(texts(list@), texts(names@), filter@);
    }
    join(&select_by_name(&list, &names, part.as_str()), "\n")
}

} // verus!
