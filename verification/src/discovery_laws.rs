//! What holds of the search for a host's services.

use vstd::prelude::*;
use crate::command::{CommandView, OutcomeView};
use crate::discovery::{DiscoveryStepView, DiscoveryView, RoleView, ServiceView, container_for,
    first_holding, first_step, rows_in, running_image};
use crate::outside::{lossy_text, lowercase_of};
use crate::text::{has_infix, lines_of};
use crate::text_laws::{law_infix_is_what_a_text_holds, law_split_at_the_first,
    law_split_gives_all_of_the_text};

verus! {

// The container of a service.

/// Of the rows of a listing, each with a name and an image, the name of a row is
/// what is found for a hint exactly where the hint in lower case stands somewhere
/// in the whole image of that row in lower case, and in that of no earlier row.
pub proof fn law_first_image_with_the_hint_is_found(
    rows: Seq<(Seq<char>, Seq<char>)>,
    hint: Seq<char>,
    i: int,
)
    requires
        0 <= i < rows.len(),
        forall|j: int, a: Seq<char>, b: Seq<char>|
            0 <= j < i ==> lowercase_of((#[trigger] rows[j]).1) != #[trigger] (a + lowercase_of(
                hint,
            ) + b),
    ensures
        (exists|a: Seq<char>, b: Seq<char>|
            lowercase_of(rows[i].1) == #[trigger] (a + lowercase_of(hint) + b)) ==> running_image(
            rows,
            hint,
        ) == Some(rows[i].0),
    decreases rows.len(),
{
    if exists|a: Seq<char>, b: Seq<char>|
        lowercase_of(rows[i].1) == #[trigger] (a + lowercase_of(hint) + b) {
        law_infix_is_what_a_text_holds(lowercase_of(rows[0].1), lowercase_of(hint));
        if i > 0 {
            let rest = rows.drop_first();
            assert forall|j: int, a: Seq<char>, b: Seq<char>| 0 <= j < i - 1 implies lowercase_of(
                (#[trigger] rest[j]).1,
            ) != #[trigger] (a + lowercase_of(hint) + b) by {
                assert(rest[j] == rows[j + 1]);
            }
            assert(rest[i - 1] == rows[i]);
            law_first_image_with_the_hint_is_found(rest, hint, i - 1);
            if has_infix(lowercase_of(rows[0].1), lowercase_of(hint)) {
                let (a, b) = choose|a: Seq<char>, b: Seq<char>|
                    lowercase_of(rows[0].1) == #[trigger] (a + lowercase_of(hint) + b);
                assert(lowercase_of(rows[0].1) == a + lowercase_of(hint) + b);
            }
        }
    }
}

/// Whatever is found for a hint is the name of a row whose whole image in lower
/// case holds the hint in lower case, while that of no earlier row does; nothing is
/// found exactly where no row's image holds it.
pub proof fn law_found_container_has_the_hint(
    rows: Seq<(Seq<char>, Seq<char>)>,
    hint: Seq<char>,
)
    ensures
        running_image(rows, hint) matches Some(name) ==> exists|i: int|
            #![trigger rows[i]]
            0 <= i < rows.len() && rows[i].0 == name && (exists|a: Seq<char>, b: Seq<char>|
                lowercase_of(rows[i].1) == #[trigger] (a + lowercase_of(hint) + b)) && (forall|
                j: int,
                a: Seq<char>,
                b: Seq<char>,
            |
                0 <= j < i ==> lowercase_of((#[trigger] rows[j]).1) != #[trigger] (a
                    + lowercase_of(hint) + b)),
        running_image(rows, hint) is None <==> forall|j: int, a: Seq<char>, b: Seq<char>|
            0 <= j < rows.len() ==> lowercase_of((#[trigger] rows[j]).1) != #[trigger] (a
                + lowercase_of(hint) + b),
    decreases rows.len(),
{
    let h = lowercase_of(hint);
    if rows.len() > 0 {
        law_infix_is_what_a_text_holds(lowercase_of(rows[0].1), h);
        if has_infix(lowercase_of(rows[0].1), h) {
            let (a, b) = choose|a: Seq<char>, b: Seq<char>|
                lowercase_of(rows[0].1) == #[trigger] (a + h + b);
            assert(lowercase_of(rows[0].1) == a + h + b);
        } else {
            let rest = rows.drop_first();
            law_found_container_has_the_hint(rest, hint);
            assert forall|j: int| 0 <= j < rest.len() implies #[trigger] rest[j] == rows[j + 1] by {
            }
            match running_image(rest, hint) {
                Some(name) => {
                    let i = choose|i: int|
                        #![trigger rest[i]]
                        0 <= i < rest.len() && rest[i].0 == name && (exists|
                            a: Seq<char>,
                            b: Seq<char>,
                        |
                            lowercase_of(rest[i].1) == #[trigger] (a + h + b)) && (forall|
                            j: int,
                            a: Seq<char>,
                            b: Seq<char>,
                        |
                            0 <= j < i ==> lowercase_of((#[trigger] rest[j]).1) != #[trigger] (a + h
                                + b));
                    assert(rows[i + 1] == rest[i]);
                    assert forall|j: int, a: Seq<char>, b: Seq<char>|
                        0 <= j < i + 1 implies lowercase_of((#[trigger] rows[j]).1)
                        != #[trigger] (a + h + b) by {
                        if j > 0 {
                            assert(rest[j - 1] == rows[j]);
                        }
                    }
                },
                None => {
                    assert forall|j: int, a: Seq<char>, b: Seq<char>|
                        0 <= j < rows.len() implies lowercase_of((#[trigger] rows[j]).1)
                        != #[trigger] (a + h + b) by {
                        if j > 0 {
                            assert(rest[j - 1] == rows[j]);
                        }
                    }
                },
            }
        }
    }
}

/// The first of several texts that holds a part is the one that holds it while none
/// before does; where none does, it is past the end.
pub proof fn law_first_text_with_the_part(images: Seq<Seq<char>>, part: Seq<char>)
    ensures
        0 <= first_holding(images, part) <= images.len(),
        forall|j: int, a: Seq<char>, b: Seq<char>|
            0 <= j < first_holding(images, part) ==> #[trigger] images[j] != #[trigger] (a + part
                + b),
        first_holding(images, part) < images.len() ==> exists|a: Seq<char>, b: Seq<char>|
            images[first_holding(images, part)] == #[trigger] (a + part + b),
    decreases images.len(),
{
    if images.len() > 0 {
        law_infix_is_what_a_text_holds(images[0], part);
        if !has_infix(images[0], part) {
            let rest = images.drop_first();
            law_first_text_with_the_part(rest, part);
            let k = first_holding(images, part);
            assert forall|j: int, a: Seq<char>, b: Seq<char>|
                0 <= j < k implies #[trigger] images[j] != #[trigger] (a + part + b) by {
                if j > 0 {
                    assert(rest[j - 1] == images[j]);
                }
            }
            if k < images.len() {
                assert(rest[k - 1] == images[k]);
            }
        }
    }
}

/// A line of a listing that holds a tab is a row: the name before the first tab
/// and the image after it. A line without a tab is none.
pub proof fn law_rows_are_the_lines_with_a_tab(
    list: Seq<Seq<char>>,
    more: Seq<Seq<char>>,
    name: Seq<char>,
    image: Seq<char>,
)
    requires
        !name.contains('\t'),
    ensures
        rows_in(seq![name + seq!['\t'] + image]) == seq![(name, image)],
        rows_in(seq![name]) == Seq::<(Seq<char>, Seq<char>)>::empty(),
        rows_in(list + more) == rows_in(list) + rows_in(more),
    decreases more.len(),
{
    law_split_at_the_first(name, '\t', image);
    reveal_with_fuel(rows_in, 2);
    let row = seq![name + seq!['\t'] + image];
    assert(row.drop_last() =~= seq![]);
    assert(seq![name].drop_last() =~= seq![]);
    assert(rows_in(row) =~= seq![(name, image)]);
    if more.len() == 0 {
        assert(list + more =~= list);
        assert(rows_in(list + more) =~= rows_in(list) + rows_in(more));
    } else {
        law_rows_are_the_lines_with_a_tab(list, more.drop_last(), name, image);
        assert((list + more).drop_last() =~= list + more.drop_last());
        assert((list + more).last() == more.last());
        assert(rows_in(list + more) =~= rows_in(list) + rows_in(more));
    }
}

/// The container found in a listing is that of the first line which is a name, a
/// tab and an image that holds the hint, both in lower case.
pub proof fn law_container_is_found_in_the_listing(
    listing: Seq<char>,
    hint: Seq<char>,
    i: int,
    name: Seq<char>,
    image: Seq<char>,
)
    requires
        0 <= i < lines_of(listing).len(),
        lines_of(listing)[i] == name + seq!['\t'] + image,
        !name.contains('\t'),
        exists|a: Seq<char>, b: Seq<char>|
            lowercase_of(image) == #[trigger] (a + lowercase_of(hint) + b),
        forall|j: int, n: Seq<char>, m: Seq<char>, a: Seq<char>, b: Seq<char>|
            0 <= j < i && #[trigger] lines_of(listing)[j] == #[trigger] (n + seq!['\t'] + m)
                && !n.contains('\t') ==> lowercase_of(m) != #[trigger] (a + lowercase_of(hint)
                + b),
    ensures
        container_for(listing, hint) == Some(name),
{
    let list = lines_of(listing);
    let before = list.take(i);
    let h = lowercase_of(hint);
    law_rows_are_the_lines_with_a_tab(before, seq![list[i]], name, image);
    law_rows_are_the_lines_with_a_tab(before + seq![list[i]], list.skip(i + 1), name, image);
    assert(list =~= before + seq![list[i]] + list.skip(i + 1));
    let rows = rows_in(list);
    let k = rows_in(before).len() as int;
    assert(rows[k] == (name, image));
    assert forall|j: int, a: Seq<char>, b: Seq<char>| 0 <= j < k implies lowercase_of(
        (#[trigger] rows[j]).1,
    ) != #[trigger] (a + h + b) by {
        let row = rows_in(before)[j];
        assert(row == rows[j]);
        let g = lemma_row_is_a_line(before, j);
        assert(list[g] == before[g]);
        assert(lines_of(listing)[g] == row.0 + seq!['\t'] + row.1);
    }
    law_first_image_with_the_hint_is_found(rows, hint, k);
}

proof fn lemma_row_is_a_line(list: Seq<Seq<char>>, j: int) -> (g: int)
    requires
        0 <= j < rows_in(list).len(),
    ensures
        0 <= g < list.len(),
        list[g] == rows_in(list)[j].0 + seq!['\t'] + rows_in(list)[j].1,
        !rows_in(list)[j].0.contains('\t'),
    decreases list.len(),
{
    let init = list.drop_last();
    law_split_gives_all_of_the_text(list.last(), '\t');
    if j < rows_in(init).len() {
        assert(rows_in(list)[j] == rows_in(init)[j]);
        let g = lemma_row_is_a_line(init, j);
        assert(init[g] == list[g]);
        g
    } else {
        list.len() - 1
    }
}

/// No container is found in a listing in which no line is a name, a tab and an
/// image that holds the hint, both in lower case.
pub proof fn law_no_container_without_the_hint(listing: Seq<char>, hint: Seq<char>)
    requires
        forall|j: int, n: Seq<char>, m: Seq<char>, a: Seq<char>, b: Seq<char>|
            0 <= j < lines_of(listing).len() && #[trigger] lines_of(listing)[j] == #[trigger] (n
                + seq!['\t'] + m) && !n.contains('\t') ==> lowercase_of(m) != #[trigger] (a
                + lowercase_of(hint) + b),
    ensures
        container_for(listing, hint) is None,
{
    let list = lines_of(listing);
    let rows = rows_in(list);
    let h = lowercase_of(hint);
    law_found_container_has_the_hint(rows, hint);
    assert forall|j: int, a: Seq<char>, b: Seq<char>| 0 <= j < rows.len() implies lowercase_of(
        (#[trigger] rows[j]).1,
    ) != #[trigger] (a + h + b) by {
        let g = lemma_row_is_a_line(list, j);
        assert(lines_of(listing)[g] == rows[j].0 + seq!['\t'] + rows[j].1);
    }
}

// The steps of a run.

/// A run starts by listing the containers for the first role; without roles it is
/// over and has found nothing.
pub proof fn law_discovery_starts_with_a_listing(services: Seq<RoleView>, now: Seq<char>)
    ensures
        services.len() == 0 ==> first_step(services, now) == DiscoveryStepView::Done(seq![]),
        services.len() > 0 ==> first_step(services, now) == DiscoveryStepView::Run(
            DiscoveryView { services, next: 0, probing: None, found: seq![], now },
            CommandView {
                program: "docker"@,
                args: seq!["ps"@, "--format"@, "{{.Names}}\t{{.Image}}"@],
                input: None,
            },
        ),
{
}

/// How a run goes on once a role is settled: with a listing for the next role, or
/// to its end after the last one.
pub open spec fn goes_on(
    step: DiscoveryStepView,
    d: DiscoveryView,
    found: Seq<ServiceView>,
) -> bool {
    if d.next + 1 < d.services.len() {
        step == DiscoveryStepView::Run(
            DiscoveryView {
                services: d.services,
                next: d.next + 1,
                probing: None,
                found,
                now: d.now,
            },
            CommandView {
                program: "docker"@,
                args: seq!["ps"@, "--format"@, "{{.Names}}\t{{.Image}}"@],
                input: None,
            },
        )
    } else {
        step == DiscoveryStepView::Done(found)
    }
}

/// After a listing, the role is passed over where no container fits its hint or
/// nothing was listed; otherwise the first of its candidate paths is tried in that
/// container. A role without candidates is recorded without a path.
pub proof fn law_discovery_goes_by_the_listing(d: DiscoveryView, outcome: OutcomeView)
    requires
        0 <= d.next < d.services.len(),
        d.probing is None,
    ensures
        ({
            let role = d.services[d.next];
            let container = match outcome {
                OutcomeView::Exited { stdout, .. } => container_for(
                    lossy_text(stdout),
                    role.image_hint,
                ),
                _ => None,
            };
            match container {
                None => goes_on(d.step(outcome), d, d.found),
                Some(c) => if role.config_candidates.len() == 0 {
                    goes_on(
                        d.step(outcome),
                        d,
                        d.found.push(
                            ServiceView {
                                role: role.role,
                                container_name: c,
                                config_path: None,
                                reload_command: role.reload_command,
                                last_confirmed: d.now,
                            },
                        ),
                    )
                } else {
                    d.step(outcome) == DiscoveryStepView::Run(
                        DiscoveryView {
                            services: d.services,
                            next: d.next,
                            probing: Some((c, 0)),
                            found: d.found,
                            now: d.now,
                        },
                        CommandView {
                            program: "docker"@,
                            args: seq!["exec"@, c, "test"@, "-f"@, role.config_candidates[0]],
                            input: None,
                        },
                    )
                },
            }
        }),
{
}

/// After a try of a candidate path, the role is recorded with that path where the
/// try succeeded; otherwise the next candidate is tried, and after the last one
/// the role is recorded without a path.
pub proof fn law_discovery_goes_by_the_tries(
    d: DiscoveryView,
    outcome: OutcomeView,
    container: Seq<char>,
    k: int,
)
    requires
        0 <= d.next < d.services.len(),
        0 <= k < d.services[d.next].config_candidates.len(),
        d.probing == Some((container, k)),
    ensures
        ({
            let role = d.services[d.next];
            let is_file = outcome matches OutcomeView::Exited { success, .. } && success;
            if is_file {
                goes_on(
                    d.step(outcome),
                    d,
                    d.found.push(
                        ServiceView {
                            role: role.role,
                            container_name: container,
                            config_path: Some(role.config_candidates[k]),
                            reload_command: role.reload_command,
                            last_confirmed: d.now,
                        },
                    ),
                )
            } else if k + 1 == role.config_candidates.len() {
                goes_on(
                    d.step(outcome),
                    d,
                    d.found.push(
                        ServiceView {
                            role: role.role,
                            container_name: container,
                            config_path: None,
                            reload_command: role.reload_command,
                            last_confirmed: d.now,
                        },
                    ),
                )
            } else {
                d.step(outcome) == DiscoveryStepView::Run(
                    DiscoveryView {
                        services: d.services,
                        next: d.next,
                        probing: Some((container, k + 1)),
                        found: d.found,
                        now: d.now,
                    },
                    CommandView {
                        program: "docker"@,
                        args: seq![
                            "exec"@,
                            container,
                            "test"@,
                            "-f"@,
                            role.config_candidates[k + 1],
                        ],
                        input: None,
                    },
                )
            }
        }),
{
}

/// A run waits exactly while it has a role to look for and, where a container was
/// found for it, a candidate to try. It then waits for a listing of the containers,
/// or for the try of that candidate in that container.
pub proof fn law_what_a_run_waits_for(d: DiscoveryView)
    ensures
        d.waiting() <==> 0 <= d.next < d.services.len() && (d.probing matches Some(
            (_, k),
        ) ==> 0 <= k && k < d.services[d.next].config_candidates.len()),
        d.probing is None ==> d.wanted() == (CommandView {
            program: "docker"@,
            args: seq!["ps"@, "--format"@, "{{.Names}}\t{{.Image}}"@],
            input: None,
        }),
        d.probing matches Some((container, k)) ==> d.wanted() == (CommandView {
            program: "docker"@,
            args: seq![
                "exec"@,
                container,
                "test"@,
                "-f"@,
                d.services[d.next].config_candidates[k],
            ],
            input: None,
        }),
{
}

} // verus!
