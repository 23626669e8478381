//! What the file of the memory holds, member by member.

use vstd::prelude::*;
use crate::discovery::ServiceView;
use crate::json::{JsonView, lookup};
use crate::memory::{MemoryView, NoteView};
use crate::memory_file::{loaded, memory_form, memory_keys, note_keys, notes_form, read_note,
    read_service, record, repeated, service_keys, services_form, strings_form};

verus! {

/// The memory is saved with every service and every note, in order and with all
/// that is known of it.
pub proof fn law_memory_is_saved_whole(m: MemoryView)
    ensures
        memory_form(m) == JsonView::Object(
            seq![
                (
                    "discovered_services"@,
                    JsonView::Array(
                        Seq::new(
                            m.services.len(),
                            |i: int|
                                JsonView::Object(
                                    seq![
                                        ("role"@, JsonView::String(m.services[i].role)),
                                        (
                                            "container_name"@,
                                            JsonView::String(m.services[i].container_name),
                                        ),
                                        (
                                            "config_path"@,
                                            match m.services[i].config_path {
                                                Some(path) => JsonView::String(path),
                                                None => JsonView::Null,
                                            },
                                        ),
                                        (
                                            "reload_command"@,
                                            JsonView::Array(
                                                Seq::new(
                                                    m.services[i].reload_command.len(),
                                                    |k: int|
                                                        JsonView::String(
                                                            m.services[i].reload_command[k],
                                                        ),
                                                ),
                                            ),
                                        ),
                                        (
                                            "last_confirmed"@,
                                            JsonView::String(m.services[i].last_confirmed),
                                        ),
                                    ],
                                ),
                        ),
                    ),
                ),
                (
                    "learned_notes"@,
                    JsonView::Array(
                        Seq::new(
                            m.notes.len(),
                            |i: int|
                                JsonView::Object(
                                    seq![
                                        ("note"@, JsonView::String(m.notes[i].note)),
                                        ("source"@, JsonView::String(m.notes[i].source)),
                                        ("added"@, JsonView::String(m.notes[i].added)),
                                    ],
                                ),
                        ),
                    ),
                ),
            ],
        ),
{
    let services = Seq::new(
        m.services.len(),
        |i: int|
            JsonView::Object(
                seq![
                    ("role"@, JsonView::String(m.services[i].role)),
                    ("container_name"@, JsonView::String(m.services[i].container_name)),
                    (
                        "config_path"@,
                        match m.services[i].config_path {
                            Some(path) => JsonView::String(path),
                            None => JsonView::Null,
                        },
                    ),
                    (
                        "reload_command"@,
                        JsonView::Array(
                            Seq::new(
                                m.services[i].reload_command.len(),
                                |k: int| JsonView::String(m.services[i].reload_command[k]),
                            ),
                        ),
                    ),
                    ("last_confirmed"@, JsonView::String(m.services[i].last_confirmed)),
                ],
            ),
    );
    let notes = Seq::new(
        m.notes.len(),
        |i: int|
            JsonView::Object(
                seq![
                    ("note"@, JsonView::String(m.notes[i].note)),
                    ("source"@, JsonView::String(m.notes[i].source)),
                    ("added"@, JsonView::String(m.notes[i].added)),
                ],
            ),
    );
    assert forall|i: int| 0 <= i < services.len() implies #[trigger] services[i] == services_form(
        m.services,
    )->Array_0[i] by {
        let one = services_form(m.services)->Array_0[i];
        assert(strings_form(m.services[i].reload_command)->Array_0
            =~= services[i]->Object_0[3].1->Array_0);
        assert(one->Object_0 =~= services[i]->Object_0);
    }
    assert(services_form(m.services)->Array_0 =~= services);
    assert forall|i: int| 0 <= i < notes.len() implies #[trigger] notes[i] == notes_form(
        m.notes,
    )->Array_0[i] by {
        let one = notes_form(m.notes)->Array_0[i];
        assert(one->Object_0 =~= notes[i]->Object_0);
    }
    assert(notes_form(m.notes)->Array_0 =~= notes);
}

/// Whether the members of an object give each of the keys at most once.
pub open spec fn given_once(ms: Seq<(Seq<char>, JsonView)>, key: Seq<char>) -> bool {
    forall|i: int, j: int|
        0 <= i < j < ms.len() ==> (#[trigger] ms[i]).0 != key || (#[trigger] ms[j]).0 != key
}

/// The texts of a list of strings.
pub open spec fn strings_of(value: JsonView) -> Option<Seq<Seq<char>>> {
    match value {
        JsonView::Array(xs) => if forall|i: int| 0 <= i < xs.len() ==> (#[trigger] xs[i]) is String {
            Some(Seq::new(xs.len(), |i: int| xs[i]->String_0))
        } else {
            None
        },
        _ => None,
    }
}

/// A service is read from an object exactly where each of its five members is
/// given at most once, the role, the container and the time are strings, the
/// command is a list of strings, and the path is a string, null or left out. It is
/// read with all of them as they are; what else the object holds does not matter.
pub proof fn law_service_is_read_by_its_members(ms: Seq<(Seq<char>, JsonView)>)
    ensures
        ({
            let once = given_once(ms, "role"@) && given_once(ms, "container_name"@) && given_once(
                ms,
                "config_path"@,
            ) && given_once(ms, "reload_command"@) && given_once(ms, "last_confirmed"@);
            let path = match lookup(ms, "config_path"@) {
                None => Some(None),
                Some(JsonView::Null) => Some(None),
                Some(JsonView::String(p)) => Some(Some(p)),
                Some(_) => None,
            };
            let command = match lookup(ms, "reload_command"@) {
                Some(list) => strings_of(list),
                None => None,
            };
            read_service(JsonView::Object(ms)) == match (
                lookup(ms, "role"@),
                lookup(ms, "container_name"@),
                lookup(ms, "last_confirmed"@),
                path,
                command,
            ) {
                (
                    Some(JsonView::String(role)),
                    Some(JsonView::String(container_name)),
                    Some(JsonView::String(last_confirmed)),
                    Some(config_path),
                    Some(reload_command),
                ) => if once {
                    Some(
                        ServiceView {
                            role,
                            container_name,
                            config_path,
                            reload_command,
                            last_confirmed,
                        },
                    )
                } else {
                    None
                },
                _ => None,
            }
        }),
{
    lemma_once(ms, service_keys());
    let keys = service_keys();
    assert(keys[0] == "role"@ && keys[1] == "container_name"@ && keys[2] == "config_path"@);
    assert(keys[3] == "reload_command"@ && keys[4] == "last_confirmed"@);
}

proof fn lemma_once(ms: Seq<(Seq<char>, JsonView)>, keys: Seq<Seq<char>>)
    ensures
        record(JsonView::Object(ms), keys) is None <==> exists|k: int|
            0 <= k < keys.len() && !given_once(ms, #[trigger] keys[k]),
        record(JsonView::Object(ms), keys) matches Some(fields) ==> fields.len() == keys.len()
            && forall|k: int| 0 <= k < keys.len() ==> #[trigger] fields[k] == lookup(ms, keys[k]),
{
    assert forall|key: Seq<char>| #[trigger] repeated(ms, key) == !given_once(ms, key) by {
        if repeated(ms, key) {
            let (i, j) = choose|i: int, j: int|
                0 <= i < j < ms.len() && (#[trigger] ms[i]).0 == key && (#[trigger] ms[j]).0 == key;
            assert(ms[i].0 == key && ms[j].0 == key);
        }
    }
    if exists|k: int| 0 <= k < keys.len() && !given_once(ms, #[trigger] keys[k]) {
        let k = choose|k: int| 0 <= k < keys.len() && !given_once(ms, #[trigger] keys[k]);
        assert(repeated(ms, keys[k]));
    }
}

/// A note is read from an object exactly where each of its three members is given
/// once and is a string.
pub proof fn law_note_is_read_by_its_members(ms: Seq<(Seq<char>, JsonView)>)
    ensures
        read_note(JsonView::Object(ms)) == match (
            lookup(ms, "note"@),
            lookup(ms, "source"@),
            lookup(ms, "added"@),
        ) {
            (
                Some(JsonView::String(note)),
                Some(JsonView::String(source)),
                Some(JsonView::String(added)),
            ) => if given_once(ms, "note"@) && given_once(ms, "source"@) && given_once(
                ms,
                "added"@,
            ) {
                Some(NoteView { note, source, added })
            } else {
                None
            },
            _ => None,
        },
{
    lemma_once(ms, note_keys());
    let keys = note_keys();
    assert(keys[0] == "note"@ && keys[1] == "source"@ && keys[2] == "added"@);
}

/// Services and notes are also read from lists with one value for each member, in
/// order.
pub proof fn law_lists_of_values_are_read(
    role: Seq<char>,
    container_name: Seq<char>,
    path: Option<Seq<char>>,
    command: Seq<Seq<char>>,
    last_confirmed: Seq<char>,
    note: Seq<char>,
    source: Seq<char>,
    added: Seq<char>,
)
    ensures
        read_service(
            JsonView::Array(
                seq![
                    JsonView::String(role),
                    JsonView::String(container_name),
                    match path {
                        Some(p) => JsonView::String(p),
                        None => JsonView::Null,
                    },
                    JsonView::Array(
                        Seq::new(command.len(), |k: int| JsonView::String(command[k])),
                    ),
                    JsonView::String(last_confirmed),
                ],
            ),
        ) == Some(
            ServiceView {
                role,
                container_name,
                config_path: path,
                reload_command: command,
                last_confirmed,
            },
        ),
        read_note(
            JsonView::Array(
                seq![JsonView::String(note), JsonView::String(source), JsonView::String(added)],
            ),
        ) == Some(NoteView { note, source, added }),
{
    let xs = Seq::new(command.len(), |k: int| JsonView::String(command[k]));
    assert(Seq::new(xs.len(), |i: int| xs[i]->String_0) =~= command);
}

/// The memory is read exactly where both of its lists are there once and each of
/// their elements can be read; it then holds every element, in order. Otherwise,
/// and where there is no file, the agent starts with nothing.
pub proof fn law_memory_is_read_whole_or_not_at_all(ms: Seq<(Seq<char>, JsonView)>)
    ensures
        ({
            let services = lookup(ms, "discovered_services"@);
            let notes = lookup(ms, "learned_notes"@);
            let readable = {
                &&& given_once(ms, "discovered_services"@)
                &&& given_once(ms, "learned_notes"@)
                &&& services matches Some(JsonView::Array(xs)) && forall|i: int|
                    0 <= i < xs.len() ==> read_service(#[trigger] xs[i]) is Some
                &&& notes matches Some(JsonView::Array(ys)) && forall|i: int|
                    0 <= i < ys.len() ==> read_note(#[trigger] ys[i]) is Some
            };
            let m = loaded(Some(JsonView::Object(ms)));
            &&& !readable ==> m == (MemoryView { services: Seq::empty(), notes: Seq::empty() })
            &&& readable ==> m.services.len() == services->0->Array_0.len() && (forall|i: int|
                0 <= i < m.services.len() ==> Some(#[trigger] m.services[i]) == read_service(
                    services->0->Array_0[i],
                )) && m.notes.len() == notes->0->Array_0.len() && (forall|i: int|
                0 <= i < m.notes.len() ==> Some(#[trigger] m.notes[i]) == read_note(
                    notes->0->Array_0[i],
                ))
        }),
        loaded(None) == (MemoryView { services: Seq::empty(), notes: Seq::empty() }),
{
    lemma_once(ms, memory_keys());
    let keys = memory_keys();
    assert(keys[0] == "discovered_services"@ && keys[1] == "learned_notes"@);
}

/// A list stands for a service, a note or the memory exactly where it has one value
/// for each of the members, in their order, and each of them can be read.
pub proof fn law_lists_stand_for_their_members(xs: Seq<JsonView>)
    ensures
        read_service(JsonView::Array(xs)) == if xs.len() == 5 {
            let path = match xs[2] {
                JsonView::Null => Some(None),
                JsonView::String(p) => Some(Some(p)),
                _ => None,
            };
            match (xs[0], xs[1], path, strings_of(xs[3]), xs[4]) {
                (
                    JsonView::String(role),
                    JsonView::String(container_name),
                    Some(config_path),
                    Some(reload_command),
                    JsonView::String(last_confirmed),
                ) => Some(
                    ServiceView {
                        role,
                        container_name,
                        config_path,
                        reload_command,
                        last_confirmed,
                    },
                ),
                _ => None,
            }
        } else {
            None
        },
        read_note(JsonView::Array(xs)) == if xs.len() == 3 {
            match (xs[0], xs[1], xs[2]) {
                (JsonView::String(note), JsonView::String(source), JsonView::String(added)) => Some(
                    NoteView { note, source, added },
                ),
                _ => None,
            }
        } else {
            None
        },
        xs.len() != 2 ==> loaded(Some(JsonView::Array(xs))) == (MemoryView {
            services: Seq::empty(),
            notes: Seq::empty(),
        }),
        xs.len() == 2 ==> {
            let m = loaded(Some(JsonView::Array(xs)));
            let readable = {
                &&& xs[0] matches JsonView::Array(services) && forall|i: int|
                    0 <= i < services.len() ==> read_service(#[trigger] services[i]) is Some
                &&& xs[1] matches JsonView::Array(notes) && forall|i: int|
                    0 <= i < notes.len() ==> read_note(#[trigger] notes[i]) is Some
            };
            &&& !readable ==> m == (MemoryView { services: Seq::empty(), notes: Seq::empty() })
            &&& readable ==> m.services.len() == xs[0]->Array_0.len() && (forall|i: int|
                0 <= i < m.services.len() ==> Some(#[trigger] m.services[i]) == read_service(
                    xs[0]->Array_0[i],
                )) && m.notes.len() == xs[1]->Array_0.len() && (forall|i: int|
                0 <= i < m.notes.len() ==> Some(#[trigger] m.notes[i]) == read_note(
                    xs[1]->Array_0[i],
                ))
        },
{
    if xs.len() == 5 {
        let fields = record(JsonView::Array(xs), service_keys())->0;
        assert(fields[0] == Some(xs[0]) && fields[1] == Some(xs[1]) && fields[2] == Some(xs[2]));
        assert(fields[3] == Some(xs[3]) && fields[4] == Some(xs[4]));
    }
    if xs.len() == 3 {
        let fields = record(JsonView::Array(xs), note_keys())->0;
        assert(fields[0] == Some(xs[0]) && fields[1] == Some(xs[1]) && fields[2] == Some(xs[2]));
    }
    if xs.len() == 2 {
        let fields = record(JsonView::Array(xs), memory_keys())->0;
        assert(fields[0] == Some(xs[0]) && fields[1] == Some(xs[1]));
    }
}

/// A value that is neither an object nor a list is no service, no note and no
/// memory.
pub proof fn law_other_values_are_not_read(value: JsonView)
    requires
        !(value is Object),
        !(value is Array),
    ensures
        read_service(value) is None,
        read_note(value) is None,
        loaded(Some(value)) == (MemoryView { services: Seq::empty(), notes: Seq::empty() }),
{
}

} // verus!
