//! The form in which the memory is kept on disk, and reading it back.

use vstd::prelude::*;
use crate::command::slices;
use crate::discovery::{DiscoveredService, ServiceView, services_view};
use crate::json::{Json, JsonView, Member, array, find_member, lemma_array_view, lemma_lookup_at,
    lemma_object_view, lookup, member, members_view, object, string, values_view};
use crate::memory::{LearnedNote, Memory, MemoryView, NoteView, empty_memory, notes_view};
use crate::text::{same_text, text_of, texts};

verus! {

// The form.

/// A list of strings as JSON.
pub open spec fn strings_form(list: Seq<Seq<char>>) -> JsonView {
    JsonView::Array(Seq::new(list.len(), |i: int| JsonView::String(list[i])))
}

/// An optional path as JSON.
pub open spec fn path_form(path: Option<Seq<char>>) -> JsonView {
    match path {
        Some(p) => JsonView::String(p),
        None => JsonView::Null,
    }
}

/// The members of a service on disk.
pub open spec fn service_members(s: ServiceView) -> Seq<(Seq<char>, JsonView)> {
    seq![
        ("role"@, JsonView::String(s.role)),
        ("container_name"@, JsonView::String(s.container_name)),
        ("config_path"@, path_form(s.config_path)),
        ("reload_command"@, strings_form(s.reload_command)),
        ("last_confirmed"@, JsonView::String(s.last_confirmed)),
    ]
}

/// The members of a note on disk.
pub open spec fn note_members(n: NoteView) -> Seq<(Seq<char>, JsonView)> {
    seq![
        ("note"@, JsonView::String(n.note)),
        ("source"@, JsonView::String(n.source)),
        ("added"@, JsonView::String(n.added)),
    ]
}

/// Services on disk.
pub open spec fn services_form(services: Seq<ServiceView>) -> JsonView {
    JsonView::Array(
        Seq::new(services.len(), |i: int| JsonView::Object(service_members(services[i]))),
    )
}

/// Notes on disk.
pub open spec fn notes_form(notes: Seq<NoteView>) -> JsonView {
    JsonView::Array(Seq::new(notes.len(), |i: int| JsonView::Object(note_members(notes[i]))))
}

/// The memory on disk.
pub open spec fn memory_form(m: MemoryView) -> JsonView {
    JsonView::Object(
        seq![
            ("discovered_services"@, services_form(m.services)),
            ("learned_notes"@, notes_form(m.notes)),
        ],
    )
}

fn strings_json(list: &Vec<String>) -> (r: Json)
    ensures
        r@ == strings_form(texts(list@)),
{
    let mut out: Vec<Json> = Vec::new();
    let n: usize = list.len();
    let mut i: usize = 0;
    while i < n
        invariant
            n == list@.len(),
            i <= n,
            out@.len() == i,
            forall|k: int| 0 <= k < i ==> (#[trigger] out@[k])@ == JsonView::String(list@[k]@),
        decreases n - i,
    {
        out.push(string(list[i].as_str()));
        i = i + 1;
    }
    proof {
        assert(values_view(out@) =~= strings_form(texts(list@))->Array_0);
    }
    array(out)
}

fn service_json(s: &DiscoveredService) -> (r: Json)
    ensures
        r@ == JsonView::Object(service_members(s@)),
{
    let path: Json = match &s.config_path {
        Some(p) => string(p.as_str()),
        None => Json::Null,
    };
    let ms: Vec<Member> = vec![
        member("role", string(s.role.as_str())),
        member("container_name", string(s.container_name.as_str())),
        member("config_path", path),
        member("reload_command", strings_json(&s.reload_command)),
        member("last_confirmed", string(s.last_confirmed.as_str())),
    ];
    proof {
        assert(members_view(ms@) =~= service_members(s@));
    }
    object(ms)
}

fn note_json(n: &LearnedNote) -> (r: Json)
    ensures
        r@ == JsonView::Object(note_members(n@)),
{
    let ms: Vec<Member> = vec![
        member("note", string(n.note.as_str())),
        member("source", string(n.source.as_str())),
        member("added", string(n.added.as_str())),
    ];
    proof {
        assert(members_view(ms@) =~= note_members(n@));
    }
    object(ms)
}

/// The memory as it is kept on disk.
pub fn save(mem: &Memory) -> (r: Json)
    ensures
        r@ == memory_form(mem@),
{
    let mut services: Vec<Json> = Vec::new();
    let n: usize = mem.discovered_services.len();
    let mut i: usize = 0;
    while i < n
        invariant
            n == mem.discovered_services@.len(),
            i <= n,
            services@.len() == i,
            forall|k: int|
                0 <= k < i ==> (#[trigger] services@[k])@ == JsonView::Object(
                    service_members(mem.discovered_services@[k]@),
                ),
        decreases n - i,
    {
        services.push(service_json(&mem.discovered_services[i]));
        i = i + 1;
    }
    let mut notes: Vec<Json> = Vec::new();
    let m: usize = mem.learned_notes.len();
    let mut j: usize = 0;
    while j < m
        invariant
            m == mem.learned_notes@.len(),
            j <= m,
            notes@.len() == j,
            forall|k: int|
                0 <= k < j ==> (#[trigger] notes@[k])@ == JsonView::Object(
                    note_members(mem.learned_notes@[k]@),
                ),
        decreases m - j,
    {
        notes.push(note_json(&mem.learned_notes[j]));
        j = j + 1;
    }
    proof {
        assert(values_view(services@) =~= services_form(mem@.services)->Array_0);
        assert(values_view(notes@) =~= notes_form(mem@.notes)->Array_0);
    }
    let ms: Vec<Member> = vec![
        member("discovered_services", array(services)),
        member("learned_notes", array(notes)),
    ];
    proof {
        assert(members_view(ms@) =~= memory_form(mem@)->Object_0);
    }
    object(ms)
}

// Reading it.

/// A list of strings, where the value is one.
pub open spec fn read_strings(value: Option<JsonView>) -> Option<Seq<Seq<char>>> {
    match value {
        Some(JsonView::Array(xs)) => if forall|i: int|
            0 <= i < xs.len() ==> (#[trigger] xs[i]) is String {
            Some(Seq::new(xs.len(), |i: int| xs[i]->String_0))
        } else {
            None
        },
        _ => None,
    }
}

/// An optional path: nothing or null stands for none.
pub open spec fn read_path(value: Option<JsonView>) -> Option<Option<Seq<char>>> {
    match value {
        None => Some(None),
        Some(JsonView::Null) => Some(None),
        Some(JsonView::String(p)) => Some(Some(p)),
        _ => None,
    }
}

/// Whether a key occurs more than once.
pub open spec fn repeated(ms: Seq<(Seq<char>, JsonView)>, key: Seq<char>) -> bool {
    exists|i: int, j: int|
        0 <= i < j < ms.len() && (#[trigger] ms[i]).0 == key && (#[trigger] ms[j]).0 == key
}

/// The values of the given fields. A record is an object, in which a field may be
/// missing but not occur twice and other members do not matter, or an array with
/// the value of each field in turn.
pub open spec fn record(value: JsonView, keys: Seq<Seq<char>>) -> Option<Seq<Option<JsonView>>> {
    match value {
        JsonView::Object(ms) => if exists|k: int|
            0 <= k < keys.len() && repeated(ms, #[trigger] keys[k]) {
            None
        } else {
            Some(Seq::new(keys.len(), |k: int| lookup(ms, keys[k])))
        },
        JsonView::Array(xs) => if xs.len() == keys.len() {
            Some(Seq::new(keys.len(), |k: int| Some(xs[k])))
        } else {
            None
        },
        _ => None,
    }
}

/// A text, where the value is one.
pub open spec fn read_text(value: Option<JsonView>) -> Option<Seq<char>> {
    match value {
        Some(JsonView::String(s)) => Some(s),
        _ => None,
    }
}

/// The fields of a service.
pub open spec fn service_keys() -> Seq<Seq<char>> {
    seq!["role"@, "container_name"@, "config_path"@, "reload_command"@, "last_confirmed"@]
}

/// The fields of a note.
pub open spec fn note_keys() -> Seq<Seq<char>> {
    seq!["note"@, "source"@, "added"@]
}

/// The fields of a memory.
pub open spec fn memory_keys() -> Seq<Seq<char>> {
    seq!["discovered_services"@, "learned_notes"@]
}

/// A service, where the value is one.
pub open spec fn read_service(value: JsonView) -> Option<ServiceView> {
    match record(value, service_keys()) {
        Some(fields) => match (
            read_text(fields[0]),
            read_text(fields[1]),
            read_path(fields[2]),
            read_strings(fields[3]),
            read_text(fields[4]),
        ) {
            (
                Some(role),
                Some(container_name),
                Some(config_path),
                Some(reload_command),
                Some(last_confirmed),
            ) => Some(
                ServiceView { role, container_name, config_path, reload_command, last_confirmed },
            ),
            _ => None,
        },
        None => None,
    }
}

/// A note, where the value is one.
pub open spec fn read_note(value: JsonView) -> Option<NoteView> {
    match record(value, note_keys()) {
        Some(fields) => match (read_text(fields[0]), read_text(fields[1]), read_text(fields[2])) {
            (Some(note), Some(source), Some(added)) => Some(NoteView { note, source, added }),
            _ => None,
        },
        None => None,
    }
}

/// A list of services, where the value is one.
pub open spec fn read_services(value: Option<JsonView>) -> Option<Seq<ServiceView>> {
    match value {
        Some(JsonView::Array(xs)) => if forall|i: int|
            0 <= i < xs.len() ==> read_service(#[trigger] xs[i]) is Some {
            Some(Seq::new(xs.len(), |i: int| read_service(xs[i])->0))
        } else {
            None
        },
        _ => None,
    }
}

/// A list of notes, where the value is one.
pub open spec fn read_notes(value: Option<JsonView>) -> Option<Seq<NoteView>> {
    match value {
        Some(JsonView::Array(xs)) => if forall|i: int|
            0 <= i < xs.len() ==> read_note(#[trigger] xs[i]) is Some {
            Some(Seq::new(xs.len(), |i: int| read_note(xs[i])->0))
        } else {
            None
        },
        _ => None,
    }
}

/// A memory, where the value is one.
pub open spec fn read_memory(value: JsonView) -> Option<MemoryView> {
    match record(value, memory_keys()) {
        Some(fields) => match (read_services(fields[0]), read_notes(fields[1])) {
            (Some(services), Some(notes)) => Some(MemoryView { services, notes }),
            _ => None,
        },
        None => None,
    }
}

fn is_repeated(ms: &Vec<Member>, key: &str) -> (r: bool)
    ensures
        r == repeated(members_view(ms@), key@),
{
    let n: usize = ms.len();
    let mut seen: bool = false;
    let mut i: usize = 0;
    let ghost views = members_view(ms@);
    let ghost mut at: int = 0;
    while i < n
        invariant
            n == ms@.len(),
            views == members_view(ms@),
            i <= n,
            seen ==> 0 <= at < i && views[at].0 == key@,
            forall|k: int|
                0 <= k < i && !(seen && k == at) ==> (#[trigger] views[k]).0 != key@,
        decreases n - i,
    {
        proof {
            assert(views[i as int].0 == ms@[i as int].key@);
        }
        if same_text(ms[i].key.as_str(), key) {
            if seen {
                proof {
                    assert(views[at].0 == key@ && views[i as int].0 == key@);
                }
                return true;
            }
            seen = true;
            proof {
                at = i as int;
            }
        }
        i = i + 1;
    }
    false
}

/// The views of values that may be there.
pub open spec fn fields_view(fields: Seq<Option<&Json>>) -> Seq<Option<JsonView>> {
    Seq::new(fields.len(), |i: int| borrowed(fields[i]))
}

fn take_fields<'a>(value: &'a Json, keys: &Vec<&str>) -> (r: Option<Vec<Option<&'a Json>>>)
    ensures
        match r {
            Some(fields) => fields@.len() == keys@.len() && record(value@, slices(keys@)) == Some(
                fields_view(fields@),
            ),
            None => record(value@, slices(keys@)) is None,
        },
{
    let n: usize = keys.len();
    let mut out: Vec<Option<&'a Json>> = Vec::new();
    let mut i: usize = 0;
    let ghost names = slices(keys@);
    proof {
        lemma_array_view(*value);
        lemma_object_view(*value);
    }
    match value {
        Json::Object(ms) => {
            let ghost views = members_view(ms@);
            while i < n
                invariant
                    n == keys@.len(),
                    names == slices(keys@),
                    views == members_view(ms@),
                    value@ == JsonView::Object(views),
                    i <= n,
                    out@.len() == i,
                    forall|k: int| 0 <= k < i ==> !repeated(views, #[trigger] names[k]),
                    forall|k: int|
                        0 <= k < i ==> borrowed(#[trigger] out@[k]) == lookup(views, names[k]),
                decreases n - i,
            {
                proof {
                    assert(names[i as int] == keys@[i as int]@);
                }
                if is_repeated(ms, keys[i]) {
                    return None;
                }
                out.push(find_member(ms, keys[i]));
                i = i + 1;
            }
            proof {
                assert(fields_view(out@) =~= Seq::new(
                    names.len(),
                    |k: int| lookup(views, names[k]),
                ));
            }
            Some(out)
        },
        Json::Array(xs) => {
            if xs.len() != n {
                return None;
            }
            let ghost views = values_view(xs@);
            while i < n
                invariant
                    n == xs@.len(),
                    views == values_view(xs@),
                    i <= n,
                    out@.len() == i,
                    forall|k: int| 0 <= k < i ==> borrowed(#[trigger] out@[k]) == Some(views[k]),
                decreases n - i,
            {
                out.push(Some(&xs[i]));
                i = i + 1;
            }
            proof {
                assert(fields_view(out@) =~= Seq::new(names.len(), |k: int| Some(views[k])));
            }
            Some(out)
        },
        _ => None,
    }
}

fn take_text(value: Option<&Json>) -> (r: Option<String>)
    ensures
        text_of(r) == read_text(borrowed(value)),
{
    match value {
        Some(v) => match v {
            Json::String(s) => Some(s.clone()),
            _ => None,
        },
        None => None,
    }
}

fn take_strings(value: Option<&Json>) -> (r: Option<Vec<String>>)
    ensures
        match r {
            Some(list) => read_strings(borrowed(value)) == Some(texts(list@)),
            None => read_strings(borrowed(value)) is None,
        },
{
    match value {
        Some(v) => {
            proof {
                lemma_array_view(*v);
            }
            match v {
                Json::Array(xs) => {
                    let mut out: Vec<String> = Vec::new();
                    let n: usize = xs.len();
                    let mut i: usize = 0;
                    let ghost views = values_view(xs@);
                    while i < n
                        invariant
                            n == xs@.len(),
                            views == values_view(xs@),
                            borrowed(value) == Some(JsonView::Array(views)),
                            i <= n,
                            out@.len() == i,
                            forall|k: int|
                                0 <= k < i ==> (#[trigger] views[k]) is String && out@[k]@
                                    == views[k]->String_0,
                        decreases n - i,
                    {
                        proof {
                            assert(views[i as int] == xs@[i as int]@);
                        }
                        match &xs[i] {
                            Json::String(s) => {
                                out.push(s.clone());
                            },
                            _ => {
                                proof {
                                    assert(!(views[i as int] is String));
                                }
                                return None;
                            },
                        }
                        i = i + 1;
                    }
                    proof {
                        assert(texts(out@) =~= Seq::new(
                            views.len(),
                            |i: int| views[i]->String_0,
                        ));
                    }
                    Some(out)
                },
                _ => None,
            }
        },
        None => None,
    }
}

/// The view of a value that may be there.
pub open spec fn borrowed(value: Option<&Json>) -> Option<JsonView> {
    match value {
        Some(v) => Some(v@),
        None => None,
    }
}

fn take_path(value: Option<&Json>) -> (r: Option<Option<String>>)
    ensures
        match r {
            Some(path) => read_path(borrowed(value)) == Some(text_of(path)),
            None => read_path(borrowed(value)) is None,
        },
{
    match value {
        None => Some(None),
        Some(v) => match v {
            Json::Null => Some(None),
            Json::String(p) => Some(Some(p.clone())),
            _ => None,
        },
    }
}

fn take_service(value: &Json) -> (r: Option<DiscoveredService>)
    ensures
        match r {
            Some(s) => read_service(value@) == Some(s@),
            None => read_service(value@) is None,
        },
{
    let keys: Vec<&str> = vec![
        "role",
        "container_name",
        "config_path",
        "reload_command",
        "last_confirmed",
    ];
    proof {
        assert(slices(keys@) =~= service_keys());
    }
    match take_fields(value, &keys) {
        Some(fields) => match (
            take_text(fields[0]),
            take_text(fields[1]),
            take_path(fields[2]),
            take_strings(fields[3]),
            take_text(fields[4]),
        ) {
            (
                Some(role),
                Some(container_name),
                Some(config_path),
                Some(reload_command),
                Some(last_confirmed),
            ) => Some(
                DiscoveredService {
                    role,
                    container_name,
                    config_path,
                    reload_command,
                    last_confirmed,
                },
            ),
            _ => None,
        },
        None => None,
    }
}

fn take_note(value: &Json) -> (r: Option<LearnedNote>)
    ensures
        match r {
            Some(n) => read_note(value@) == Some(n@),
            None => read_note(value@) is None,
        },
{
    let keys: Vec<&str> = vec!["note", "source", "added"];
    proof {
        assert(slices(keys@) =~= note_keys());
    }
    match take_fields(value, &keys) {
        Some(fields) => match (take_text(fields[0]), take_text(fields[1]), take_text(fields[2])) {
            (Some(note), Some(source), Some(added)) => Some(LearnedNote { note, source, added }),
            _ => None,
        },
        None => None,
    }
}

fn take_services(value: Option<&Json>) -> (r: Option<Vec<DiscoveredService>>)
    ensures
        match r {
            Some(list) => read_services(borrowed(value)) == Some(services_view(list@)),
            None => read_services(borrowed(value)) is None,
        },
{
    match value {
        Some(v) => {
            proof {
                lemma_array_view(*v);
            }
            match v {
                Json::Array(xs) => {
                    let mut out: Vec<DiscoveredService> = Vec::new();
                    let n: usize = xs.len();
                    let mut i: usize = 0;
                    let ghost views = values_view(xs@);
                    while i < n
                        invariant
                            n == xs@.len(),
                            views == values_view(xs@),
                            borrowed(value) == Some(JsonView::Array(views)),
                            i <= n,
                            out@.len() == i,
                            forall|k: int|
                                0 <= k < i ==> read_service(#[trigger] views[k]) == Some(
                                    out@[k]@,
                                ),
                        decreases n - i,
                    {
                        proof {
                            assert(views[i as int] == xs@[i as int]@);
                        }
                        match take_service(&xs[i]) {
                            Some(s) => {
                                out.push(s);
                            },
                            None => {
                                return None;
                            },
                        }
                        i = i + 1;
                    }
                    proof {
                        assert(services_view(out@) =~= Seq::new(
                            views.len(),
                            |i: int| read_service(views[i])->0,
                        ));
                    }
                    Some(out)
                },
                _ => None,
            }
        },
        None => None,
    }
}

fn take_notes(value: Option<&Json>) -> (r: Option<Vec<LearnedNote>>)
    ensures
        match r {
            Some(list) => read_notes(borrowed(value)) == Some(notes_view(list@)),
            None => read_notes(borrowed(value)) is None,
        },
{
    match value {
        Some(v) => {
            proof {
                lemma_array_view(*v);
            }
            match v {
                Json::Array(xs) => {
                    let mut out: Vec<LearnedNote> = Vec::new();
                    let n: usize = xs.len();
                    let mut i: usize = 0;
                    let ghost views = values_view(xs@);
                    while i < n
                        invariant
                            n == xs@.len(),
                            views == values_view(xs@),
                            borrowed(value) == Some(JsonView::Array(views)),
                            i <= n,
                            out@.len() == i,
                            forall|k: int|
                                0 <= k < i ==> read_note(#[trigger] views[k]) == Some(out@[k]@),
                        decreases n - i,
                    {
                        proof {
                            assert(views[i as int] == xs@[i as int]@);
                        }
                        match take_note(&xs[i]) {
                            Some(note) => {
                                out.push(note);
                            },
                            None => {
                                return None;
                            },
                        }
                        i = i + 1;
                    }
                    proof {
                        assert(notes_view(out@) =~= Seq::new(
                            views.len(),
                            |i: int| read_note(views[i])->0,
                        ));
                    }
                    Some(out)
                },
                _ => None,
            }
        },
        None => None,
    }
}

/// The memory in a value, where it holds one.
pub fn decode_memory(value: &Json) -> (r: Option<Memory>)
    ensures
        match r {
            Some(m) => read_memory(value@) == Some(m@),
            None => read_memory(value@) is None,
        },
{
    let keys: Vec<&str> = vec!["discovered_services", "learned_notes"];
    proof {
        assert(slices(keys@) =~= memory_keys());
    }
    match take_fields(value, &keys) {
        Some(fields) => match (take_services(fields[0]), take_notes(fields[1])) {
            (Some(discovered_services), Some(learned_notes)) => Some(
                Memory { discovered_services, learned_notes },
            ),
            _ => None,
        },
        None => None,
    }
}

/// The memory to start with, given the JSON that was found on disk, if any.
pub open spec fn loaded(found: Option<JsonView>) -> MemoryView {
    match found {
        Some(value) => match read_memory(value) {
            Some(m) => m,
            None => empty_memory(),
        },
        None => empty_memory(),
    }
}

/// The JSON that was found on disk: none where there is no file or where it holds
/// no JSON.
pub open spec fn found_json(found: Option<Result<Json, String>>) -> Option<JsonView> {
    match found {
        Some(Ok(value)) => Some(value@),
        _ => None,
    }
}

/// The memory to start with, given what was found on disk: nothing (`None`), or a
/// file that could be read as JSON or not. Without a readable memory the agent
/// starts with an empty one.
pub fn load(found: Option<Result<Json, String>>) -> (r: Memory)
    ensures
        r@ == loaded(found_json(found)),
{
    match found {
        Some(Ok(value)) => match decode_memory(&value) {
            Some(m) => m,
            None => Memory::default(),
        },
        _ => Memory::default(),
    }
}

// What is kept comes back.

/// Whether an object has the given members, in whatever order and none twice.
pub open spec fn same_members(
    a: Seq<(Seq<char>, JsonView)>,
    b: Seq<(Seq<char>, JsonView)>,
) -> bool {
    &&& forall|key: Seq<char>| #[trigger] lookup(a, key) == lookup(b, key)
    &&& forall|key: Seq<char>| !#[trigger] repeated(a, key)
}

/// Whether a value is the list of objects with the given members, each in whatever
/// order.
pub open spec fn lists(value: Option<JsonView>, objects: JsonView) -> bool {
    &&& value is Some && value->0 is Array && objects is Array
    &&& value->0->Array_0.len() == objects->Array_0.len()
    &&& forall|i: int|
        0 <= i < objects->Array_0.len() ==> {
            &&& (#[trigger] value->0->Array_0[i]) is Object
            &&& objects->Array_0[i] is Object
            &&& same_members(value->0->Array_0[i]->Object_0, objects->Array_0[i]->Object_0)
        }
}

/// Whether a value is the form of a memory, up to the order of members.
pub open spec fn holds_memory(value: JsonView, m: MemoryView) -> bool {
    &&& value is Object
    &&& forall|key: Seq<char>| !#[trigger] repeated(value->Object_0, key)
    &&& lists(value.get("discovered_services"@), services_form(m.services))
    &&& lists(value.get("learned_notes"@), notes_form(m.notes))
}

proof fn lemma_read_service(ms: Seq<(Seq<char>, JsonView)>, s: ServiceView)
    requires
        same_members(ms, service_members(s)),
    ensures
        read_service(JsonView::Object(ms)) == Some(s),
{
    reveal_strlit("role");
    reveal_strlit("container_name");
    reveal_strlit("config_path");
    reveal_strlit("reload_command");
    reveal_strlit("last_confirmed");
    assert("role"@.len() == 4);
    assert("container_name"@.len() == 14 && "container_name"@[0] == 'c');
    assert("config_path"@.len() == 11);
    assert("reload_command"@.len() == 14 && "reload_command"@[0] == 'r');
    assert("last_confirmed"@.len() == 14 && "last_confirmed"@[0] == 'l');
    let form = service_members(s);
    lemma_lookup_at(form, "role"@, 0);
    lemma_lookup_at(form, "container_name"@, 1);
    lemma_lookup_at(form, "config_path"@, 2);
    lemma_lookup_at(form, "reload_command"@, 3);
    lemma_lookup_at(form, "last_confirmed"@, 4);
    assert(lookup(ms, "role"@) == Some(JsonView::String(s.role)));
    assert(lookup(ms, "container_name"@) == Some(JsonView::String(s.container_name)));
    assert(lookup(ms, "config_path"@) == Some(path_form(s.config_path)));
    assert(lookup(ms, "reload_command"@) == Some(strings_form(s.reload_command)));
    assert(lookup(ms, "last_confirmed"@) == Some(JsonView::String(s.last_confirmed)));
    let fields = record(JsonView::Object(ms), service_keys())->0;
    assert(fields[0] == Some(JsonView::String(s.role)));
    assert(fields[2] == Some(path_form(s.config_path)));
    let xs = strings_form(s.reload_command)->Array_0;
    assert(Seq::new(xs.len(), |i: int| xs[i]->String_0) =~= s.reload_command);
}

proof fn lemma_read_note(ms: Seq<(Seq<char>, JsonView)>, n: NoteView)
    requires
        same_members(ms, note_members(n)),
    ensures
        read_note(JsonView::Object(ms)) == Some(n),
{
    reveal_strlit("note");
    reveal_strlit("source");
    reveal_strlit("added");
    assert("note"@.len() == 4 && "source"@.len() == 6 && "added"@.len() == 5);
    let form = note_members(n);
    lemma_lookup_at(form, "note"@, 0);
    lemma_lookup_at(form, "source"@, 1);
    lemma_lookup_at(form, "added"@, 2);
    assert(lookup(ms, "note"@) == Some(JsonView::String(n.note)));
    assert(lookup(ms, "source"@) == Some(JsonView::String(n.source)));
    assert(lookup(ms, "added"@) == Some(JsonView::String(n.added)));
    let fields = record(JsonView::Object(ms), note_keys())->0;
    assert(fields[0] == Some(JsonView::String(n.note)));
}

/// What was kept on disk is what the agent starts with again: the same services
/// and the same notes, in the same order. In which order the members of an object
/// come back does not matter.
pub proof fn law_kept_memory_is_loaded(value: JsonView, m: MemoryView)
    requires
        holds_memory(value, m),
    ensures
        loaded(Some(value)) == m,
{
    let xs = value.get("discovered_services"@)->0->Array_0;
    assert forall|i: int| 0 <= i < xs.len() implies read_service(#[trigger] xs[i]) == Some(
        m.services[i],
    ) by {
        assert(services_form(m.services)->Array_0[i] == JsonView::Object(
            service_members(m.services[i]),
        ));
        lemma_read_service(xs[i]->Object_0, m.services[i]);
    }
    assert(Seq::new(xs.len(), |i: int| read_service(xs[i])->0) =~= m.services);
    let ys = value.get("learned_notes"@)->0->Array_0;
    assert forall|i: int| 0 <= i < ys.len() implies read_note(#[trigger] ys[i]) == Some(
        m.notes[i],
    ) by {
        assert(notes_form(m.notes)->Array_0[i] == JsonView::Object(note_members(m.notes[i])));
        lemma_read_note(ys[i]->Object_0, m.notes[i]);
    }
    assert(Seq::new(ys.len(), |i: int| read_note(ys[i])->0) =~= m.notes);
    let fields = record(value, memory_keys())->0;
    assert(fields[0] == value.get("discovered_services"@));
    assert(fields[1] == value.get("learned_notes"@));
}

/// What `save` gives is what `load` takes back as the same memory.
pub proof fn law_saved_memory_is_loaded(m: MemoryView)
    ensures
        loaded(Some(memory_form(m))) == m,
{
    reveal_strlit("discovered_services");
    reveal_strlit("learned_notes");
    assert("discovered_services"@.len() == 19 && "learned_notes"@.len() == 13);
    let form = memory_form(m)->Object_0;
    lemma_lookup_at(form, "discovered_services"@, 0);
    lemma_lookup_at(form, "learned_notes"@, 1);
    assert(lookup(form, "discovered_services"@) == Some(services_form(m.services)));
    assert(lookup(form, "learned_notes"@) == Some(notes_form(m.notes)));
    assert forall|key: Seq<char>| !#[trigger] repeated(form, key) by {}
    assert forall|i: int| 0 <= i < m.services.len() implies same_members(
        (#[trigger] services_form(m.services)->Array_0[i])->Object_0,
        service_members(m.services[i]),
    ) by {
        lemma_form_keys(m.services[i]);
    }
    assert forall|i: int| 0 <= i < m.notes.len() implies same_members(
        (#[trigger] notes_form(m.notes)->Array_0[i])->Object_0,
        note_members(m.notes[i]),
    ) by {
        lemma_note_keys(m.notes[i]);
    }
    law_kept_memory_is_loaded(memory_form(m), m);
}

proof fn lemma_form_keys(s: ServiceView)
    ensures
        forall|key: Seq<char>| !#[trigger] repeated(service_members(s), key),
{
    reveal_strlit("role");
    reveal_strlit("container_name");
    reveal_strlit("config_path");
    reveal_strlit("reload_command");
    reveal_strlit("last_confirmed");
    assert("role"@.len() == 4);
    assert("container_name"@.len() == 14 && "container_name"@[0] == 'c');
    assert("config_path"@.len() == 11);
    assert("reload_command"@.len() == 14 && "reload_command"@[0] == 'r');
    assert("last_confirmed"@.len() == 14 && "last_confirmed"@[0] == 'l');
}

proof fn lemma_note_keys(n: NoteView)
    ensures
        forall|key: Seq<char>| !#[trigger] repeated(note_members(n), key),
{
    reveal_strlit("note");
    reveal_strlit("source");
    reveal_strlit("added");
    assert("note"@.len() == 4 && "source"@.len() == 6 && "added"@.len() == 5);
}

} // verus!
