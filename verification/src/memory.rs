//! What the agent remembers: the services that discovery found on this host and
//! the notes that were given to it over time.

use vstd::prelude::*;
use crate::discovery::{DiscoveredService, ServiceView, services_view};
use crate::outside::{now_rfc3339, utc_stamp};
use crate::text::same_text;

verus! {

/// Where the memory is kept on disk.
pub const MEMORY_PATH: &'static str = "/data/memory.json";

/// What the agent remembers.
#[derive(Debug, Clone, PartialEq)]
pub struct Memory {
    pub discovered_services: Vec<DiscoveredService>,
    pub learned_notes: Vec<LearnedNote>,
}

/// A note that was given to the agent.
#[derive(Debug, Clone, PartialEq)]
pub struct LearnedNote {
    pub note: String,
    /// Who gave the note: "hermes" or "manual".
    pub source: String,
    /// When it was added, in ISO 8601.
    pub added: String,
}

/// What a [`LearnedNote`] stands for.
pub struct NoteView {
    pub note: Seq<char>,
    pub source: Seq<char>,
    pub added: Seq<char>,
}

impl View for LearnedNote {
    type V = NoteView;

    open spec fn view(&self) -> NoteView {
        NoteView { note: self.note@, source: self.source@, added: self.added@ }
    }
}

/// The views of a list of notes.
pub open spec fn notes_view(notes: Seq<LearnedNote>) -> Seq<NoteView> {
    Seq::new(notes.len(), |i: int| notes[i]@)
}

/// What a [`Memory`] stands for.
pub struct MemoryView {
    pub services: Seq<ServiceView>,
    pub notes: Seq<NoteView>,
}

impl View for Memory {
    type V = MemoryView;

    open spec fn view(&self) -> MemoryView {
        MemoryView {
            services: services_view(self.discovered_services@),
            notes: notes_view(self.learned_notes@),
        }
    }
}

/// The memory of an agent that knows nothing yet.
pub open spec fn empty_memory() -> MemoryView {
    MemoryView { services: seq![], notes: seq![] }
}

/// The first service with the given role.
pub open spec fn service_for(services: Seq<ServiceView>, role: Seq<char>) -> Option<ServiceView>
    decreases services.len(),
{
    if services.len() == 0 {
        None
    } else if services[0].role == role {
        Some(services[0])
    } else {
        service_for(services.drop_first(), role)
    }
}

impl Default for Memory {
    fn default() -> (r: Memory)
        ensures
            r@ == empty_memory(),
    {
        let r = Memory { discovered_services: Vec::new(), learned_notes: Vec::new() };
        proof {
            assert(r@.services =~= seq![]);
            assert(r@.notes =~= seq![]);
        }
        r
    }
}

impl LearnedNote {
    /// A copy of the note.
    pub fn duplicate(&self) -> (r: LearnedNote)
        ensures
            r@ == self@,
    {
        LearnedNote {
            note: self.note.clone(),
            source: self.source.clone(),
            added: self.added.clone(),
        }
    }
}

impl Memory {
    /// A copy of the memory.
    pub fn duplicate(&self) -> (r: Memory)
        ensures
            r@ == self@,
    {
        let mut services: Vec<DiscoveredService> = Vec::new();
        let n: usize = self.discovered_services.len();
        let mut i: usize = 0;
        while i < n
            invariant
                n == self.discovered_services@.len(),
                i <= n,
                services@.len() == i,
                forall|k: int| 0 <= k < i ==> (#[trigger] services@[k])@
                    == self.discovered_services@[k]@,
            decreases n - i,
        {
            services.push(self.discovered_services[i].duplicate());
            i = i + 1;
        }
        let mut notes: Vec<LearnedNote> = Vec::new();
        let m: usize = self.learned_notes.len();
        let mut j: usize = 0;
        while j < m
            invariant
                m == self.learned_notes@.len(),
                j <= m,
                notes@.len() == j,
                forall|k: int| 0 <= k < j ==> (#[trigger] notes@[k])@
                    == self.learned_notes@[k]@,
            decreases m - j,
        {
            notes.push(self.learned_notes[j].duplicate());
            j = j + 1;
        }
        proof {
            assert(services_view(services@) =~= services_view(self.discovered_services@));
            assert(notes_view(notes@) =~= notes_view(self.learned_notes@));
        }
        Memory { discovered_services: services, learned_notes: notes }
    }
}

/// Replaces the services that are known by those of a fresh run of discovery;
/// what that run did not find is dropped.
pub fn replace_discovered(mem: &mut Memory, fresh: Vec<DiscoveredService>)
    ensures
        final(mem).discovered_services == fresh,
        final(mem).learned_notes == old(mem).learned_notes,
        final(mem)@ == (MemoryView { services: services_view(fresh@), ..old(mem)@ }),
{
    mem.discovered_services = fresh;
}

/// Services with other roles can be passed over.
pub proof fn lemma_service_for_skip(services: Seq<ServiceView>, role: Seq<char>, i: int)
    requires
        0 <= i <= services.len(),
        forall|j: int| 0 <= j < i ==> (#[trigger] services[j]).role != role,
    ensures
        service_for(services, role) == service_for(services.skip(i), role),
    decreases i,
{
    if i == 0 {
        assert(services.skip(0) =~= services);
    } else {
        assert(services[0].role != role);
        let t = services.drop_first();
        assert forall|j: int| 0 <= j < i - 1 implies (#[trigger] t[j]).role != role by {
            assert(t[j] == services[j + 1]);
        }
        lemma_service_for_skip(t, role, i - 1);
        assert(t.skip(i - 1) =~= services.skip(i));
    }
}

/// The first service that is known for a role.
pub fn find_service<'a>(mem: &'a Memory, role: &str) -> (r: Option<&'a DiscoveredService>)
    ensures
        match r {
            Some(s) => service_for(mem@.services, role@) == Some(s@),
            None => service_for(mem@.services, role@) is None,
        },
{
    let n: usize = mem.discovered_services.len();
    let mut i: usize = 0;
    let ghost services = mem@.services;
    while i < n
        invariant
            n == mem.discovered_services@.len(),
            services == mem@.services,
            i <= n,
            forall|j: int| 0 <= j < i ==> (#[trigger] services[j]).role != role@,
        decreases n - i,
    {
        if same_text(mem.discovered_services[i].role.as_str(), role) {
            proof {
                lemma_service_for_skip(services, role@, i as int);
                assert(services.skip(i as int)[0] == services[i as int]);
            }
            return Some(&mem.discovered_services[i]);
        }
        i = i + 1;
    }
    proof {
        lemma_service_for_skip(services, role@, n as int);
        assert(services.skip(n as int).len() == 0);
    }
    None
}

/// The memory with one more note at the end.
pub open spec fn with_note(mem: MemoryView, note: NoteView) -> MemoryView {
    MemoryView { notes: mem.notes.push(note), ..mem }
}

/// Adds a note with a given time stamp.
pub fn add_note_at(mem: &mut Memory, note: String, source: &str, added: String)
    ensures
        final(mem).discovered_services == old(mem).discovered_services,
        final(mem)@ == with_note(
            old(mem)@,
            (NoteView { note: note@, source: source@, added: added@ }),
        ),
{
    let ghost before = mem@.notes;
    mem.learned_notes.push(LearnedNote { note, source: source.to_owned(), added });
    proof {
        assert(mem@.notes =~= before.push(
            NoteView { note: note@, source: source@, added: added@ },
        ));
    }
}

/// Adds a note with the current time.
pub fn add_note(mem: &mut Memory, note: String, source: &str)
    ensures
        final(mem).discovered_services == old(mem).discovered_services,
        exists|added: Seq<char>|
            utc_stamp(added) && final(mem)@ == with_note(
                old(mem)@,
                (NoteView { note: note@, source: source@, added }),
            ),
{
    let added: String = now_rfc3339();
    let ghost stamp = added@;
    add_note_at(mem, note, source, added);
    proof {
        assert(utc_stamp(stamp));
    }
}

} // verus!
