//! What the agent holds while it runs: its tokens, its memory and the proposals
//! that wait to be applied.

use vstd::prelude::*;
use vstd::hash_map::StringHashMap;
use crate::memory::{Memory, MemoryView};
use crate::text::text_of;

verus! {

/// A config file that was proposed for a role.
#[derive(Debug, PartialEq)]
pub struct ServiceProposal {
    pub role: String,
    pub content: String,
}

/// What a [`ServiceProposal`] stands for.
pub struct ProposalView {
    pub role: Seq<char>,
    pub content: Seq<char>,
}

impl View for ServiceProposal {
    type V = ProposalView;

    open spec fn view(&self) -> ProposalView {
        ProposalView { role: self.role@, content: self.content@ }
    }
}

/// What the agent holds while it runs.
pub struct AppState {
    /// The token of this host, for the one who calls this agent.
    pub bearer_token: String,
    /// The token that the agents of a mesh share, where this one is part of it.
    pub mesh_token: Option<String>,
    pub memory: Memory,
    /// The proposals that wait to be applied, by their ids.
    pub pending_proposals: StringHashMap<ServiceProposal>,
}

/// What an [`AppState`] stands for.
pub struct StateView {
    pub bearer_token: Seq<char>,
    pub mesh_token: Option<Seq<char>>,
    pub memory: MemoryView,
    pub pending: Map<Seq<char>, ProposalView>,
}

/// The views of proposals, by their ids.
pub open spec fn proposals_view(proposals: Map<Seq<char>, ServiceProposal>) -> Map<
    Seq<char>,
    ProposalView,
> {
    proposals.map_values(|p: ServiceProposal| p@)
}

impl View for AppState {
    type V = StateView;

    open spec fn view(&self) -> StateView {
        StateView {
            bearer_token: self.bearer_token@,
            mesh_token: text_of(self.mesh_token),
            memory: self.memory@,
            pending: proposals_view(self.pending_proposals@),
        }
    }
}

impl StateView {
    /// The proposal that waits under an id.
    pub open spec fn proposal(self, id: Seq<char>) -> Option<ProposalView> {
        if self.pending.contains_key(id) {
            Some(self.pending[id])
        } else {
            None
        }
    }
}

impl AppState {
    /// The state at the start: no proposal waits.
    pub fn new(bearer_token: String, mesh_token: Option<String>, memory: Memory) -> (r: AppState)
        ensures
            r@ == (StateView {
                bearer_token: bearer_token@,
                mesh_token: text_of(mesh_token),
                memory: memory@,
                pending: Map::empty(),
            }),
    {
        let r = AppState {
            bearer_token,
            mesh_token,
            memory,
            pending_proposals: StringHashMap::new(),
        };
        proof {
            assert(r@.pending =~= Map::empty());
        }
        r
    }

    /// Lets a proposal wait under the given id.
    pub fn stage_proposal(&mut self, id: String, proposal: ServiceProposal)
        ensures
            final(self)@ == (StateView {
                pending: old(self)@.pending.insert(id@, proposal@),
                ..old(self)@
            }),
    {
        let ghost before = self@.pending;
        self.pending_proposals.insert(id, proposal);
        proof {
            assert(self@.pending =~= before.insert(id@, proposal@));
        }
    }

    /// Takes out the proposal that waits under an id.
    pub fn take_proposal(&mut self, id: &str) -> (r: Option<ServiceProposal>)
        ensures
            final(self)@ == (StateView { pending: old(self)@.pending.remove(id@), ..old(self)@ }),
            match r {
                Some(p) => old(self)@.proposal(id@) == Some(p@),
                None => old(self)@.proposal(id@) is None,
            },
    {
        let ghost before = self@.pending;
        let taken: Option<ServiceProposal> = match self.pending_proposals.get(id) {
            Some(p) => Some(
                ServiceProposal { role: p.role.clone(), content: p.content.clone() },
            ),
            None => None,
        };
        self.pending_proposals.remove(id);
        proof {
            assert(self@.pending =~= before.remove(id@));
        }
        taken
    }
}

} // verus!
