//! Port pairs of agents and the store that remembers which agent was given
//! which pair.

use crate::text::same_text;
use vstd::prelude::*;
use vstd::string::*;

verus! {

/// The HTTP port an agent gets when none is asked for.
pub const DEFAULT_HTTP_PORT: u16 = 3000;

/// The two ports of one agent.
#[derive(Clone, Copy, Debug, PartialEq, Eq, Structural)]
pub struct AgentPortConfig {
    pub http_port: u16,
    pub websocket_port: u16,
}

/// Why no port pair could be derived.
#[derive(Clone, Copy, Debug, PartialEq, Eq, Structural)]
pub enum PortError {
    /// The HTTP port is the highest port there is, so no companion follows.
    NoCompanionPort,
}

/// The HTTP port to use for a request that may or may not name one.
pub open spec fn http_port_for(requested: Option<u16>) -> u16 {
    match requested {
        Some(p) => p,
        None => DEFAULT_HTTP_PORT,
    }
}

/// Derives the port pair of an agent: the requested HTTP port, or the
/// default, and the WebSocket port right after it.
pub fn derive_ports(requested: Option<u16>) -> (r: Result<AgentPortConfig, PortError>)
    ensures
        http_port_for(requested) == u16::MAX ==> r == Err::<AgentPortConfig, PortError>(
            PortError::NoCompanionPort,
        ),
        http_port_for(requested) < u16::MAX ==> r == Ok::<AgentPortConfig, PortError>(
            (AgentPortConfig {
                http_port: http_port_for(requested),
                websocket_port: (http_port_for(requested) + 1) as u16,
            }),
        ),
{
    let http_port: u16 = match requested {
        Some(p) => p,
        None => DEFAULT_HTTP_PORT,
    };
    if http_port == u16::MAX {
        Err(PortError::NoCompanionPort)
    } else {
        Ok(AgentPortConfig { http_port, websocket_port: http_port + 1 })
    }
}

/// One remembered assignment.
#[derive(Debug, PartialEq, Eq)]
pub struct PortEntry {
    pub agent_id: String,
    pub ports: AgentPortConfig,
}

/// Remembers the port pair of every registered agent. No agent is held
/// twice.
#[derive(Debug, PartialEq, Eq)]
pub struct PortRegistry {
    entries: Vec<PortEntry>,
}

/// Whether entry `i` of `entries` belongs to the agent `id`.
pub open spec fn entry_is(entries: Seq<PortEntry>, i: int, id: Seq<char>) -> bool {
    0 <= i < entries.len() && entries[i].agent_id@ == id
}

/// Whether no agent has two entries.
pub open spec fn distinct(entries: Seq<PortEntry>) -> bool {
    forall|i: int, j: int|
        0 <= i < j < entries.len() ==> entries[i].agent_id@ != entries[j].agent_id@
}

/// The assignment that a list of entries stands for.
pub open spec fn assignment(entries: Seq<PortEntry>) -> Map<Seq<char>, AgentPortConfig> {
    Map::new(
        |id: Seq<char>| exists|i: int| entry_is(entries, i, id),
        |id: Seq<char>| entries[choose|i: int| entry_is(entries, i, id)].ports,
    )
}

/// Among distinct entries, each agent is assigned the pair in its entry.
pub proof fn lemma_assignment_at(entries: Seq<PortEntry>, i: int)
    requires
        distinct(entries),
        0 <= i < entries.len(),
    ensures
        assignment(entries).contains_key(entries[i].agent_id@),
        assignment(entries)[entries[i].agent_id@] == entries[i].ports,
{
    let id = entries[i].agent_id@;
    assert(entry_is(entries, i, id));
    let j = choose|j: int| entry_is(entries, j, id);
    assert(j == i);
}

/// Replacing the pair in an agent's entry, or adding an entry for an agent
/// that has none, keeps the entries distinct and changes the assignment for
/// that agent alone.
pub proof fn lemma_assignment_changed(
    before: Seq<PortEntry>,
    after: Seq<PortEntry>,
    at: int,
    entry: PortEntry,
)
    requires
        distinct(before),
        0 <= at <= before.len(),
        at < before.len() ==> before[at].agent_id@ == entry.agent_id@ && after == before.update(
            at,
            entry,
        ),
        at == before.len() ==> after == before.push(entry) && forall|i: int|
            !entry_is(before, i, entry.agent_id@),
    ensures
        distinct(after),
        assignment(after) == assignment(before).insert(entry.agent_id@, entry.ports),
{
    let id = entry.agent_id@;
    assert forall|i: int, j: int| 0 <= i < j < after.len() implies after[i].agent_id@
        != after[j].agent_id@ by {
        if j == before.len() {
            assert(!entry_is(before, i, id));
        } else {
            assert(after[i].agent_id@ == before[i].agent_id@);
            assert(after[j].agent_id@ == before[j].agent_id@);
        }
    }
    assert(entry_is(after, at, id));
    let wanted = assignment(before).insert(id, entry.ports);
    assert forall|k: Seq<char>| #[trigger] assignment(after).contains_key(k) == wanted.contains_key(
        k,
    ) by {
        if assignment(before).contains_key(k) {
            let j = choose|j: int| entry_is(before, j, k);
            assert(entry_is(after, j, k));
        }
        if assignment(after).contains_key(k) && k != id {
            let j = choose|j: int| entry_is(after, j, k);
            assert(entry_is(before, j, k));
        }
    }
    assert forall|k: Seq<char>| #[trigger] assignment(after).contains_key(k) implies assignment(
        after,
    )[k] == wanted[k] by {
        let j = choose|j: int| entry_is(after, j, k);
        lemma_assignment_at(after, j);
        if k != id {
            assert(entry_is(before, j, k));
            lemma_assignment_at(before, j);
        } else {
            assert(j == at);
        }
    }
    assert(assignment(after) =~= wanted);
}

impl View for PortRegistry {
    type V = Map<Seq<char>, AgentPortConfig>;

    /// The assignment from agent identifiers to port pairs.
    closed spec fn view(&self) -> Map<Seq<char>, AgentPortConfig> {
        assignment(self.entries@)
    }
}

impl PortRegistry {
    #[verifier::type_invariant]
    spec fn well_formed(&self) -> bool {
        distinct(self.entries@)
    }

    /// An empty registry.
    pub fn new() -> (r: Self)
        ensures
            r@ == Map::<Seq<char>, AgentPortConfig>::empty(),
    {
        let r = PortRegistry { entries: Vec::new() };
        assert(r@ =~= Map::<Seq<char>, AgentPortConfig>::empty());
        r
    }

    /// How many agents are registered.
    pub fn len(&self) -> (r: usize)
        ensures
            r == self@.dom().len(),
    {
        proof {
            use_type_invariant(self);
            lemma_assignment_size(self.entries@);
        }
        self.entries.len()
    }

    /// The position of the agent `id`, if it is registered.
    fn position(&self, id: &str) -> (r: Option<usize>)
        ensures
            r matches Some(i) ==> entry_is(self.entries@, i as int, id@),
            r is None ==> forall|i: int| !entry_is(self.entries@, i, id@),
    {
        let mut i: usize = 0;
        while i < self.entries.len()
            invariant
                i <= self.entries.len(),
                forall|k: int| 0 <= k < i ==> !entry_is(self.entries@, k, id@),
            decreases self.entries.len() - i,
        {
            if same_text(self.entries[i].agent_id.as_str(), id) {
                return Some(i);
            }
            i = i + 1;
        }
        None
    }

    /// The port pair of the agent `id`, if it is registered.
    pub fn get(&self, id: &str) -> (r: Option<AgentPortConfig>)
        ensures
            r == if self@.contains_key(id@) {
                Some(self@[id@])
            } else {
                None
            },
    {
        proof {
            use_type_invariant(self);
        }
        match self.position(id) {
            Some(i) => {
                proof {
                    lemma_assignment_at(self.entries@, i as int);
                }
                Some(self.entries[i].ports)
            },
            None => None,
        }
    }

    /// Registers the port pair of the agent `id`, replacing any earlier one.
    pub fn set(&mut self, id: String, ports: AgentPortConfig)
        ensures
            final(self)@ == old(self)@.insert(id@, ports),
    {
        proof {
            use_type_invariant(&*self);
        }
        let found = self.position(id.as_str());
        let mut entries: Vec<PortEntry> = Vec::new();
        std::mem::swap(&mut entries, &mut self.entries);
        let ghost before = entries@;
        let entry = PortEntry { agent_id: id, ports };
        match found {
            Some(i) => {
                proof {
                    lemma_assignment_changed(before, before.update(i as int, entry), i as int, entry);
                }
                entries.set(i, entry);
            },
            None => {
                proof {
                    lemma_assignment_changed(
                        before,
                        before.push(entry),
                        before.len() as int,
                        entry,
                    );
                }
                entries.push(entry);
            },
        }
        self.entries = entries;
    }
}

/// Distinct entries stand for an assignment of as many agents.
pub proof fn lemma_assignment_size(entries: Seq<PortEntry>)
    requires
        distinct(entries),
    ensures
        assignment(entries).dom().finite(),
        assignment(entries).dom().len() == entries.len(),
    decreases entries.len(),
{
    if entries.len() == 0 {
        assert(assignment(entries).dom() =~= Set::<Seq<char>>::empty());
    } else {
        let front = entries.drop_last();
        let last = entries.last();
        assert(distinct(front)) by {
            assert forall|i: int, j: int| 0 <= i < j < front.len() implies front[i].agent_id@
                != front[j].agent_id@ by {
                assert(front[i] == entries[i]);
                assert(front[j] == entries[j]);
            }
        }
        lemma_assignment_size(front);
        assert forall|i: int| !entry_is(front, i, last.agent_id@) by {
            if 0 <= i < front.len() {
                assert(front[i] == entries[i]);
            }
        }
        assert(entries =~= front.push(last));
        lemma_assignment_changed(front, entries, front.len() as int, last);
        assert(!assignment(front).dom().contains(last.agent_id@));
        assert(assignment(entries).dom() =~= assignment(front).dom().insert(last.agent_id@));
    }
}

} // verus!
