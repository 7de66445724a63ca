//! The function that runs agents, which the host hands in once.

use once_cell::sync::OnceCell;
use vstd::prelude::*;

use crate::tool::ToolContext;
use crate::tool::ToolContextModel;

verus! {

/// The cells that can be filled once.
#[verifier::external_type_specification]
#[verifier::external_body]
#[verifier::reject_recursive_types(T)]
pub struct ExOnceCell<T>(OnceCell<T>);

/// Stands for the function by which the host runs agents. The host keeps the function itself
/// under this number.
#[derive(Debug, Clone, Copy, PartialEq, Eq, Structural)]
pub struct AgentRunFn {
    pub id: u64,
}

/// What an agent is started with.
#[derive(Debug)]
pub struct AgentCall {
    /// A short label.
    pub description: String,
    /// The whole task.
    pub prompt: String,
    /// The tools that the agent may use; `None` means all tools.
    pub tools: Option<Vec<String>>,
    /// A system prompt in place of the usual one.
    pub system: Option<String>,
    /// How many turns the agent may take.
    pub max_turns: Option<u32>,
    /// The surroundings of the agent.
    pub ctx: ToolContext,
}

/// The model of an [`AgentCall`].
#[verifier::ext_equal]
pub struct AgentCallModel {
    pub description: Seq<char>,
    pub prompt: Seq<char>,
    pub tools: Option<Seq<Seq<char>>>,
    pub system: Option<Seq<char>>,
    pub max_turns: Option<u32>,
    pub ctx: ToolContextModel,
}

impl View for AgentCall {
    type V = AgentCallModel;

    open spec fn view(&self) -> AgentCallModel {
        AgentCallModel {
            description: self.description@,
            prompt: self.prompt@,
            tools: self.tools.deep_view(),
            system: self.system.deep_view(),
            max_turns: self.max_turns,
            ctx: self.ctx@,
        }
    }
}

/// What is to be done to run an agent.
#[derive(Debug)]
pub enum AgentDispatch {
    /// Hand the call to this function and wait for its answer.
    Run(AgentRunFn, AgentCall),
    /// Take this text for the answer.
    Answer(String),
}

/// What a cell for the function that runs agents holds.
pub uninterp spec fn registered_runner(cell: OnceCell<AgentRunFn>) -> Option<AgentRunFn>;

/// `OnceCell::new` makes an empty cell.
#[verifier::external_body]
pub(crate) fn empty_cell() -> (cell: OnceCell<AgentRunFn>)
    ensures
        registered_runner(cell) is None,
{
    OnceCell::new()
}

/// `OnceCell::set` fills an empty cell. It hands the value back if the cell is full, and leaves
/// the cell as it is. It is called with exclusive access to the cell, so no other thread takes
/// part.
#[verifier::external_body]
pub(crate) fn fill_cell(cell: &mut OnceCell<AgentRunFn>, f: AgentRunFn) -> (r: Result<
    (),
    AgentRunFn,
>)
    ensures
        match registered_runner(*old(cell)) {
            None => r is Ok && registered_runner(*final(cell)) == Some(f),
            Some(g) => r matches Err(back) && back == f && registered_runner(*final(cell)) == Some(
                g,
            ),
        },
{
    cell.set(f)
}

/// `OnceCell::get` gives what a cell holds, if it holds anything.
#[verifier::external_body]
pub(crate) fn read_cell(cell: &OnceCell<AgentRunFn>) -> (r: Option<AgentRunFn>)
    ensures
        r == registered_runner(*cell),
{
    cell.get().copied()
}

/// The place for the function that runs agents.
pub struct RunnerSlot {
    cell: OnceCell<AgentRunFn>,
}

impl View for RunnerSlot {
    type V = Option<AgentRunFn>;

    closed spec fn view(&self) -> Option<AgentRunFn> {
        registered_runner(self.cell)
    }
}

impl RunnerSlot {
    /// A place without a function.
    pub fn new() -> (slot: RunnerSlot)
        ensures
            slot@ is None,
    {
        RunnerSlot { cell: empty_cell() }
    }

    /// The function that was registered, if one was.
    pub fn registered(&self) -> (f: Option<AgentRunFn>)
        ensures
            f == self@,
    {
        read_cell(&self.cell)
    }
}

/// Registers the function that runs agents, unless one is registered already. Hands the function
/// back in that case.
pub fn try_register_agent_runner(slot: &mut RunnerSlot, f: AgentRunFn) -> (r: Result<
    (),
    AgentRunFn,
>)
    ensures
        match old(slot)@ {
            None => r is Ok && final(slot)@ == Some(f),
            Some(g) => r == Err::<(), AgentRunFn>(f) && final(slot)@ == Some(g),
        },
{
    fill_cell(&mut slot.cell, f)
}

/// Registers the function that runs agents. There is one function for a process, so no other may
/// be registered before.
pub fn register_agent_runner(slot: &mut RunnerSlot, f: AgentRunFn)
    requires
        old(slot)@ is None,
    ensures
        final(slot)@ == Some(f),
{
    let _ = try_register_agent_runner(slot, f);
}

/// How an agent is to be run: by the registered function, or by nobody if none is registered.
pub fn run_agent(slot: &RunnerSlot, call: AgentCall) -> (dispatch: AgentDispatch)
    ensures
        match slot@ {
            Some(f) => dispatch == AgentDispatch::Run(f, call),
            None => dispatch matches AgentDispatch::Answer(text) && text@
                == "[No agent runner registered — cc-query not initialised]"@,
        },
{
    match slot.registered() {
        Some(f) => AgentDispatch::Run(f, call),
        None => AgentDispatch::Answer(
            "[No agent runner registered — cc-query not initialised]".to_owned(),
        ),
    }
}

} // verus!
