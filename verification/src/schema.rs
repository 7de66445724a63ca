//! The data of a team: what a caller asks for, and what is written down of it.

use vstd::prelude::*;

verus! {

/// One agent that a caller asks for.
#[derive(Debug)]
pub struct AgentSpec {
    pub name: String,
    pub role: Option<String>,
    /// The tools the agent may use; `None` means all tools.
    pub tools: Option<Vec<String>>,
    /// The agent's own task; `None` means the task of the team.
    pub task: Option<String>,
}

/// What a caller hands to the tool that creates teams.
#[derive(Debug)]
pub struct TeamCreateInput {
    pub team_name: String,
    /// The task of every agent that has none of its own.
    pub task: String,
    pub agents: Vec<AgentSpec>,
    /// Whether the agents run side by side or one after the other.
    pub parallel: bool,
    pub description: Option<String>,
}

/// What a caller hands to the tool that deletes teams.
#[derive(Debug)]
pub struct TeamDeleteInput {
    pub team_name: String,
}

/// One agent as the configuration file of its team lists it.
#[derive(Debug)]
pub struct TeamMember {
    pub agent_id: String,
    pub name: String,
    pub role: String,
    pub joined_at: u64,
    pub tools: Option<Vec<String>>,
}

/// The configuration file of a team.
#[derive(Debug)]
pub struct TeamConfig {
    pub name: String,
    pub task: String,
    pub description: Option<String>,
    pub created_at: u64,
    pub lead_agent_id: String,
    pub lead_session_id: String,
    pub parallel: bool,
    pub members: Vec<TeamMember>,
}

/// What one agent came back with.
#[derive(Debug)]
pub struct AgentResult {
    pub agent: String,
    pub output: String,
}

/// The model of an [`AgentSpec`].
#[verifier::ext_equal]
pub struct AgentSpecModel {
    pub name: Seq<char>,
    pub role: Option<Seq<char>>,
    pub tools: Option<Seq<Seq<char>>>,
    pub task: Option<Seq<char>>,
}

/// The model of a [`TeamCreateInput`].
#[verifier::ext_equal]
pub struct TeamCreateModel {
    pub team_name: Seq<char>,
    pub task: Seq<char>,
    pub agents: Seq<AgentSpecModel>,
    pub parallel: bool,
    pub description: Option<Seq<char>>,
}

/// The model of a [`TeamMember`].
#[verifier::ext_equal]
pub struct TeamMemberModel {
    pub agent_id: Seq<char>,
    pub name: Seq<char>,
    pub role: Seq<char>,
    pub joined_at: u64,
    pub tools: Option<Seq<Seq<char>>>,
}

/// The model of a [`TeamConfig`].
#[verifier::ext_equal]
pub struct TeamConfigModel {
    pub name: Seq<char>,
    pub task: Seq<char>,
    pub description: Option<Seq<char>>,
    pub created_at: u64,
    pub lead_agent_id: Seq<char>,
    pub lead_session_id: Seq<char>,
    pub parallel: bool,
    pub members: Seq<TeamMemberModel>,
}

/// The model of an [`AgentResult`].
#[verifier::ext_equal]
pub struct AgentResultModel {
    pub agent: Seq<char>,
    pub output: Seq<char>,
}

impl View for AgentSpec {
    type V = AgentSpecModel;

    open spec fn view(&self) -> AgentSpecModel {
        AgentSpecModel {
            name: self.name@,
            role: self.role.deep_view(),
            tools: self.tools.deep_view(),
            task: self.task.deep_view(),
        }
    }
}

impl View for TeamCreateInput {
    type V = TeamCreateModel;

    open spec fn view(&self) -> TeamCreateModel {
        TeamCreateModel {
            team_name: self.team_name@,
            task: self.task@,
            agents: agent_specs(self.agents@),
            parallel: self.parallel,
            description: self.description.deep_view(),
        }
    }
}

impl View for TeamMember {
    type V = TeamMemberModel;

    open spec fn view(&self) -> TeamMemberModel {
        TeamMemberModel {
            agent_id: self.agent_id@,
            name: self.name@,
            role: self.role@,
            joined_at: self.joined_at,
            tools: self.tools.deep_view(),
        }
    }
}

impl View for TeamConfig {
    type V = TeamConfigModel;

    open spec fn view(&self) -> TeamConfigModel {
        TeamConfigModel {
            name: self.name@,
            task: self.task@,
            description: self.description.deep_view(),
            created_at: self.created_at,
            lead_agent_id: self.lead_agent_id@,
            lead_session_id: self.lead_session_id@,
            parallel: self.parallel,
            members: team_members(self.members@),
        }
    }
}

impl View for AgentResult {
    type V = AgentResultModel;

    open spec fn view(&self) -> AgentResultModel {
        AgentResultModel { agent: self.agent@, output: self.output@ }
    }
}

/// The models of a sequence of agents.
pub open spec fn agent_specs(agents: Seq<AgentSpec>) -> Seq<AgentSpecModel> {
    agents.map_values(|a: AgentSpec| a@)
}

/// The models of a sequence of members.
pub open spec fn team_members(members: Seq<TeamMember>) -> Seq<TeamMemberModel> {
    members.map_values(|m: TeamMember| m@)
}

/// The models of a sequence of results.
pub open spec fn agent_results(results: Seq<AgentResult>) -> Seq<AgentResultModel> {
    results.map_values(|r: AgentResult| r@)
}

/// The role of an agent: the one it was given, or that of an assistant.
pub open spec fn role_of(agent: AgentSpecModel) -> Seq<char> {
    match agent.role {
        Some(role) => role,
        None => "assistant"@,
    }
}

/// The task of an agent: its own, or that of the team.
pub open spec fn task_of(agent: AgentSpecModel, team_task: Seq<char>) -> Seq<char> {
    match agent.task {
        Some(task) => task,
        None => team_task,
    }
}

/// Agents run side by side unless a caller says otherwise.
pub fn default_parallel() -> (parallel: bool)
    ensures
        parallel == true,
{
    true
}

impl AgentSpec {
    /// The role of the agent: the one it was given, or that of an assistant.
    pub fn effective_role(&self) -> (role: String)
        ensures
            role@ == role_of(self@),
    {
        match &self.role {
            Some(role) => role.clone(),
            None => "assistant".to_owned(),
        }
    }

    /// The task of the agent: its own, or that of the team.
    pub fn effective_task(&self, team_task: &str) -> (task: String)
        ensures
            task@ == task_of(self@, team_task@),
    {
        match &self.task {
            Some(task) => task.clone(),
            None => team_task.to_owned(),
        }
    }

    /// A copy of the list of tools.
    pub fn tool_list(&self) -> (tools: Option<Vec<String>>)
        ensures
            tools.deep_view() == self@.tools,
    {
        match &self.tools {
            Some(tools) => {
                let copy = tools.clone();
                assert(copy@ == tools@);
                Some(copy)
            },
            None => None,
        }
    }
}

} // verus!
