//! The tool that creates teams.
//!
//! One call of the tool is a sequence of decisions with outside work between them: looking
//! whether a directory exists, making it, writing two files, running the agents. Each decision
//! is a method that takes what the last piece of work came to and says what is next, or what to
//! answer.

use std::path::PathBuf;
use tokio_util::sync::CancellationToken;
use vstd::prelude::*;
use vstd::string::*;

use crate::clock::now_millis;
use crate::json::compact_text;
use crate::json::described;
use crate::json::described_fields;
use crate::json::json_array;
use crate::json::json_bool;
use crate::json::json_fields;
use crate::json::json_list_pretty;
use crate::json::json_model;
use crate::json::json_models;
use crate::json::json_number;
use crate::json::json_object;
use crate::json::json_string;
use crate::json::json_text;
use crate::json::no_entries;
use crate::json::no_fields;
use crate::json::object_schema;
use crate::json::object_schema_value;
use crate::json::pretty_text;
use crate::json::put_field;
use crate::json::text_value;
use crate::json::typed;
use crate::json::typed_fields;
use crate::json::JsonModel;
use crate::names::distinct_name;
use crate::names::draw_id;
use crate::names::drawn_at_random;
use crate::names::law_suffix;
use crate::names::join_path;
use crate::names::lossy_path_text;
use crate::names::name_suffix;
use crate::names::path_join;
use crate::names::path_text;
use crate::names::sanitize_name;
use crate::names::sanitized;
use crate::names::team_dir_in;
use crate::names::team_path;
use crate::registry::asked;
use crate::registry::cancelled_among;
use crate::registry::duplicate_tokens;
use crate::registry::is_cancelled;
use crate::registry::token_cancelled;
use crate::registry::token_id;
use crate::registry::token_model;
use crate::registry::token_models;
use crate::registry::unused;
use crate::registry::TeamRegistry;
use crate::registry::TokenModel;
use crate::runner::AgentCall;
use crate::runner::AgentCallModel;
use crate::schema::agent_results;
use crate::schema::agent_specs;
use crate::schema::role_of;
use crate::schema::task_of;
use crate::schema::team_members;
use crate::schema::AgentResult;
use crate::schema::AgentResultModel;
use crate::schema::AgentSpec;
use crate::schema::AgentSpecModel;
use crate::schema::TeamConfig;
use crate::schema::TeamConfigModel;
use crate::schema::TeamCreateInput;
use crate::schema::TeamCreateModel;
use crate::schema::TeamMember;
use crate::schema::TeamMemberModel;
use crate::text::blank;
use crate::text::decimal;
use crate::text::decimal_text;
use crate::text::is_blank;
use crate::text::trim;
use crate::text::trimmed;
use crate::tool::error_reply;
use crate::tool::success_reply;
use crate::tool::PermissionLevel;
use crate::tool::ToolContext;
use crate::tool::ToolContextModel;
use crate::tool::ToolResult;
use crate::tool::ToolResultModel;

verus! {

/// How deep teams may be nested in one another.
pub const MAX_TEAM_DEPTH: u32 = 3;

/// How many seconds an agent may take.
pub const AGENT_TIMEOUT_SECS: u64 = 120;

/// How many turns an agent may take.
pub const AGENT_MAX_TURNS: u32 = 10;

/// The tool that creates teams.
pub struct TeamCreateTool;

/// A team that was asked for, before it is known whether its directory is taken.
#[derive(Debug)]
pub struct TeamDraft {
    pub request: TeamCreateInput,
    pub context: ToolContext,
    pub safe_name: String,
    pub lead_agent_id: String,
    /// The directory to look for.
    pub dir: PathBuf,
}

/// A team with the name and the directory that it will have.
#[derive(Debug)]
pub struct NamedTeam {
    pub request: TeamCreateInput,
    pub context: ToolContext,
    pub lead_agent_id: String,
    pub name: String,
    /// The directory to make.
    pub dir: PathBuf,
}

/// A team with its configuration and the places of its two files.
#[derive(Debug)]
pub struct PreparedTeam {
    pub team: NamedTeam,
    /// The configuration to write.
    pub config: TeamConfig,
    pub config_path: PathBuf,
    pub results_path: PathBuf,
}

/// Why the configuration of a team was not written.
#[derive(Debug)]
pub enum ConfigError {
    /// It could not be put into text.
    Serialise(String),
    /// The text could not be written to the file.
    Write(String),
}

/// An agent that is ready to run.
#[derive(Debug)]
pub struct AgentTask {
    pub name: String,
    pub call: AgentCall,
    /// The handle by which the agent is told to stop.
    pub cancel: CancellationToken,
}

/// How an agent ended.
#[derive(Debug)]
pub enum AgentEnd {
    /// Its team was deleted before the agent began.
    CancelledBeforeStart,
    /// It answered.
    Answered(String),
    /// Its team was deleted while the agent ran.
    Cancelled,
    /// It did not answer in time.
    TimedOut,
}

/// What a team leaves behind when its agents have ended.
#[derive(Debug)]
pub struct TeamReport {
    pub results_path: PathBuf,
    /// The contents of the file of results.
    pub results_text: String,
    pub reply: ToolResult,
}

/// What is next in a call of the tool: a piece of outside work, or the answer.
#[derive(Debug)]
pub enum CreateStep {
    /// Look whether the directory of the draft exists.
    LookFor(TeamDraft),
    /// Make the directory of the team.
    MakeDir(NamedTeam),
    /// Write the configuration of the team to its file.
    WriteConfig(PreparedTeam),
    /// Write the placeholder to the file of results.
    LayOutResults(PreparedTeam),
    /// Run the agents.
    RunAgents(PreparedTeam, Vec<AgentTask>),
    /// Write the results to their file.
    SaveResults(TeamReport),
    /// Answer this.
    Reply(ToolResult),
}

/// The model of a [`TeamDraft`].
#[verifier::ext_equal]
pub struct TeamDraftModel {
    pub request: TeamCreateModel,
    pub context: ToolContextModel,
    pub safe_name: Seq<char>,
    pub lead_agent_id: Seq<char>,
    pub dir: PathBuf,
}

/// The model of a [`NamedTeam`].
#[verifier::ext_equal]
pub struct NamedTeamModel {
    pub request: TeamCreateModel,
    pub context: ToolContextModel,
    pub lead_agent_id: Seq<char>,
    pub name: Seq<char>,
    pub dir: PathBuf,
}

/// The model of a [`PreparedTeam`].
#[verifier::ext_equal]
pub struct PreparedTeamModel {
    pub team: NamedTeamModel,
    pub config: TeamConfigModel,
    pub config_path: PathBuf,
    pub results_path: PathBuf,
}

/// The model of an [`AgentTask`].
#[verifier::ext_equal]
pub struct AgentTaskModel {
    pub name: Seq<char>,
    pub call: AgentCallModel,
    pub cancel: TokenModel,
}

/// The model of an [`AgentEnd`].
pub enum AgentEndModel {
    CancelledBeforeStart,
    Answered(Seq<char>),
    Cancelled,
    TimedOut,
}

impl View for TeamDraft {
    type V = TeamDraftModel;

    open spec fn view(&self) -> TeamDraftModel {
        TeamDraftModel {
            request: self.request@,
            context: self.context@,
            safe_name: self.safe_name@,
            lead_agent_id: self.lead_agent_id@,
            dir: self.dir,
        }
    }
}

impl View for NamedTeam {
    type V = NamedTeamModel;

    open spec fn view(&self) -> NamedTeamModel {
        NamedTeamModel {
            request: self.request@,
            context: self.context@,
            lead_agent_id: self.lead_agent_id@,
            name: self.name@,
            dir: self.dir,
        }
    }
}

impl View for PreparedTeam {
    type V = PreparedTeamModel;

    open spec fn view(&self) -> PreparedTeamModel {
        PreparedTeamModel {
            team: self.team@,
            config: self.config@,
            config_path: self.config_path,
            results_path: self.results_path,
        }
    }
}

impl View for AgentTask {
    type V = AgentTaskModel;

    open spec fn view(&self) -> AgentTaskModel {
        AgentTaskModel { name: self.name@, call: self.call@, cancel: token_model(self.cancel) }
    }
}

impl View for AgentEnd {
    type V = AgentEndModel;

    open spec fn view(&self) -> AgentEndModel {
        match self {
            AgentEnd::CancelledBeforeStart => AgentEndModel::CancelledBeforeStart,
            AgentEnd::Answered(text) => AgentEndModel::Answered(text@),
            AgentEnd::Cancelled => AgentEndModel::Cancelled,
            AgentEnd::TimedOut => AgentEndModel::TimedOut,
        }
    }
}

/// The models of a sequence of agents that are ready to run.
pub open spec fn agent_tasks(tasks: Seq<AgentTask>) -> Seq<AgentTaskModel> {
    tasks.map_values(|t: AgentTask| t@)
}

/// The handles that a sequence of agents watch.
pub open spec fn watched(tasks: Seq<AgentTask>) -> Seq<TokenModel> {
    tasks.map_values(|t: AgentTask| token_model(t.cancel))
}

/// The models of a sequence of ends.
pub open spec fn agent_ends(ends: Seq<AgentEnd>) -> Seq<AgentEndModel> {
    ends.map_values(|e: AgentEnd| e@)
}

/// What is answered where the user has no home directory.
pub open spec fn no_home_reply() -> ToolResultModel {
    error_reply("Could not determine home directory"@)
}

/// What is answered where teams are nested too deep.
pub open spec fn depth_refusal() -> Seq<char> {
    "TeamCreate recursion depth limit ("@ + decimal(MAX_TEAM_DEPTH as nat)
        + ") exceeded. Nested team creation beyond depth "@ + decimal(MAX_TEAM_DEPTH as nat)
        + " is not permitted."@
}

/// Why a team may not be created, if it may not.
pub open spec fn refusal(request: TeamCreateModel, context: ToolContextModel) -> Option<Seq<char>> {
    if blank(request.team_name) {
        Some("team_name is required for TeamCreate"@)
    } else if blank(request.task) {
        Some("task is required for TeamCreate"@)
    } else if context.team_depth >= MAX_TEAM_DEPTH {
        Some(depth_refusal())
    } else {
        None
    }
}

/// The draft of a team that may be created.
pub open spec fn draft_of(
    request: TeamCreateModel,
    context: ToolContextModel,
    home: PathBuf,
) -> TeamDraftModel {
    TeamDraftModel {
        request,
        context,
        safe_name: sanitized(request.team_name),
        lead_agent_id: "team-lead@"@ + sanitized(request.team_name),
        dir: team_path(home, request.team_name),
    }
}

/// The answer to a request for a team, up to where its directory is looked for.
pub open spec fn drafted(
    request: TeamCreateModel,
    context: ToolContextModel,
    home: Option<PathBuf>,
) -> Result<TeamDraftModel, ToolResultModel> {
    match (refusal(request, context), home) {
        (Some(text), _) => Err(error_reply(text)),
        (None, None) => Err(no_home_reply()),
        (None, Some(h)) => Ok(draft_of(request, context, h)),
    }
}

/// A team with a name and a directory.
pub open spec fn team_named(
    draft: TeamDraftModel,
    name: Seq<char>,
    dir: PathBuf,
) -> NamedTeamModel {
    NamedTeamModel {
        request: draft.request,
        context: draft.context,
        lead_agent_id: draft.lead_agent_id,
        name,
        dir,
    }
}

/// The team that a draft becomes: under its own name if its directory is free, under a name with
/// a suffix out of `clash` if it is taken.
pub open spec fn named(
    draft: TeamDraftModel,
    clash: Option<Seq<u8>>,
    home: Option<PathBuf>,
) -> Result<NamedTeamModel, ToolResultModel> {
    match (clash, home) {
        (None, _) => Ok(team_named(draft, draft.safe_name, draft.dir)),
        (Some(_), None) => Err(no_home_reply()),
        (Some(id), Some(h)) => {
            let name = distinct_name(draft.safe_name, id);
            Ok(team_named(draft, name, team_path(h, name)))
        },
    }
}

/// Whether a draft is settled by the uuid and the home directory that it ought to be settled by:
/// where its directory is taken, by a uuid that was drawn at random and by the home directory
/// that was found; else by neither.
pub open spec fn settled_by(
    taken: bool,
    clash: Option<[u8; 16]>,
    home: Option<PathBuf>,
) -> bool {
    &&& taken == (clash is Some)
    &&& clash matches Some(id) ==> drawn_at_random(id)
    &&& taken ==> call_ensures(dirs::home_dir, (), home)
}

/// Whether a directory is another one than that of a draft, where that one is taken.
pub open spec fn leaves_taken_directory(
    draft: TeamDraft,
    clash: Option<[u8; 16]>,
    home: Option<PathBuf>,
    dir: PathBuf,
) -> bool {
    match (clash, home) {
        (Some(_), Some(h)) => dir != team_path(h, draft.safe_name@),
        _ => true,
    }
}

/// The entry of an agent in the configuration of its team.
pub open spec fn member_of(
    agent: AgentSpecModel,
    index: nat,
    team_name: Seq<char>,
    now: u64,
) -> TeamMemberModel {
    TeamMemberModel {
        agent_id: "agent-"@ + decimal(index) + "@"@ + team_name,
        name: agent.name,
        role: role_of(agent),
        joined_at: now,
        tools: agent.tools,
    }
}

/// The entries of the agents of a team.
pub open spec fn members_of(
    agents: Seq<AgentSpecModel>,
    team_name: Seq<char>,
    now: u64,
) -> Seq<TeamMemberModel> {
    Seq::new(agents.len(), |i: int| member_of(agents[i], i as nat, team_name, now))
}

/// The configuration of a team.
pub open spec fn config_of(team: NamedTeamModel, now: u64) -> TeamConfigModel {
    TeamConfigModel {
        name: team.name,
        task: team.request.task,
        description: team.request.description,
        created_at: now,
        lead_agent_id: team.lead_agent_id,
        lead_session_id: team.context.session_id,
        parallel: team.request.parallel,
        members: members_of(team.request.agents, team.name, now),
    }
}

/// A team with its configuration and the places of its two files.
pub open spec fn prepared(team: NamedTeamModel, now: u64) -> PreparedTeamModel {
    PreparedTeamModel {
        team,
        config: config_of(team, now),
        config_path: path_join(team.dir, "config.json"@),
        results_path: path_join(team.dir, "results.json"@),
    }
}

/// What is answered where a configuration was not written.
pub open spec fn config_failure(error: ConfigError) -> ToolResultModel {
    match error {
        ConfigError::Serialise(cause) => error_reply("Serialisation error: "@ + cause@),
        ConfigError::Write(cause) => error_reply("Failed to write config.json: "@ + cause@),
    }
}

/// The system prompt of an agent.
pub open spec fn system_prompt(
    name: Seq<char>,
    team_name: Seq<char>,
    role: Seq<char>,
) -> Seq<char> {
    "You are agent '"@ + name + "' on team '"@ + team_name + "'.  Your role: "@ + role
        + ".\nWork on the assigned task thoroughly and return your complete findings."@
}

/// The surroundings of the agents of a team: one level deeper than those of the team.
pub open spec fn nested(context: ToolContextModel) -> ToolContextModel {
    ToolContextModel {
        session_id: context.session_id,
        team_depth: (context.team_depth + 1) as u32,
    }
}

/// An agent of a team, ready to run.
pub open spec fn task_for(
    agent: AgentSpecModel,
    team: NamedTeamModel,
    token: TokenModel,
) -> AgentTaskModel {
    AgentTaskModel {
        name: agent.name,
        call: AgentCallModel {
            description: team.name + "/"@ + agent.name,
            prompt: task_of(agent, team.request.task),
            tools: agent.tools,
            system: Some(system_prompt(agent.name, team.name, role_of(agent))),
            max_turns: Some(AGENT_MAX_TURNS),
            ctx: nested(team.context),
        },
        cancel: token,
    }
}

/// The agents of a team, ready to run, each with a handle.
pub open spec fn tasks_for(
    team: NamedTeamModel,
    tokens: Seq<TokenModel>,
) -> Seq<AgentTaskModel> {
    Seq::new(
        team.request.agents.len(),
        |i: int| task_for(team.request.agents[i], team, tokens[i]),
    )
}

/// Whether an agent may be started, of `total` agents of which some were started and some have
/// ended: any that is left where the agents run side by side, one at a time where they do not.
pub open spec fn start_allowed(parallel: bool, started: nat, ended: nat, total: nat) -> bool {
    started < total && (parallel || started == ended)
}

/// What an agent is taken to have said, by how it ended.
pub open spec fn output_of(name: Seq<char>, end: AgentEndModel) -> Seq<char> {
    match end {
        AgentEndModel::CancelledBeforeStart => "[Cancelled before start]"@,
        AgentEndModel::Answered(text) => text,
        AgentEndModel::Cancelled => "[Agent cancelled by TeamDelete]"@,
        AgentEndModel::TimedOut => "[Agent '"@ + name + "' timed out after "@ + decimal(
            AGENT_TIMEOUT_SECS as nat,
        ) + "s]"@,
    }
}

/// What the agents of a team came back with, in the order of the agents.
pub open spec fn results_of(
    agents: Seq<AgentSpecModel>,
    ends: Seq<AgentEndModel>,
) -> Seq<AgentResultModel> {
    Seq::new(
        agents.len(),
        |i: int|
            AgentResultModel { agent: agents[i].name, output: output_of(agents[i].name, ends[i]) },
    )
}

/// The results one after the other, each under a heading with the name of its agent.
pub open spec fn sections(results: Seq<AgentResultModel>) -> Seq<char>
    decreases results.len(),
{
    if results.len() == 0 {
        Seq::empty()
    } else {
        sections(results.drop_last()) + "## Agent: "@ + results.last().agent + "\n\n"@
            + results.last().output + "\n\n"@
    }
}

/// A result as a JSON value.
pub open spec fn result_json(result: AgentResultModel) -> JsonModel {
    JsonModel::Object(
        no_entries().insert("agent"@, JsonModel::Text(result.agent)).insert(
            "output"@,
            JsonModel::Text(result.output),
        ),
    )
}

/// Results as JSON values.
pub open spec fn results_json(results: Seq<AgentResultModel>) -> Seq<JsonModel> {
    results.map_values(|r: AgentResultModel| result_json(r))
}

/// What is answered of a team, whether it has agents or not.
pub open spec fn team_json(
    team: PreparedTeamModel,
    spawned: nat,
) -> Map<Seq<char>, JsonModel> {
    no_entries().insert("team_name"@, JsonModel::Text(team.team.name)).insert(
        "team_file_path"@,
        JsonModel::Text(path_text(team.config_path)),
    ).insert("lead_agent_id"@, JsonModel::Text(team.team.lead_agent_id)).insert(
        "agents_spawned"@,
        JsonModel::Number(decimal(spawned)),
    )
}

/// The answer for a team without agents.
pub open spec fn idle_reply(team: PreparedTeamModel) -> ToolResultModel {
    success_reply(
        json_text(
            JsonModel::Object(
                team_json(team, 0).insert("results"@, JsonModel::List(Seq::empty())),
            ),
        ),
    )
}

/// The answer for a team whose agents have ended.
pub open spec fn done_reply(
    team: PreparedTeamModel,
    results: Seq<AgentResultModel>,
) -> ToolResultModel {
    success_reply(
        json_text(
            JsonModel::Object(
                team_json(team, results.len()).insert(
                    "parallel"@,
                    JsonModel::Bool(team.team.request.parallel),
                ).insert("results"@, JsonModel::List(results_json(results))).insert(
                    "aggregated_output"@,
                    JsonModel::Text(trimmed(sections(results))),
                ),
            ),
        ),
    )
}

/// The contents of the file of results: nothing, where the serializer gives no text.
pub open spec fn results_file(results: Seq<AgentResultModel>) -> Seq<char> {
    match json_list_pretty(results_json(results)) {
        Some(text) => text,
        None => Seq::empty(),
    }
}

/// The schema of one agent in the input of the tool.
pub open spec fn agent_schema() -> JsonModel {
    object_schema(
        no_entries().insert("name"@, JsonModel::Object(typed("string"@))).insert(
            "role"@,
            JsonModel::Object(described("string"@, "Role/persona description."@)),
        ).insert(
            "tools"@,
            JsonModel::Object(
                typed("array"@).insert("items"@, JsonModel::Object(typed("string"@))).insert(
                    "description"@,
                    JsonModel::Text("Allowed tool names.  Omit to use all tools."@),
                ),
            ),
        ).insert(
            "task"@,
            JsonModel::Object(
                described(
                    "string"@,
                    "Per-agent task override.  Falls back to top-level task."@,
                ),
            ),
        ),
        seq![JsonModel::Text("name"@)],
    )
}

/// The properties in the input of the tool.
pub open spec fn create_properties() -> Map<Seq<char>, JsonModel> {
    no_entries().insert(
        "team_name"@,
        JsonModel::Object(described("string"@, "Name for the new team."@)),
    ).insert(
        "task"@,
        JsonModel::Object(described("string"@, "The shared task all agents should work on."@)),
    ).insert(
        "agents"@,
        JsonModel::Object(
            described("array"@, "Agent specifications.  Each agent runs independently."@).insert(
                "items"@,
                agent_schema(),
            ),
        ),
    ).insert(
        "parallel"@,
        JsonModel::Object(
            described(
                "boolean"@,
                "Run all agents in parallel (default: true).  Set false for sequential."@,
            ),
        ),
    ).insert(
        "description"@,
        JsonModel::Object(
            described("string"@, "Optional team description stored in config."@),
        ),
    )
}

/// The names of the properties that the input of the tool must have.
pub open spec fn create_required() -> Seq<JsonModel> {
    seq![JsonModel::Text("team_name"@), JsonModel::Text("task"@)]
}

/// The model of an answer that is a value or a reply.
pub open spec fn outcome<T: View>(r: Result<T, ToolResult>) -> Result<T::V, ToolResultModel> {
    match r {
        Ok(value) => Ok(value@),
        Err(reply) => Err(reply@),
    }
}

fn agent_schema_value() -> (value: serde_json::Value)
    ensures
        json_model(value) == agent_schema(),
{
    let mut tools = typed_fields("array");
    put_field(&mut tools, "items", json_object(typed_fields("string")));
    put_field(
        &mut tools,
        "description",
        text_value("Allowed tool names.  Omit to use all tools."),
    );
    let mut properties = no_fields();
    put_field(&mut properties, "name", json_object(typed_fields("string")));
    put_field(
        &mut properties,
        "role",
        json_object(described_fields("string", "Role/persona description.")),
    );
    put_field(&mut properties, "tools", json_object(tools));
    put_field(
        &mut properties,
        "task",
        json_object(
            described_fields("string", "Per-agent task override.  Falls back to top-level task."),
        ),
    );
    let mut required: Vec<serde_json::Value> = Vec::new();
    required.push(text_value("name"));
    assert(json_models(required@) =~= seq![JsonModel::Text("name"@)]);
    object_schema_value(properties, required)
}

impl TeamCreateTool {
    /// The name by which the tool is called.
    pub fn name(&self) -> (name: &str)
        ensures
            name@ == "TeamCreate"@,
    {
        "TeamCreate"
    }

    /// What the tool is for.
    pub fn description(&self) -> (text: &str)
        ensures
            text@
                == "Create a named team of agents that collectively work on a shared task. Each agent gets a restricted tool list and its own prompt. Agents run in parallel by default and their outputs are aggregated. Input: { team_name, task, agents: [{name, role?, tools?, task?}], parallel?, description? }"@,
    {
        "Create a named team of agents that collectively work on a shared task. Each agent gets a restricted tool list and its own prompt. Agents run in parallel by default and their outputs are aggregated. Input: { team_name, task, agents: [{name, role?, tools?, task?}], parallel?, description? }"
    }

    /// What the tool asks leave for.
    pub fn permission_level(&self) -> (level: PermissionLevel)
        ensures
            level == PermissionLevel::Write,
    {
        PermissionLevel::Write
    }

    /// The JSON schema of the input of the tool.
    pub fn input_schema(&self) -> (schema: serde_json::Value)
        ensures
            json_model(schema) == object_schema(create_properties(), create_required()),
    {
        let mut agents = described_fields(
            "array",
            "Agent specifications.  Each agent runs independently.",
        );
        put_field(&mut agents, "items", agent_schema_value());
        let mut properties = no_fields();
        put_field(
            &mut properties,
            "team_name",
            json_object(described_fields("string", "Name for the new team.")),
        );
        put_field(
            &mut properties,
            "task",
            json_object(
                described_fields("string", "The shared task all agents should work on."),
            ),
        );
        put_field(&mut properties, "agents", json_object(agents));
        put_field(
            &mut properties,
            "parallel",
            json_object(
                described_fields(
                    "boolean",
                    "Run all agents in parallel (default: true).  Set false for sequential.",
                ),
            ),
        );
        put_field(
            &mut properties,
            "description",
            json_object(
                described_fields("string", "Optional team description stored in config."),
            ),
        );
        let mut required: Vec<serde_json::Value> = Vec::new();
        required.push(text_value("team_name"));
        required.push(text_value("task"));
        assert(json_models(required@) =~= create_required());
        object_schema_value(properties, required)
    }

    /// Decides whether a team may be created, and drafts it if so.
    pub fn draft_in(
        &self,
        request: TeamCreateInput,
        context: ToolContext,
        home: Option<PathBuf>,
    ) -> (r: Result<TeamDraft, ToolResult>)
        ensures
            outcome(r) == drafted(request@, context@, home),
            r matches Ok(draft) ==> draft.request == request && draft.context == context,
    {
        if is_blank(request.team_name.as_str()) {
            return Err(ToolResult::error("team_name is required for TeamCreate".to_owned()));
        }
        if is_blank(request.task.as_str()) {
            return Err(ToolResult::error("task is required for TeamCreate".to_owned()));
        }
        if context.team_depth >= MAX_TEAM_DEPTH {
            return Err(ToolResult::error(depth_refusal_text()));
        }
        let safe_name = sanitize_name(request.team_name.as_str());
        let lead_agent_id = "team-lead@".to_owned().concat(safe_name.as_str());
        match team_dir_in(home, request.team_name.as_str()) {
            Some(dir) => Ok(TeamDraft { request, context, safe_name, lead_agent_id, dir }),
            None => Err(ToolResult::error("Could not determine home directory".to_owned())),
        }
    }

    /// Decides whether a team may be created, and drafts it below the home directory of the
    /// current user if so.
    pub fn draft(&self, request: TeamCreateInput, context: ToolContext) -> (r: Result<
        TeamDraft,
        ToolResult,
    >)
        ensures
            exists|home: Option<PathBuf>|
                call_ensures(dirs::home_dir, (), home) && outcome(r) == drafted(
                    request@,
                    context@,
                    home,
                ),
            r matches Ok(draft) ==> draft.request == request && draft.context == context,
    {
        self.draft_in(request, context, dirs::home_dir())
    }

    /// Gives a draft its name and its directory. `clash` is a uuid where the directory of the
    /// draft is taken.
    pub fn settle_in(
        &self,
        draft: TeamDraft,
        clash: Option<[u8; 16]>,
        home: Option<PathBuf>,
    ) -> (r: Result<NamedTeam, ToolResult>)
        ensures
            outcome(r) == named(draft@, id_bytes(clash), home),
            r matches Ok(team) ==> leaves_taken_directory(draft, clash, home, team.dir),
            r matches Ok(team) ==> team.request == draft.request && team.context == draft.context,
    {
        let TeamDraft { request, context, safe_name, lead_agent_id, dir } = draft;
        match clash {
            None => Ok(NamedTeam { request, context, lead_agent_id, name: safe_name, dir }),
            Some(id) => {
                let suffix = name_suffix(&id);
                let mut name = safe_name.clone();
                name.append("-");
                name.append(suffix.as_str());
                proof {
                    law_suffix(id@);
                    assert(sanitized(name@).len() != sanitized(safe_name@).len());
                }
                match team_dir_in(home, name.as_str()) {
                    Some(dir) => {
                        Ok(NamedTeam { request, context, lead_agent_id, name, dir })
                    },
                    None => Err(
                        ToolResult::error("Could not determine home directory".to_owned()),
                    ),
                }
            },
        }
    }

    /// Gives a draft its name and its directory, by whether the directory of the draft is taken.
    pub fn settle(&self, draft: TeamDraft, taken: bool) -> (r: Result<NamedTeam, ToolResult>)
        ensures
            exists|clash: Option<[u8; 16]>, home: Option<PathBuf>|
                #![trigger named(draft@, id_bytes(clash), home)]
                settled_by(taken, clash, home) && outcome(r) == named(
                    draft@,
                    id_bytes(clash),
                    home,
                ) && (r matches Ok(team) ==> leaves_taken_directory(draft, clash, home, team.dir)),
            r matches Ok(team) ==> team.request == draft.request && team.context == draft.context,
    {
        let clash: Option<[u8; 16]> = if taken {
            Some(draw_id())
        } else {
            None
        };
        let home: Option<PathBuf> = if taken {
            dirs::home_dir()
        } else {
            None
        };
        let r = self.settle_in(draft, clash, home);
        assert(outcome(r) == named(draft@, id_bytes(clash), home));
        r
    }

    /// Writes up the configuration of a team whose directory was made, as of `now`.
    pub fn prepare_at(&self, team: NamedTeam, made: Result<(), String>, now: u64) -> (r: Result<
        PreparedTeam,
        ToolResult,
    >)
        ensures
            outcome(r) == (match made {
                Ok(_) => Ok(prepared(team@, now)),
                Err(cause) => Err(error_reply("Failed to create team directory: "@ + cause@)),
            }),
            r matches Ok(ready) ==> ready.team == team,
    {
        if let Err(cause) = made {
            return Err(ToolResult::failure("Failed to create team directory: ", cause.as_str()));
        }
        let config = team_config(&team, now);
        let config_path = join_path(&team.dir, "config.json");
        let results_path = join_path(&team.dir, "results.json");
        Ok(PreparedTeam { team, config, config_path, results_path })
    }

    /// Writes up the configuration of a team whose directory was made.
    pub fn prepare(&self, team: NamedTeam, made: Result<(), String>) -> (r: Result<
        PreparedTeam,
        ToolResult,
    >)
        ensures
            match made {
                Ok(_) => exists|now: u64|
                    call_ensures(now_millis, (), now) && outcome(r) == Ok::<_, ToolResultModel>(
                        prepared(team@, now),
                    ),
                Err(cause) => outcome(r) == Err::<PreparedTeamModel, _>(
                    error_reply("Failed to create team directory: "@ + cause@),
                ),
            },
            r matches Ok(ready) ==> ready.team == team,
    {
        let now = now_millis();
        self.prepare_at(team, made, now)
    }

    /// Goes on with a team whose configuration was written.
    pub fn config_written(&self, team: PreparedTeam, written: Result<(), ConfigError>) -> (r:
        Result<PreparedTeam, ToolResult>)
        ensures
            match written {
                Ok(_) => r == Ok::<PreparedTeam, ToolResult>(team),
                Err(error) => r matches Err(reply) && reply@ == config_failure(error),
            },
    {
        match written {
            Ok(_) => Ok(team),
            Err(ConfigError::Serialise(cause)) => Err(
                ToolResult::failure("Serialisation error: ", cause.as_str()),
            ),
            Err(ConfigError::Write(cause)) => Err(
                ToolResult::failure("Failed to write config.json: ", cause.as_str()),
            ),
        }
    }

    /// What stands in the file of results until the agents have ended.
    pub fn results_placeholder(&self) -> (text: String)
        ensures
            text@ == "[]"@,
    {
        "[]".to_owned()
    }

    /// Goes on with a team whose file of results was laid out: enters it among the active teams
    /// and readies its agents, if it has any.
    pub fn launch(
        &self,
        team: PreparedTeam,
        laid_out: Result<(), String>,
        registry: &mut TeamRegistry,
    ) -> (r: CreateStep)
        requires
            team.team.context.team_depth < MAX_TEAM_DEPTH,
        ensures
            match laid_out {
                Err(cause) => {
                    &&& r matches CreateStep::Reply(reply)
                    &&& reply@ == error_reply("Failed to write results.json: "@ + cause@)
                    &&& final(registry)@ == old(registry)@
                },
                Ok(_) => if team@.team.request.agents.len() == 0 {
                    &&& r matches CreateStep::Reply(reply)
                    &&& reply@ == idle_reply(team@)
                    &&& final(registry)@ == old(registry)@
                } else {
                    &&& r matches CreateStep::RunAgents(t, tasks)
                    &&& t == team
                    &&& agent_tasks(tasks@) == tasks_for(team@.team, watched(tasks@))
                    &&& unused(watched(tasks@), old(registry)@)
                    &&& final(registry)@ == old(registry)@.insert(
                        team@.team.name,
                        watched(tasks@),
                    )
                },
            },
    {
        if let Err(cause) = laid_out {
            return CreateStep::Reply(
                ToolResult::failure("Failed to write results.json: ", cause.as_str()),
            );
        }
        let count: usize = team.team.request.agents.len();
        if count == 0 {
            return CreateStep::Reply(idle_result(&team));
        }
        let tokens = registry.fresh_tokens(count);
        registry.enlist(team.team.name.as_str(), duplicate_tokens(&tokens));
        let tasks = ready_tasks(&team.team, &tokens);
        CreateStep::RunAgents(team, tasks)
    }

    /// Strikes a team whose agents have ended out of the active teams and reports what the
    /// agents came back with. There is one end for each agent, in the order of the agents.
    pub fn finish(
        &self,
        team: PreparedTeam,
        ends: Vec<AgentEnd>,
        registry: &mut TeamRegistry,
    ) -> (report: TeamReport)
        requires
            ends@.len() == team.team.request.agents@.len(),
        ensures
            final(registry)@ == old(registry)@.remove(team@.team.name),
            report.results_path == team.results_path,
            report.results_text@ == results_file(
                results_of(team@.team.request.agents, agent_ends(ends@)),
            ),
            report.reply@ == done_reply(
                team@,
                results_of(team@.team.request.agents, agent_ends(ends@)),
            ),
    {
        registry.release(team.team.name.as_str());
        let results = collect_results(&team.team.request.agents, &ends);
        let results_text = results_document(&results);
        let reply = done_result(&team, &results);
        TeamReport { results_path: team.results_path, results_text, reply }
    }
}

impl AgentTask {
    /// How the agent ends before it begins, if its cancellation has been requested.
    pub fn early_end_if(&self, cancelled: bool) -> (end: Option<AgentEnd>)
        ensures
            end == (if cancelled {
                Some(AgentEnd::CancelledBeforeStart)
            } else {
                None
            }),
    {
        if cancelled {
            Some(AgentEnd::CancelledBeforeStart)
        } else {
            None
        }
    }

    /// How the agent ends before it begins, if its team was deleted by now: what the handle of
    /// the agent answers decides.
    pub fn early_end(&self) -> (end: Option<AgentEnd>)
        ensures
            token_cancelled(self.cancel) ==> end == Some(AgentEnd::CancelledBeforeStart),
            exists|cancelled: bool| #[trigger]
                asked(self.cancel, cancelled) && end == (if cancelled {
                    Some(AgentEnd::CancelledBeforeStart)
                } else {
                    None
                }),
    {
        let none: Vec<CancellationToken> = Vec::new();
        self.early_end_after(&none)
    }

    /// How the agent ends before it begins, if its team was deleted by now. It ends so wherever
    /// its cancellation was requested through one of the handles in `stopped`.
    pub fn early_end_after(&self, stopped: &Vec<CancellationToken>) -> (end: Option<AgentEnd>)
        ensures
            token_cancelled(self.cancel) ==> end == Some(AgentEnd::CancelledBeforeStart),
            cancelled_among(token_models(stopped@), token_id(self.cancel)) ==> end == Some(
                AgentEnd::CancelledBeforeStart,
            ),
            exists|cancelled: bool| #[trigger]
                asked(self.cancel, cancelled) && end == (if cancelled {
                    Some(AgentEnd::CancelledBeforeStart)
                } else {
                    None
                }),
    {
        self.early_end_if(is_cancelled(&self.cancel, stopped))
    }
}

/// The bytes of a uuid, if there is one.
pub open spec fn id_bytes(clash: Option<[u8; 16]>) -> Option<Seq<u8>> {
    match clash {
        Some(id) => Some(id@),
        None => None,
    }
}

fn depth_refusal_text() -> (text: String)
    ensures
        text@ == depth_refusal(),
{
    let mut text = "TeamCreate recursion depth limit (".to_owned();
    text.append(decimal_text(MAX_TEAM_DEPTH as u64).as_str());
    text.append(") exceeded. Nested team creation beyond depth ");
    text.append(decimal_text(MAX_TEAM_DEPTH as u64).as_str());
    text.append(" is not permitted.");
    text
}

fn team_config(team: &NamedTeam, now: u64) -> (config: TeamConfig)
    ensures
        config@ == config_of(team@, now),
{
    let members = team_member_list(&team.request.agents, team.name.as_str(), now);
    TeamConfig {
        name: team.name.clone(),
        task: team.request.task.clone(),
        description: team.request.description.clone(),
        created_at: now,
        lead_agent_id: team.lead_agent_id.clone(),
        lead_session_id: team.context.session_id.clone(),
        parallel: team.request.parallel,
        members,
    }
}

fn team_member_list(agents: &Vec<AgentSpec>, team_name: &str, now: u64) -> (members: Vec<TeamMember>)
    ensures
        team_members(members@) == members_of(agent_specs(agents@), team_name@, now),
{
    let mut members: Vec<TeamMember> = Vec::new();
    let count: usize = agents.len();
    let mut i: usize = 0;
    while i < count
        invariant
            count == agents@.len(),
            i <= count,
            members@.len() == i,
            forall|k: int|
                0 <= k < i ==> (#[trigger] members@[k])@ == member_of(
                    agents@[k]@,
                    k as nat,
                    team_name@,
                    now,
                ),
        decreases count - i,
    {
        let mut agent_id = "agent-".to_owned();
        agent_id.append(decimal_text(i as u64).as_str());
        agent_id.append("@");
        agent_id.append(team_name);
        members.push(
            TeamMember {
                agent_id,
                name: agents[i].name.clone(),
                role: agents[i].effective_role(),
                joined_at: now,
                tools: agents[i].tool_list(),
            },
        );
        i = i + 1;
    }
    assert(team_members(members@) =~= members_of(agent_specs(agents@), team_name@, now));
    members
}

fn system_prompt_text(name: &str, team_name: &str, role: &str) -> (text: String)
    ensures
        text@ == system_prompt(name@, team_name@, role@),
{
    let mut text = "You are agent '".to_owned();
    text.append(name);
    text.append("' on team '");
    text.append(team_name);
    text.append("'.  Your role: ");
    text.append(role);
    text.append(".\nWork on the assigned task thoroughly and return your complete findings.");
    text
}

fn ready_task(agent: &AgentSpec, team: &NamedTeam, token: &CancellationToken) -> (task: AgentTask)
    requires
        team.context.team_depth < MAX_TEAM_DEPTH,
    ensures
        task@ == task_for(agent@, team@, token_model(*token)),
{
    let role = agent.effective_role();
    let mut description = team.name.clone();
    description.append("/");
    description.append(agent.name.as_str());
    let system = system_prompt_text(agent.name.as_str(), team.name.as_str(), role.as_str());
    let ctx = ToolContext {
        session_id: team.context.session_id.clone(),
        team_depth: team.context.team_depth + 1,
    };
    let call = AgentCall {
        description,
        prompt: agent.effective_task(team.request.task.as_str()),
        tools: agent.tool_list(),
        system: Some(system),
        max_turns: Some(AGENT_MAX_TURNS),
        ctx,
    };
    AgentTask { name: agent.name.clone(), call, cancel: token.clone() }
}

fn ready_tasks(team: &NamedTeam, tokens: &Vec<CancellationToken>) -> (tasks: Vec<AgentTask>)
    requires
        team.context.team_depth < MAX_TEAM_DEPTH,
        tokens@.len() == team.request.agents@.len(),
    ensures
        agent_tasks(tasks@) == tasks_for(team@, token_models(tokens@)),
        watched(tasks@) == token_models(tokens@),
{
    let mut tasks: Vec<AgentTask> = Vec::new();
    let count: usize = team.request.agents.len();
    let mut i: usize = 0;
    while i < count
        invariant
            count == team.request.agents@.len(),
            tokens@.len() == count,
            team.context.team_depth < MAX_TEAM_DEPTH,
            i <= count,
            tasks@.len() == i,
            forall|k: int|
                0 <= k < i ==> (#[trigger] tasks@[k])@ == task_for(
                    team.request.agents@[k]@,
                    team@,
                    token_model(tokens@[k]),
                ),
        decreases count - i,
    {
        tasks.push(ready_task(&team.request.agents[i], team, &tokens[i]));
        i = i + 1;
    }
    assert(agent_tasks(tasks@) =~= tasks_for(team@, token_models(tokens@)));
    assert forall|k: int| 0 <= k < count implies watched(tasks@)[k] == token_models(tokens@)[k] by {
        assert(tasks@[k]@.cancel == token_model(tokens@[k]));
    }
    assert(watched(tasks@) =~= token_models(tokens@));
    tasks
}

/// Whether a further agent may be started, of `total` agents of which some were started and some
/// have ended.
pub fn may_start(parallel: bool, started: usize, ended: usize, total: usize) -> (r: bool)
    ensures
        r == start_allowed(parallel, started as nat, ended as nat, total as nat),
{
    started < total && (parallel || started == ended)
}

/// What an agent is taken to have said, by how it ended.
pub fn agent_output(name: &str, end: &AgentEnd) -> (text: String)
    ensures
        text@ == output_of(name@, end@),
{
    match end {
        AgentEnd::CancelledBeforeStart => "[Cancelled before start]".to_owned(),
        AgentEnd::Answered(text) => text.clone(),
        AgentEnd::Cancelled => "[Agent cancelled by TeamDelete]".to_owned(),
        AgentEnd::TimedOut => {
            let mut text = "[Agent '".to_owned();
            text.append(name);
            text.append("' timed out after ");
            text.append(decimal_text(AGENT_TIMEOUT_SECS).as_str());
            text.append("s]");
            text
        },
    }
}

fn collect_results(agents: &Vec<AgentSpec>, ends: &Vec<AgentEnd>) -> (results: Vec<AgentResult>)
    requires
        ends@.len() == agents@.len(),
    ensures
        agent_results(results@) == results_of(agent_specs(agents@), agent_ends(ends@)),
{
    let mut results: Vec<AgentResult> = Vec::new();
    let count: usize = agents.len();
    let mut i: usize = 0;
    while i < count
        invariant
            count == agents@.len(),
            ends@.len() == count,
            i <= count,
            results@.len() == i,
            forall|k: int|
                0 <= k < i ==> (#[trigger] results@[k])@ == (AgentResultModel {
                    agent: agents@[k].name@,
                    output: output_of(agents@[k].name@, ends@[k]@),
                }),
        decreases count - i,
    {
        let output = agent_output(agents[i].name.as_str(), &ends[i]);
        results.push(AgentResult { agent: agents[i].name.clone(), output });
        i = i + 1;
    }
    assert(agent_results(results@) =~= results_of(agent_specs(agents@), agent_ends(ends@)));
    results
}

fn result_values(results: &Vec<AgentResult>) -> (values: Vec<serde_json::Value>)
    ensures
        json_models(values@) == results_json(agent_results(results@)),
{
    let mut values: Vec<serde_json::Value> = Vec::new();
    let count: usize = results.len();
    let mut i: usize = 0;
    while i < count
        invariant
            count == results@.len(),
            i <= count,
            values@.len() == i,
            forall|k: int|
                0 <= k < i ==> json_model(#[trigger] values@[k]) == result_json(results@[k]@),
        decreases count - i,
    {
        let mut fields = no_fields();
        put_field(&mut fields, "agent", json_string(results[i].agent.clone()));
        put_field(&mut fields, "output", json_string(results[i].output.clone()));
        values.push(json_object(fields));
        i = i + 1;
    }
    assert(json_models(values@) =~= results_json(agent_results(results@)));
    values
}

/// The contents of the file of results.
pub fn results_document(results: &Vec<AgentResult>) -> (text: String)
    ensures
        text@ == results_file(agent_results(results@)),
{
    let values = result_values(results);
    match pretty_text(&values) {
        Ok(text) => text,
        Err(_) => String::new(),
    }
}

/// The results one after the other, each under a heading with the name of its agent.
pub fn result_sections(results: &Vec<AgentResult>) -> (text: String)
    ensures
        text@ == sections(agent_results(results@)),
{
    let mut text = String::new();
    let count: usize = results.len();
    let mut i: usize = 0;
    let ghost all = agent_results(results@);
    while i < count
        invariant
            count == results@.len(),
            i <= count,
            all == agent_results(results@),
            text@ == sections(all.take(i as int)),
        decreases count - i,
    {
        assert(all.take(i + 1).drop_last() == all.take(i as int));
        text.append("## Agent: ");
        text.append(results[i].agent.as_str());
        text.append("\n\n");
        text.append(results[i].output.as_str());
        text.append("\n\n");
        i = i + 1;
    }
    assert(all.take(count as int) == all);
    text
}

fn team_fields(team: &PreparedTeam, spawned: usize) -> (fields: serde_json::Map<
    String,
    serde_json::Value,
>)
    ensures
        json_fields(fields) == team_json(team@, spawned as nat),
{
    let mut fields = no_fields();
    put_field(&mut fields, "team_name", json_string(team.team.name.clone()));
    put_field(&mut fields, "team_file_path", json_string(lossy_path_text(&team.config_path)));
    put_field(&mut fields, "lead_agent_id", json_string(team.team.lead_agent_id.clone()));
    put_field(&mut fields, "agents_spawned", json_number(spawned));
    fields
}

fn idle_result(team: &PreparedTeam) -> (reply: ToolResult)
    ensures
        reply@ == idle_reply(team@),
{
    let none: Vec<serde_json::Value> = Vec::new();
    assert(json_models(none@) == Seq::<JsonModel>::empty());
    let mut fields = team_fields(team, 0);
    put_field(&mut fields, "results", json_array(none));
    ToolResult::success(compact_text(&json_object(fields)))
}

fn done_result(team: &PreparedTeam, results: &Vec<AgentResult>) -> (reply: ToolResult)
    ensures
        reply@ == done_reply(team@, agent_results(results@)),
{
    let aggregated = result_sections(results);
    let mut fields = team_fields(team, results.len());
    put_field(&mut fields, "parallel", json_bool(team.team.request.parallel));
    put_field(&mut fields, "results", json_array(result_values(results)));
    put_field(&mut fields, "aggregated_output", json_string(trim(aggregated.as_str())));
    ToolResult::success(compact_text(&json_object(fields)))
}

} // verus!
