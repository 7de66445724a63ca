//! What the tool that creates teams does with a request, step by step: which team it becomes, what
//! is written down of it and what its agents are started with.

use std::path::PathBuf;
use vstd::prelude::*;

use crate::clock::now_millis;
use crate::create::agent_tasks;
use crate::create::depth_refusal;
use crate::create::drafted;
use crate::create::id_bytes;
use crate::create::member_of;
use crate::create::members_of;
use crate::create::named;
use crate::create::outcome;
use crate::create::prepared;
use crate::create::settled_by;
use crate::create::task_for;
use crate::create::tasks_for;
use crate::create::watched;
use crate::create::AgentTask;
use crate::create::ConfigError;
use crate::create::CreateStep;
use crate::create::NamedTeam;
use crate::create::PreparedTeam;
use crate::create::TeamCreateTool;
use crate::create::TeamDraft;
use crate::laws::places::begins_of;
use crate::laws::places::law_suffix_spells_three_bytes;
use crate::names::drawn_at_random;
use crate::names::path_join;
use crate::names::sanitized;
use crate::names::suffix_of;
use crate::registry::has_id;
use crate::registry::token_cancelled;
use crate::registry::token_id;
use crate::registry::token_model;
use crate::registry::unused;
use crate::registry::Teams;
use crate::registry::TeamRegistry;
use crate::registry::TokenModel;
use crate::schema::agent_specs;
use crate::schema::team_members;
use crate::schema::AgentSpec;
use crate::schema::TeamConfig;
use crate::schema::TeamCreateInput;
use crate::schema::TeamMember;
use crate::steps::create_begins;
use crate::steps::create_follows;
use crate::steps::CreateEvent;
use crate::text::blank;
use crate::text::decimal;
use crate::tool::ToolContext;
use crate::tool::ToolResult;

verus! {

/// Whether a reply is an error with a text.
pub open spec fn fails_with(reply: ToolResult, text: Seq<char>) -> bool {
    reply.is_error && reply.content@ == text
}

/// The first reason for which a request is turned down, if there is one.
pub open spec fn first_objection(
    request: TeamCreateInput,
    context: ToolContext,
    home: Option<PathBuf>,
) -> Option<Seq<char>> {
    if blank(request.team_name@) {
        Some("team_name is required for TeamCreate"@)
    } else if blank(request.task@) {
        Some("task is required for TeamCreate"@)
    } else if context.team_depth >= 3 {
        Some(
            "TeamCreate recursion depth limit (3) exceeded. Nested team creation beyond depth 3 is not permitted."@,
        )
    } else if home is None {
        Some("Could not determine home directory"@)
    } else {
        None
    }
}

/// Whether a draft is that of a request: it keeps the request and the context, is named like the
/// team, sanitized, has its lead named after it and its directory below the directory of all teams.
pub open spec fn drafts(
    request: TeamCreateInput,
    context: ToolContext,
    home: Option<PathBuf>,
    draft: TeamDraft,
) -> bool {
    &&& home matches Some(h)
    &&& draft.request == request
    &&& draft.context == context
    &&& draft.safe_name@ == sanitized(request.team_name@)
    &&& draft.lead_agent_id@ == "team-lead@"@ + sanitized(request.team_name@)
    &&& draft.dir == path_join(
        path_join(path_join(h, ".claurst"@), "teams"@),
        sanitized(request.team_name@),
    )
}

proof fn lemma_depth_text()
    ensures
        depth_refusal()
            == "TeamCreate recursion depth limit (3) exceeded. Nested team creation beyond depth 3 is not permitted."@,
{
    reveal_strlit("TeamCreate recursion depth limit (");
    reveal_strlit(") exceeded. Nested team creation beyond depth ");
    reveal_strlit(" is not permitted.");
    reveal_strlit(
        "TeamCreate recursion depth limit (3) exceeded. Nested team creation beyond depth 3 is not permitted.",
    );
    assert(decimal(3) =~= seq!['3']);
    assert(depth_refusal()
        =~= "TeamCreate recursion depth limit (3) exceeded. Nested team creation beyond depth 3 is not permitted."@);
}

/// A request is turned down for the first of four reasons, in this order: no name, no task, teams
/// nested too deep, no home directory. Else it is drafted.
pub proof fn law_draft_in(
    tool: &TeamCreateTool,
    request: TeamCreateInput,
    context: ToolContext,
    home: Option<PathBuf>,
    r: Result<TeamDraft, ToolResult>,
)
    requires
        call_ensures(TeamCreateTool::draft_in, (tool, request, context, home), r),
    ensures
        match first_objection(request, context, home) {
            Some(text) => r matches Err(reply) && fails_with(reply, text),
            None => r matches Ok(draft) && drafts(request, context, home, draft),
        },
{
    lemma_depth_text();
    if let Err(reply) = r {
        assert(reply.content@ == reply@.content && reply.is_error == reply@.is_error);
    }
}

/// A call starts with the draft of the request below the home directory of the user, or with the
/// reason for which the request is turned down.
pub proof fn law_begin(
    tool: &TeamCreateTool,
    request: TeamCreateInput,
    context: ToolContext,
    step: CreateStep,
)
    requires
        call_ensures(TeamCreateTool::begin, (tool, request, context), step),
    ensures
        exists|home: Option<PathBuf>| #[trigger]
            call_ensures(dirs::home_dir, (), home) && (match first_objection(
                request,
                context,
                home,
            ) {
                Some(text) => step matches CreateStep::Reply(reply) && fails_with(reply, text),
                None => step matches CreateStep::LookFor(draft) && drafts(
                    request,
                    context,
                    home,
                    draft,
                ),
            }),
{
    lemma_depth_text();
    let home = choose|home: Option<PathBuf>| #[trigger]
        call_ensures(dirs::home_dir, (), home) && create_begins(request, context, home, step);
    if let CreateStep::Reply(reply) = step {
        assert(reply.content@ == reply@.content && reply.is_error == reply@.is_error);
    }
}

/// The same holds of a draft that is made for the current user.
pub proof fn law_draft(
    tool: &TeamCreateTool,
    request: TeamCreateInput,
    context: ToolContext,
    r: Result<TeamDraft, ToolResult>,
)
    requires
        call_ensures(TeamCreateTool::draft, (tool, request, context), r),
    ensures
        exists|home: Option<PathBuf>| #[trigger]
            call_ensures(dirs::home_dir, (), home) && (match first_objection(
                request,
                context,
                home,
            ) {
                Some(text) => r matches Err(reply) && fails_with(reply, text),
                None => r matches Ok(draft) && drafts(request, context, home, draft),
            }),
{
    lemma_depth_text();
    let home = choose|home: Option<PathBuf>|
        call_ensures(dirs::home_dir, (), home) && outcome(r) == drafted(request@, context@, home);
    assert(call_ensures(dirs::home_dir, (), home));
    if let Err(reply) = r {
        assert(reply.content@ == reply@.content && reply.is_error == reply@.is_error);
    }
}

/// Whether a team keeps what its draft says of it: the request, the context and the lead.
pub open spec fn keeps(draft: TeamDraft, team: NamedTeam) -> bool {
    &&& team.request == draft.request
    &&& team.context == draft.context
    &&& team.lead_agent_id@ == draft.lead_agent_id@
}

/// Whether a team has the name of its draft with a hyphen and a suffix behind it, out of a uuid,
/// and the directory of that name.
pub open spec fn renamed(draft: TeamDraft, id: [u8; 16], home: PathBuf, team: NamedTeam) -> bool {
    exists|suffix: Seq<char>| #[trigger]
        begins_of(id@, suffix) && team.name@ == draft.safe_name@ + seq!['-'] + suffix && team.dir
            == path_join(
            path_join(path_join(home, ".claurst"@), "teams"@),
            sanitized(draft.safe_name@ + seq!['-'] + suffix),
        )
}

/// A draft whose directory is free becomes a team of its own name in that directory. One whose
/// directory is taken gets a suffix and the directory of the longer name, or an error where no
/// home directory is found.
pub proof fn law_settle_in(
    tool: &TeamCreateTool,
    draft: TeamDraft,
    clash: Option<[u8; 16]>,
    home: Option<PathBuf>,
    r: Result<NamedTeam, ToolResult>,
)
    requires
        call_ensures(TeamCreateTool::settle_in, (tool, draft, clash, home), r),
    ensures
        match (clash, home) {
            (None, _) => r matches Ok(team) && keeps(draft, team) && team.name@ == draft.safe_name@
                && team.dir == draft.dir,
            (Some(id), Some(h)) => r matches Ok(team) && keeps(draft, team) && renamed(
                draft,
                id,
                h,
                team,
            ),
            (Some(_), None) => r matches Err(reply) && fails_with(
                reply,
                "Could not determine home directory"@,
            ),
        },
{
    lemma_settled(draft, clash, home, r);
}

proof fn lemma_settled(
    draft: TeamDraft,
    clash: Option<[u8; 16]>,
    home: Option<PathBuf>,
    r: Result<NamedTeam, ToolResult>,
)
    requires
        outcome(r) == named(draft@, id_bytes(clash), home),
        r matches Ok(team) ==> team.request == draft.request && team.context == draft.context,
    ensures
        match (clash, home) {
            (None, _) => r matches Ok(team) && keeps(draft, team) && team.name@ == draft.safe_name@
                && team.dir == draft.dir,
            (Some(id), Some(h)) => r matches Ok(team) && keeps(draft, team) && renamed(
                draft,
                id,
                h,
                team,
            ),
            (Some(_), None) => r matches Err(reply) && fails_with(
                reply,
                "Could not determine home directory"@,
            ),
        },
{
    reveal_strlit("-");
    assert("-"@ =~= seq!['-']);
    if let Err(reply) = r {
        assert(reply.content@ == reply@.content && reply.is_error == reply@.is_error);
    }
    if let Some(id) = clash {
        law_suffix_spells_three_bytes(id@);
        assert(begins_of(id@, suffix_of(id@)));
    }
}

/// In a call, a free directory is made as it was drafted, and a taken one is left alone: the team
/// gets a suffix out of a uuid that was drawn at random.
pub proof fn law_found(
    tool: &TeamCreateTool,
    draft: TeamDraft,
    taken: bool,
    registry: &mut TeamRegistry,
    next: CreateStep,
)
    requires
        call_ensures(
            TeamCreateTool::advance,
            (tool, CreateStep::LookFor(draft), CreateEvent::Found(taken), registry),
            next,
        ),
    ensures
        final(registry)@ == old(registry)@,
        !taken ==> (next matches CreateStep::MakeDir(team) && keeps(draft, team) && team.name@
            == draft.safe_name@ && team.dir == draft.dir),
        taken ==> exists|home: Option<PathBuf>, id: [u8; 16]|
            {
                &&& #[trigger] call_ensures(dirs::home_dir, (), home)
                &&& #[trigger] drawn_at_random(id)
                &&& match home {
                    Some(h) => next matches CreateStep::MakeDir(team) && keeps(draft, team)
                        && renamed(draft, id, h, team),
                    None => next matches CreateStep::Reply(reply) && fails_with(
                        reply,
                        "Could not determine home directory"@,
                    ),
                }
            },
{
    let (clash, home) = choose|clash: Option<[u8; 16]>, home: Option<PathBuf>|
        #![trigger named(draft@, id_bytes(clash), home)]
        settled_by(taken, clash, home) && (match named(draft@, id_bytes(clash), home) {
            Ok(team) => {
                &&& next matches CreateStep::MakeDir(t)
                &&& t@ == team
                &&& t.request == draft.request
                &&& t.context == draft.context
            },
            Err(reply) => next matches CreateStep::Reply(r) && r@ == reply,
        });
    assert(named(draft@, id_bytes(clash), home) is Ok ==> next is MakeDir);
    let r: Result<NamedTeam, ToolResult> = match next {
        CreateStep::MakeDir(team) => Ok(team),
        CreateStep::Reply(reply) => Err(reply),
        _ => arbitrary(),
    };
    lemma_settled(draft, clash, home, r);
    if taken {
        assert(drawn_at_random(clash->0));
        assert(call_ensures(dirs::home_dir, (), home));
    }
}

/// Whether a member of a configuration stands for an agent: under the name of the agent, with its
/// tools, its role or that of an assistant, its number in the team and the time of the
/// configuration.
pub open spec fn stands_for(
    member: TeamMember,
    agent: AgentSpec,
    i: int,
    team_name: Seq<char>,
    now: u64,
) -> bool {
    &&& member.name@ == agent.name@
    &&& member.tools.deep_view() == agent.tools.deep_view()
    &&& member.role@ == (match agent.role {
        Some(role) => role@,
        None => "assistant"@,
    })
    &&& member.agent_id@ == "agent-"@ + decimal(i as nat) + "@"@ + team_name
    &&& member.joined_at == now
}

/// Whether a configuration says of a team what was asked for, field by field, with one member for
/// each agent, in the order of the agents.
pub open spec fn agrees(config: TeamConfig, team: NamedTeam) -> bool {
    &&& config.name@ == team.name@
    &&& config.task@ == team.request.task@
    &&& config.description.deep_view() == team.request.description.deep_view()
    &&& config.parallel == team.request.parallel
    &&& config.lead_agent_id@ == team.lead_agent_id@
    &&& config.lead_session_id@ == team.context.session_id@
    &&& config.members@.len() == team.request.agents@.len()
    &&& forall|i: int|
        0 <= i < config.members@.len() ==> stands_for(
            #[trigger] config.members@[i],
            team.request.agents@[i],
            i,
            team.name@,
            config.created_at,
        )
}

/// Whether a team is ready to be written down: it is the team itself, with a configuration that
/// agrees with it, and its two files are in its directory.
pub open spec fn readied(team: NamedTeam, ready: PreparedTeam) -> bool {
    &&& ready.team == team
    &&& agrees(ready.config, team)
    &&& ready.config_path == path_join(team.dir, "config.json"@)
    &&& ready.results_path == path_join(team.dir, "results.json"@)
}

proof fn lemma_readied(team: NamedTeam, ready: PreparedTeam)
    requires
        ready.team == team,
        ready@ == prepared(team@, ready.config.created_at),
    ensures
        readied(team, ready),
{
    let config = ready.config;
    let now = config.created_at;
    let agents = team.request.agents@;
    assert(ready@.config == config@);
    assert(config@.members == team_members(config.members@));
    assert(team_members(config.members@) == members_of(agent_specs(agents), team.name@, now));
    assert(team_members(config.members@).len() == agent_specs(agents).len());
    assert forall|i: int| 0 <= i < config.members@.len() implies stands_for(
        #[trigger] config.members@[i],
        agents[i],
        i,
        team.name@,
        now,
    ) by {
        assert(team_members(config.members@)[i] == config.members@[i]@);
        assert(agent_specs(agents)[i] == agents[i]@);
        assert(config.members@[i]@ == member_of(agents[i]@, i as nat, team.name@, now));
        assert(agents[i]@.role == agents[i].role.deep_view());
    }
}

/// The configuration of a team agrees with the request, field by field, and is of the time that is
/// given. A directory that could not be made is reported.
pub proof fn law_prepare_at(
    tool: &TeamCreateTool,
    team: NamedTeam,
    made: Result<(), String>,
    now: u64,
    r: Result<PreparedTeam, ToolResult>,
)
    requires
        call_ensures(TeamCreateTool::prepare_at, (tool, team, made, now), r),
    ensures
        match made {
            Ok(_) => r matches Ok(ready) && readied(team, ready) && ready.config.created_at == now,
            Err(cause) => r matches Err(reply) && fails_with(
                reply,
                "Failed to create team directory: "@ + cause@,
            ),
        },
{
    match r {
        Ok(ready) => {
            assert(ready@.config.created_at == now);
            lemma_readied(team, ready);
        },
        Err(reply) => {
            assert(reply.content@ == reply@.content && reply.is_error == reply@.is_error);
        },
    }
}

/// So does the configuration that is made as of the present.
pub proof fn law_prepare(
    tool: &TeamCreateTool,
    team: NamedTeam,
    made: Result<(), String>,
    r: Result<PreparedTeam, ToolResult>,
)
    requires
        call_ensures(TeamCreateTool::prepare, (tool, team, made), r),
    ensures
        match made {
            Ok(_) => r matches Ok(ready) && readied(team, ready) && call_ensures(
                now_millis,
                (),
                ready.config.created_at,
            ),
            Err(cause) => r matches Err(reply) && fails_with(
                reply,
                "Failed to create team directory: "@ + cause@,
            ),
        },
{
    match r {
        Ok(ready) => {
            assert(made is Ok);
            let now = choose|now: u64|
                call_ensures(now_millis, (), now) && ready@ == prepared(team@, now);
            assert(ready@.config.created_at == now);
            lemma_readied(team, ready);
        },
        Err(reply) => {
            assert(reply.content@ == reply@.content && reply.is_error == reply@.is_error);
        },
    }
}

/// In a call, the configuration that is written once the directory was made agrees with the
/// request, field by field.
pub proof fn law_directory_made(
    tool: &TeamCreateTool,
    team: NamedTeam,
    made: Result<(), String>,
    registry: &mut TeamRegistry,
    next: CreateStep,
)
    requires
        call_ensures(
            TeamCreateTool::advance,
            (tool, CreateStep::MakeDir(team), CreateEvent::DirMade(made), registry),
            next,
        ),
    ensures
        final(registry)@ == old(registry)@,
        match made {
            Ok(_) => next matches CreateStep::WriteConfig(ready) && readied(team, ready)
                && call_ensures(now_millis, (), ready.config.created_at),
            Err(cause) => next matches CreateStep::Reply(reply) && fails_with(
                reply,
                "Failed to create team directory: "@ + cause@,
            ),
        },
{
    assert(create_follows(
        CreateStep::MakeDir(team),
        CreateEvent::DirMade(made),
        next,
        old(registry)@,
        final(registry)@,
    ));
    if let CreateStep::WriteConfig(ready) = next {
        lemma_readied(team, ready);
    }
    if let CreateStep::Reply(reply) = next {
        assert(reply.content@ == reply@.content && reply.is_error == reply@.is_error);
    }
}

/// A team whose configuration was written goes on as it is. A configuration that was not written
/// is reported by what went wrong.
pub proof fn law_configuration_written(
    tool: &TeamCreateTool,
    team: PreparedTeam,
    written: Result<(), ConfigError>,
    registry: &mut TeamRegistry,
    next: CreateStep,
    r: Result<PreparedTeam, ToolResult>,
)
    requires
        call_ensures(
            TeamCreateTool::advance,
            (tool, CreateStep::WriteConfig(team), CreateEvent::ConfigWritten(written), registry),
            next,
        ),
        call_ensures(TeamCreateTool::config_written, (tool, team, written), r),
    ensures
        final(registry)@ == old(registry)@,
        match written {
            Ok(_) => next == CreateStep::LayOutResults(team) && r == Ok::<
                PreparedTeam,
                ToolResult,
            >(team),
            Err(ConfigError::Serialise(cause)) => {
                &&& next matches CreateStep::Reply(reply)
                &&& fails_with(reply, "Serialisation error: "@ + cause@)
                &&& r matches Err(same)
                &&& fails_with(same, "Serialisation error: "@ + cause@)
            },
            Err(ConfigError::Write(cause)) => {
                &&& next matches CreateStep::Reply(reply)
                &&& fails_with(reply, "Failed to write config.json: "@ + cause@)
                &&& r matches Err(same)
                &&& fails_with(same, "Failed to write config.json: "@ + cause@)
            },
        },
{
    if let CreateStep::Reply(reply) = next {
        assert(reply.content@ == reply@.content && reply.is_error == reply@.is_error);
    }
    if let Err(reply) = r {
        assert(reply.content@ == reply@.content && reply.is_error == reply@.is_error);
    }
}

/// Whether an agent is started as its team asks: on its own task or else the shared one, with its
/// tools, told its name, its team and its role, with ten turns, one level deeper than the team and
/// in the same session.
pub open spec fn started_for(task: AgentTask, agent: AgentSpec, team: NamedTeam) -> bool {
    &&& task.name@ == agent.name@
    &&& task.call.prompt@ == (match agent.task {
        Some(own) => own@,
        None => team.request.task@,
    })
    &&& task.call.tools.deep_view() == agent.tools.deep_view()
    &&& task.call.description@ == team.name@ + "/"@ + agent.name@
    &&& task.call.system matches Some(system)
    &&& system@ == "You are agent '"@ + agent.name@ + "' on team '"@ + team.name@
        + "'.  Your role: "@ + (match agent.role {
        Some(role) => role@,
        None => "assistant"@,
    }) + ".\nWork on the assigned task thoroughly and return your complete findings."@
    &&& task.call.max_turns == Some(10u32)
    &&& task.call.ctx.session_id@ == team.context.session_id@
    &&& task.call.ctx.team_depth == team.context.team_depth + 1
}

/// Whether the agents of a team are ready to run: one for each agent, in their order, each started
/// as asked and with a handle of its own that nobody has used. The handles, in the same order, are
/// what the active teams hold under the name of the team, and every other team stays as it was.
pub open spec fn ready_to_run(
    team: NamedTeam,
    tasks: Seq<AgentTask>,
    before: Teams,
    after: Teams,
) -> bool {
    &&& tasks.len() == team.request.agents@.len()
    &&& forall|i: int|
        0 <= i < tasks.len() ==> started_for(#[trigger] tasks[i], team.request.agents@[i], team)
    &&& forall|i: int|
        0 <= i < tasks.len() ==> !token_cancelled((#[trigger] tasks[i]).cancel)
    &&& forall|i: int, j: int|
        0 <= i < j < tasks.len() ==> token_id((#[trigger] tasks[i]).cancel) != token_id(
            (#[trigger] tasks[j]).cancel,
        )
    &&& forall|i: int, name: Seq<char>, k: int|
        #![trigger tasks[i], before[name][k]]
        0 <= i < tasks.len() && before.dom().contains(name) && 0 <= k < before[name].len()
            ==> before[name][k].id != token_id(tasks[i].cancel)
    &&& after.dom().contains(team.name@)
    &&& after[team.name@].len() == tasks.len()
    &&& forall|i: int|
        0 <= i < tasks.len() ==> (#[trigger] after[team.name@][i]) == (TokenModel {
            id: token_id(tasks[i].cancel),
            cancelled: false,
        })
    &&& forall|name: Seq<char>|
        name != team.name@ ==> (#[trigger] after.dom().contains(name) <==> before.dom().contains(
            name,
        )) && (before.dom().contains(name) ==> after[name] == before[name])
}

proof fn lemma_ready_to_run(team: NamedTeam, tasks: Seq<AgentTask>, before: Teams, after: Teams)
    requires
        team.context.team_depth < 3,
        agent_tasks(tasks) == tasks_for(team@, watched(tasks)),
        unused(watched(tasks), before),
        after == before.insert(team.name@, watched(tasks)),
    ensures
        ready_to_run(team, tasks, before, after),
{
    let agents = team.request.agents@;
    assert(agent_tasks(tasks).len() == agent_specs(agents).len());
    assert forall|i: int| 0 <= i < tasks.len() implies started_for(
        #[trigger] tasks[i],
        agents[i],
        team,
    ) by {
        assert(agent_tasks(tasks)[i] == tasks[i]@);
        assert(agent_specs(agents)[i] == agents[i]@);
        assert(tasks[i]@ == task_for(agents[i]@, team@, watched(tasks)[i]));
        assert(tasks[i]@.call == tasks[i].call@);
        assert(tasks[i].call@.ctx == tasks[i].call.ctx@);
        assert(tasks[i].call@.system == tasks[i].call.system.deep_view());
    }
    assert forall|i: int| 0 <= i < tasks.len() implies !token_cancelled(
        (#[trigger] tasks[i]).cancel,
    ) by {
        assert(watched(tasks)[i] == token_model(tasks[i].cancel));
    }
    assert forall|i: int, j: int| 0 <= i < j < tasks.len() implies token_id(
        (#[trigger] tasks[i]).cancel,
    ) != token_id((#[trigger] tasks[j]).cancel) by {
        assert(watched(tasks)[i] == token_model(tasks[i].cancel));
        assert(watched(tasks)[j] == token_model(tasks[j].cancel));
    }
    assert forall|i: int, name: Seq<char>, k: int|
        #![trigger tasks[i], before[name][k]]
        0 <= i < tasks.len() && before.dom().contains(name) && 0 <= k
            < before[name].len() implies before[name][k].id != token_id(tasks[i].cancel) by {
        assert(watched(tasks)[i] == token_model(tasks[i].cancel));
        if before[name][k].id == watched(tasks)[i].id {
            assert(has_id(before[name], watched(tasks)[i].id));
        }
    }
    assert forall|i: int| 0 <= i < tasks.len() implies (#[trigger] after[team.name@][i]) == (
    TokenModel { id: token_id(tasks[i].cancel), cancelled: false }) by {
        assert(watched(tasks)[i] == token_model(tasks[i].cancel));
        assert(!token_cancelled(tasks[i].cancel));
    }
}

/// A team with agents has each of them started as asked: on its own task where it has one and on
/// the shared one where it has none, whatever its role and its tools are.
pub proof fn law_launch(
    tool: &TeamCreateTool,
    team: PreparedTeam,
    laid_out: Result<(), String>,
    registry: &mut TeamRegistry,
    next: CreateStep,
)
    requires
        team.team.context.team_depth < 3,
        call_ensures(TeamCreateTool::launch, (tool, team, laid_out, registry), next),
    ensures
        laid_out is Ok && team.team.request.agents@.len() > 0 ==> {
            &&& next matches CreateStep::RunAgents(same, tasks)
            &&& same == team
            &&& ready_to_run(team.team, tasks@, old(registry)@, final(registry)@)
        },
        laid_out is Err || team.team.request.agents@.len() == 0 ==> final(registry)@ == old(
            registry,
        )@,
        laid_out matches Err(cause) ==> (next matches CreateStep::Reply(reply) && fails_with(
            reply,
            "Failed to write results.json: "@ + cause@,
        )),
{
    if let CreateStep::RunAgents(same, tasks) = next {
        lemma_ready_to_run(team.team, tasks@, old(registry)@, final(registry)@);
    }
    if let CreateStep::Reply(reply) = next {
        assert(reply.content@ == reply@.content && reply.is_error == reply@.is_error);
    }
}

/// In a call, the agents are started as asked once the file of results was laid out.
pub proof fn law_results_laid_out(
    tool: &TeamCreateTool,
    team: PreparedTeam,
    laid_out: Result<(), String>,
    registry: &mut TeamRegistry,
    next: CreateStep,
)
    requires
        team.team.context.team_depth < 3,
        call_ensures(
            TeamCreateTool::advance,
            (tool, CreateStep::LayOutResults(team), CreateEvent::ResultsLaidOut(laid_out), registry),
            next,
        ),
    ensures
        laid_out is Ok && team.team.request.agents@.len() > 0 ==> {
            &&& next matches CreateStep::RunAgents(same, tasks)
            &&& same == team
            &&& ready_to_run(team.team, tasks@, old(registry)@, final(registry)@)
        },
        laid_out is Err || team.team.request.agents@.len() == 0 ==> final(registry)@ == old(
            registry,
        )@,
        laid_out matches Err(cause) ==> (next matches CreateStep::Reply(reply) && fails_with(
            reply,
            "Failed to write results.json: "@ + cause@,
        )),
{
    assert(create_follows(
        CreateStep::LayOutResults(team),
        CreateEvent::ResultsLaidOut(laid_out),
        next,
        old(registry)@,
        final(registry)@,
    ));
    if let CreateStep::RunAgents(same, tasks) = next {
        lemma_ready_to_run(team.team, tasks@, old(registry)@, final(registry)@);
    }
    if let CreateStep::Reply(reply) = next {
        assert(reply.content@ == reply@.content && reply.is_error == reply@.is_error);
    }
}

/// The task of an agent is its own where it has one, whatever the shared one is, and the shared
/// one where it has none, whatever else is said of the agent. Its role is its own or that of an
/// assistant, and its tools are those it was given.
pub proof fn law_own_or_shared(
    agent: &AgentSpec,
    team_task: &str,
    task: String,
    role: String,
    tools: Option<Vec<String>>,
)
    requires
        call_ensures(AgentSpec::effective_task, (agent, team_task), task),
        call_ensures(AgentSpec::effective_role, (agent,), role),
        call_ensures(AgentSpec::tool_list, (agent,), tools),
    ensures
        agent.task matches Some(own) ==> task@ == own@,
        agent.task is None ==> task@ == team_task@,
        agent.role matches Some(own) ==> role@ == own@,
        agent.role is None ==> role@ == "assistant"@,
        tools.deep_view() == agent.tools.deep_view(),
{
    assert(agent@.task == agent.task.deep_view());
    assert(agent@.role == agent.role.deep_view());
}

} // verus!
