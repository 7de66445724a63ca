//! What holds of the library as a whole.

pub mod answers;
pub mod calls;
pub mod creation;
pub mod deletion;
pub mod hosts;
pub mod places;
pub mod texts;

use std::path::PathBuf;
use vstd::prelude::*;

use crate::create::agent_ends;
use crate::create::agent_tasks;
use crate::create::config_of;
use crate::create::create_properties;
use crate::create::create_required;
use crate::create::done_reply;
use crate::create::drafted;
use crate::create::id_bytes;
use crate::create::leaves_taken_directory;
use crate::create::member_of;
use crate::create::members_of;
use crate::create::named;
use crate::create::nested;
use crate::create::no_home_reply;
use crate::create::refusal;
use crate::create::results_file;
use crate::create::results_of;
use crate::create::sections;
use crate::create::settled_by;
use crate::create::start_allowed;
use crate::create::tasks_for;
use crate::create::watched;
use crate::create::AgentEnd;
use crate::create::AgentEndModel;
use crate::create::AgentTask;
use crate::create::CreateStep;
use crate::create::NamedTeam;
use crate::create::NamedTeamModel;
use crate::create::PreparedTeam;
use crate::create::PreparedTeamModel;
use crate::create::TeamDraft;
use crate::create::MAX_TEAM_DEPTH;
use crate::delete::delete_properties;
use crate::delete::delete_required;
use crate::delete::teams_after;
use crate::delete::DeleteStep;
use crate::delete::DisbandedTeam;
use crate::json::JsonModel;
use crate::names::law_distinct_name;
use crate::names::law_sanitized_is_not_blank;
use crate::names::law_sanitized_is_safe;
use crate::names::law_sanitizing_is_stable;
use crate::names::path_join;
use crate::names::safe_component;
use crate::names::sanitized;
use crate::names::team_path;
use crate::names::teams_base;
use crate::registry::cancelled_among;
use crate::registry::has_id;
use crate::registry::is_watched;
use crate::registry::requested;
use crate::registry::teams_apart;
use crate::registry::told_to_stop;
use crate::registry::token_id;
use crate::registry::token_models;
use crate::registry::tokens_of;
use crate::registry::unused;
use crate::registry::Teams;
use crate::registry::TokenModel;
use crate::schema::AgentResultModel;
use crate::schema::AgentSpecModel;
use crate::schema::TeamCreateInput;
use crate::schema::TeamCreateModel;
use crate::schema::TeamDeleteInput;
use crate::steps::create_begins;
use crate::steps::create_follows;
use crate::steps::delete_begins;
use crate::steps::delete_follows;
use crate::steps::sound_step;
use crate::steps::CreateEvent;
use crate::steps::DeleteEvent;
use crate::text::blank;
use crate::text::decimal;
use crate::text::digit;
use crate::text::trimmed;
use crate::text::trimmed_end;
use crate::tool::ToolContext;
use crate::tool::ToolContextModel;

verus! {

/// Where teams are nested as deep as they may be, every request for a further one is refused.
pub proof fn law_depth_limit(
    request: TeamCreateModel,
    context: ToolContextModel,
    home: Option<PathBuf>,
)
    requires
        context.team_depth >= MAX_TEAM_DEPTH,
    ensures
        refusal(request, context) is Some,
        drafted(request, context, home) matches Err(reply) && reply.is_error,
{
}

/// The agents of a team that was not refused are one level deeper than the team, and no deeper
/// than the limit.
pub proof fn law_agents_are_one_level_deeper(
    team: NamedTeamModel,
    tokens: Seq<TokenModel>,
    i: int,
)
    requires
        refusal(team.request, team.context) is None,
        0 <= i < team.request.agents.len(),
    ensures
        tasks_for(team, tokens)[i].call.ctx.team_depth == team.context.team_depth + 1,
        tasks_for(team, tokens)[i].call.ctx.team_depth <= MAX_TEAM_DEPTH,
        tasks_for(team, tokens)[i].call.ctx.session_id == team.context.session_id,
{
}

/// However teams are nested in one another, the nesting comes to an end: a chain of teams, each
/// created by an agent of the one before, is no longer than the limit leaves room for.
pub proof fn law_nesting_is_bounded(
    requests: Seq<TeamCreateModel>,
    contexts: Seq<ToolContextModel>,
)
    requires
        requests.len() == contexts.len(),
        forall|i: int|
            0 <= i < requests.len() ==> refusal(#[trigger] requests[i], contexts[i]) is None,
        forall|i: int|
            0 < i < contexts.len() ==> (#[trigger] contexts[i]) == nested(contexts[i - 1]),
    ensures
        contexts.len() <= MAX_TEAM_DEPTH,
        contexts.len() > 0 ==> contexts[0].team_depth + contexts.len() <= MAX_TEAM_DEPTH,
    decreases contexts.len(),
{
    let n = contexts.len() as int;
    if n > 0 {
        lemma_depth_in_chain(requests, contexts, n - 1);
        assert(refusal(requests[n - 1], contexts[n - 1]) is None);
    }
}

proof fn lemma_depth_in_chain(
    requests: Seq<TeamCreateModel>,
    contexts: Seq<ToolContextModel>,
    i: int,
)
    requires
        requests.len() == contexts.len(),
        0 <= i < contexts.len(),
        forall|k: int|
            0 <= k < requests.len() ==> refusal(#[trigger] requests[k], contexts[k]) is None,
        forall|k: int|
            0 < k < contexts.len() ==> (#[trigger] contexts[k]) == nested(contexts[k - 1]),
    ensures
        contexts[i].team_depth == contexts[0].team_depth + i,
    decreases i,
{
    if i > 0 {
        lemma_depth_in_chain(requests, contexts, i - 1);
        assert(refusal(requests[i - 1], contexts[i - 1]) is None);
        assert(contexts[i] == nested(contexts[i - 1]));
    }
}

/// Running agents side by side in one team and one after the other in another team sets them the
/// same tasks with the same tools, and agents that end the same way give the same results. Where
/// the two teams have one name and one context, the agents are started with the same calls.
pub proof fn law_serial_and_parallel_agree(
    serial: NamedTeamModel,
    parallel: NamedTeamModel,
    tokens: Seq<TokenModel>,
    ends: Seq<AgentEndModel>,
)
    requires
        serial.request.agents == parallel.request.agents,
        serial.request.task == parallel.request.task,
    ensures
        results_of(serial.request.agents, ends) == results_of(parallel.request.agents, ends),
        tasks_for(serial, tokens).len() == tasks_for(parallel, tokens).len(),
        forall|i: int|
            #![trigger tasks_for(serial, tokens)[i]]
            #![trigger tasks_for(parallel, tokens)[i]]
            0 <= i < serial.request.agents.len() ==> {
                let a = tasks_for(serial, tokens)[i];
                let b = tasks_for(parallel, tokens)[i];
                &&& a.name == b.name
                &&& a.call.prompt == b.call.prompt
                &&& a.call.tools == b.call.tools
                &&& a.call.max_turns == b.call.max_turns
            },
        serial.name == parallel.name && serial.context == parallel.context ==> tasks_for(
            serial,
            tokens,
        ) == tasks_for(parallel, tokens),
{
    if serial.name == parallel.name && serial.context == parallel.context {
        assert(tasks_for(serial, tokens) =~= tasks_for(parallel, tokens));
    }
}

/// What is answered for a team whose agents have ended is a success however they ended, with one
/// result for each agent, in the order of the agents.
pub proof fn law_every_agent_is_reported(
    team: PreparedTeamModel,
    ends: Seq<AgentEndModel>,
    i: int,
)
    requires
        ends.len() == team.team.request.agents.len(),
        0 <= i < ends.len(),
    ensures
        !done_reply(team, results_of(team.team.request.agents, ends)).is_error,
        results_of(team.team.request.agents, ends).len() == ends.len(),
        results_of(team.team.request.agents, ends)[i].agent == team.team.request.agents[i].name,
{
}

/// The part of the collected output that one result makes up.
pub open spec fn section(result: AgentResultModel) -> Seq<char> {
    "## Agent: "@ + result.agent + "\n\n"@ + result.output + "\n\n"@
}

/// The collected output holds the output of every agent under the name of the agent, in the
/// order of the agents.
pub proof fn law_sections_follow_one_another(results: Seq<AgentResultModel>, i: int)
    requires
        0 <= i < results.len(),
    ensures
        sections(results) == sections(results.take(i)) + section(results[i]) + sections(
            results.skip(i + 1),
        ),
    decreases results.len(),
{
    let n = results.len() as int;
    let front = results.drop_last();
    assert(sections(results) =~= sections(front) + section(results.last()));
    if i == n - 1 {
        assert(results.take(i) =~= front);
        assert(results.skip(i + 1) =~= Seq::<AgentResultModel>::empty());
        assert(sections(results.skip(i + 1)) =~= Seq::<char>::empty());
    } else {
        law_sections_follow_one_another(front, i);
        assert(front.take(i) =~= results.take(i));
        let rest = results.skip(i + 1);
        assert(rest.drop_last() =~= front.skip(i + 1));
        assert(rest.last() == results.last());
        assert(sections(rest) =~= sections(front.skip(i + 1)) + section(results.last()));
    }
    assert(sections(results) =~= sections(results.take(i)) + section(results[i]) + sections(
        results.skip(i + 1),
    ));
}

/// Trimming the collected output takes nothing away from its beginning.
pub proof fn law_collected_output_keeps_its_beginning(results: Seq<AgentResultModel>)
    requires
        results.len() > 0,
    ensures
        trimmed(sections(results)) == trimmed_end(sections(results)),
{
    law_sections_follow_one_another(results, 0);
    reveal_strlit("## Agent: ");
    assert(results.take(0) =~= Seq::<AgentResultModel>::empty());
    assert(sections(results)[0] == '#');
}

/// No two agents of a team have the same identifier.
pub proof fn law_agent_ids_are_distinct(
    agents: Seq<AgentSpecModel>,
    team_name: Seq<char>,
    now: u64,
    i: int,
    j: int,
)
    requires
        0 <= i < j < agents.len(),
    ensures
        members_of(agents, team_name, now)[i].agent_id != members_of(
            agents,
            team_name,
            now,
        )[j].agent_id,
{
    let a = member_of(agents[i], i as nat, team_name, now).agent_id;
    let b = member_of(agents[j], j as nat, team_name, now).agent_id;
    if a == b {
        let p = "agent-"@.len() as int;
        let m = decimal(i as nat).len() as int;
        let n = decimal(j as nat).len() as int;
        let tail = "@"@.len() + team_name.len();
        assert(a.len() == p + m + tail);
        assert(b.len() == p + n + tail);
        assert(a.subrange(p, p + m) =~= decimal(i as nat));
        assert(b.subrange(p, p + n) =~= decimal(j as nat));
        lemma_decimal_injective(i as nat, j as nat);
    }
}

proof fn lemma_decimal_injective(m: nat, n: nat)
    requires
        decimal(m) == decimal(n),
    ensures
        m == n,
    decreases m,
{
    assert(decimal(m).last() == digit(m % 10)) by {
        if m < 10 {
            assert(m % 10 == m);
        }
    }
    assert(decimal(n).last() == digit(n % 10)) by {
        if n < 10 {
            assert(n % 10 == n);
        }
    }
    assert(m % 10 == n % 10);
    if m < 10 {
        if n >= 10 {
            lemma_decimal_not_empty(n / 10);
        }
    } else if n < 10 {
        lemma_decimal_not_empty(m / 10);
    } else {
        assert(decimal(m).drop_last() =~= decimal(m / 10));
        assert(decimal(n).drop_last() =~= decimal(n / 10));
        lemma_decimal_injective(m / 10, n / 10);
    }
}

proof fn lemma_decimal_not_empty(n: nat)
    ensures
        decimal(n).len() > 0,
{
}

/// Every team that is created has the name of its own directory: the directory is the one of
/// that name below the directory of all teams, and the name is not blank.
pub proof fn law_created_team_has_its_directory(
    request: TeamCreateModel,
    context: ToolContextModel,
    home: PathBuf,
    clash: Option<Seq<u8>>,
    home_then: Option<PathBuf>,
)
    requires
        refusal(request, context) is None,
        clash matches Some(id) ==> id.len() == 16,
    ensures
        drafted(request, context, Some(home)) matches Ok(draft) && (named(
            draft,
            clash,
            home_then,
        ) matches Ok(team) ==> {
            &&& sanitized(team.name) == team.name
            &&& !blank(team.name)
            &&& clash is None ==> team.dir == path_join(teams_base(home), team.name)
            &&& clash is Some ==> home_then is Some && team.dir == path_join(
                teams_base(home_then->0),
                team.name,
            )
        }),
{
    law_sanitizing_is_stable(request.team_name);
    law_sanitized_is_not_blank(request.team_name);
    if let Some(id) = clash {
        law_distinct_name(request.team_name, id);
    }
}

/// Deleting a team by the name that it was created under reaches the team: the agents that are
/// told to stop are its agents, the team is active no longer, and the directory is its own.
pub proof fn law_delete_reaches_the_created_team(
    teams: Teams,
    name: Seq<char>,
    tokens: Seq<TokenModel>,
    home: PathBuf,
)
    requires
        sanitized(name) == name,
        !blank(name),
    ensures
        tokens_of(teams.insert(name, tokens), sanitized(name)) == tokens,
        teams_after(teams.insert(name, tokens), name) == teams.remove(name),
        team_path(home, name) == path_join(teams_base(home), name),
{
    assert(teams_after(teams.insert(name, tokens), name) =~= teams.remove(name));
}

/// Where the directory of a team was free, deleting the team by the name that was asked for
/// reaches it as well.
pub proof fn law_delete_by_the_requested_name(
    request: TeamCreateModel,
    context: ToolContextModel,
    home: PathBuf,
    teams: Teams,
    tokens: Seq<TokenModel>,
)
    requires
        refusal(request, context) is None,
    ensures
        drafted(request, context, Some(home)) matches Ok(draft) && (named(
            draft,
            None,
            None,
        ) matches Ok(team) && {
            &&& team.dir == team_path(home, request.team_name)
            &&& tokens_of(teams.insert(team.name, tokens), sanitized(request.team_name)) == tokens
            &&& teams_after(teams.insert(team.name, tokens), request.team_name) == teams.remove(
                team.name,
            )
        }),
{
    let name = sanitized(request.team_name);
    assert(teams_after(teams.insert(name, tokens), request.team_name) =~= teams.remove(name));
}

/// A team that takes the place of none leaves the active teams as they were when its agents have
/// ended.
pub proof fn law_finished_team_leaves_no_trace(
    teams: Teams,
    name: Seq<char>,
    tokens: Seq<TokenModel>,
)
    requires
        !teams.dom().contains(name),
    ensures
        teams.insert(name, tokens).remove(name) == teams,
{
    assert(teams.insert(name, tokens).remove(name) =~= teams);
}

/// Deleting a team leaves every other team alone, and deleting it again tells no agent to stop.
pub proof fn law_delete_touches_one_team(
    teams: Teams,
    team_name: Seq<char>,
    other: Seq<char>,
)
    requires
        !blank(team_name),
    ensures
        other != sanitized(team_name) ==> tokens_of(teams_after(teams, team_name), other)
            == tokens_of(teams, other),
        tokens_of(teams_after(teams, team_name), sanitized(team_name)).len() == 0,
        teams_after(teams_after(teams, team_name), team_name) == teams_after(teams, team_name),
{
    assert(teams_after(teams_after(teams, team_name), team_name) =~= teams_after(teams, team_name));
}

/// Whether an event says that a piece of work failed.
pub open spec fn work_failed(event: CreateEvent) -> bool {
    match event {
        CreateEvent::DirMade(r) => r is Err,
        CreateEvent::ConfigWritten(r) => r is Err,
        CreateEvent::ResultsLaidOut(r) => r is Err,
        _ => false,
    }
}

/// Where the directory cannot be made or one of the two files cannot be written, the call ends
/// with an error, and no team is entered among the active ones.
pub proof fn law_failed_work_ends_the_call(
    step: CreateStep,
    event: CreateEvent,
    next: CreateStep,
    before: Teams,
    after: Teams,
)
    requires
        create_follows(step, event, next, before, after),
        work_failed(event),
    ensures
        next matches CreateStep::Reply(reply) && reply.is_error,
        after == before,
{
    if let CreateStep::Reply(reply) = next {
        assert(reply@.is_error == reply.is_error);
    }
}

/// The work of a call is done in one order, and each piece only where the one before succeeded:
/// the directory is looked for, then made, the configuration is written, the file of results is
/// laid out, the agents run, the results are saved. While the agents run, their team is among the
/// active ones.
pub proof fn law_order_of_work(
    step: CreateStep,
    event: CreateEvent,
    next: CreateStep,
    before: Teams,
    after: Teams,
)
    requires
        create_follows(step, event, next, before, after),
    ensures
        !(next is LookFor),
        next is MakeDir ==> step is LookFor,
        next is WriteConfig ==> step is MakeDir && event matches CreateEvent::DirMade(Ok(_)),
        next is LayOutResults ==> step is WriteConfig && event matches CreateEvent::ConfigWritten(
            Ok(_),
        ),
        next is RunAgents ==> step is LayOutResults && event matches CreateEvent::ResultsLaidOut(
            Ok(_),
        ),
        next is SaveResults ==> step is RunAgents,
        next matches CreateStep::RunAgents(team, tasks) ==> {
            &&& tasks@.len() == team.team.request.agents@.len()
            &&& tokens_of(after, team.team.name@) == watched(tasks@)
        },
{
    if let CreateStep::RunAgents(team, tasks) = next {
        assert(agent_tasks(tasks@).len() == tasks_for(team@.team, watched(tasks@)).len());
    }
}

/// Each agent of a new team watches a cancellation of its own: nobody has requested it, and no
/// agent of a team that is active by then watches it. So no two active teams ever have agents
/// that watch the same cancellation.
pub proof fn law_teams_stay_apart(
    step: CreateStep,
    event: CreateEvent,
    next: CreateStep,
    before: Teams,
    after: Teams,
)
    requires
        create_follows(step, event, next, before, after),
        teams_apart(before),
    ensures
        next matches CreateStep::RunAgents(_, tasks) ==> unused(watched(tasks@), before),
        teams_apart(after),
{
    if let CreateStep::RunAgents(team, tasks) = next {
        let name = team.team.name@;
        let tokens = watched(tasks@);
        assert forall|a: Seq<char>, b: Seq<char>, id: int|
            after.dom().contains(a) && after.dom().contains(b) && #[trigger] has_id(after[a], id)
                && #[trigger] has_id(after[b], id) implies a == b by {
            if has_id(tokens, id) {
                let i = choose|i: int| 0 <= i < tokens.len() && (#[trigger] tokens[i]).id == id;
                assert(!is_watched(before, tokens[i].id));
                assert(before.dom().contains(a) ==> !has_id(before[a], id));
                assert(before.dom().contains(b) ==> !has_id(before[b], id));
            } else {
                assert(has_id(before[a], id) && has_id(before[b], id));
            }
        }
    } else {
        assert forall|a: Seq<char>, b: Seq<char>, id: int|
            after.dom().contains(a) && after.dom().contains(b) && #[trigger] has_id(after[a], id)
                && #[trigger] has_id(after[b], id) implies a == b by {
            assert(has_id(before[a], id) && has_id(before[b], id));
        }
    }
}

/// Deleting a team cancels nothing that an agent of another team watches: the handles of every
/// other team stay as they are, none of the cancellations that are requested is one of theirs,
/// and the teams that are left stay apart.
pub proof fn law_delete_spares_other_teams(
    request: TeamDeleteInput,
    home: Option<PathBuf>,
    deletion: DeleteStep,
    before: Teams,
    after: Teams,
    other: Seq<char>,
)
    requires
        delete_begins(request, home, deletion, before, after),
        teams_apart(before),
        before.dom().contains(other),
        other != sanitized(request.team_name@),
    ensures
        after.dom().contains(other) && after[other] == before[other],
        forall|id: int| #[trigger]
            has_id(before[other], id) ==> !has_id(
                requested(tokens_of(before, sanitized(request.team_name@))),
                id,
            ),
        teams_apart(after),
{
    let name = sanitized(request.team_name@);
    let tokens = tokens_of(before, name);
    assert forall|id: int| #[trigger] has_id(before[other], id) implies !has_id(
        requested(tokens),
        id,
    ) by {
        if has_id(requested(tokens), id) {
            let i = choose|i: int|
                0 <= i < requested(tokens).len() && (#[trigger] requested(tokens)[i]).id == id;
            assert(tokens[i].id == id);
            assert(has_id(before[name], id));
        }
    }
    assert forall|a: Seq<char>, b: Seq<char>, id: int|
        after.dom().contains(a) && after.dom().contains(b) && #[trigger] has_id(after[a], id)
            && #[trigger] has_id(after[b], id) implies a == b by {
        assert(has_id(before[a], id) && has_id(before[b], id));
    }
}

/// How the agents of a team end that is deleted while they run, where none of them answers or
/// runs out of time at that moment: those that have answered have, those that run are cancelled,
/// those that were not started never start.
pub open spec fn ends_when_deleted(
    answers: Seq<Option<Seq<char>>>,
    started: nat,
) -> Seq<AgentEndModel> {
    Seq::new(
        answers.len(),
        |i: int|
            match answers[i] {
                Some(text) => AgentEndModel::Answered(text),
                None => if i < started {
                    AgentEndModel::Cancelled
                } else {
                    AgentEndModel::CancelledBeforeStart
                },
            },
    )
}

/// The call that created a team still succeeds when the team is deleted while its agents run.
/// There is a result for each agent: an agent that has answered keeps its output, one that runs
/// and one that was not started are reported as cancelled, each with a text of its own.
pub proof fn law_deleted_team_is_still_reported(
    team: PreparedTeamModel,
    answers: Seq<Option<Seq<char>>>,
    started: nat,
    i: int,
)
    requires
        answers.len() == team.team.request.agents.len(),
        0 <= i < answers.len(),
    ensures
        ({
            let agents = team.team.request.agents;
            let results = results_of(agents, ends_when_deleted(answers, started));
            &&& !done_reply(team, results).is_error
            &&& results.len() == agents.len()
            &&& results[i].agent == agents[i].name
            &&& results[i].output == (match answers[i] {
                Some(text) => text,
                None => if i < started {
                    "[Agent cancelled by TeamDelete]"@
                } else {
                    "[Cancelled before start]"@
                },
            })
        }),
{
}

/// Where the agents run one after the other, an agent is started only when all the agents before
/// it have ended; where they run side by side, every agent may be started at once.
pub proof fn law_starts(started: nat, ended: nat, total: nat)
    requires
        ended <= started <= total,
    ensures
        start_allowed(false, started, ended, total) ==> ended == started,
        start_allowed(true, started, ended, total) <==> started < total,
        ended == started && started < total ==> start_allowed(false, started, ended, total),
{
}

/// Deleting a team while its agents run tells exactly its agents to stop, each of them: the
/// cancellations that are requested are the ones that the agents watch. That is so even where no
/// home directory is found, and the team is active no longer in any case.
pub proof fn law_delete_stops_the_running_agents(
    step: CreateStep,
    event: CreateEvent,
    team: PreparedTeam,
    tasks: Vec<AgentTask>,
    before: Teams,
    running: Teams,
    request: TeamDeleteInput,
    home: Option<PathBuf>,
    deletion: DeleteStep,
    after: Teams,
)
    requires
        sound_step(step),
        create_follows(step, event, CreateStep::RunAgents(team, tasks), before, running),
        request.team_name@ == team.team.name@,
        delete_begins(request, home, deletion, running, after),
    ensures
        told_to_stop(watched(tasks@)),
        match home {
            None => deletion matches DeleteStep::Reply(reply) && reply@ == no_home_reply(),
            Some(h) => {
                &&& deletion matches DeleteStep::LookFor(disbanded)
                &&& token_models(disbanded.cancelled@) == requested(watched(tasks@))
                &&& disbanded.dir == path_join(teams_base(h), team.team.name@)
            },
        },
        after == before.remove(team.team.name@),
{
    assert(after =~= before.remove(team.team.name@));
}

/// An agent that was not started when its team was deleted never starts: asked after the deletion,
/// it ends at once as cancelled before its start.
pub proof fn law_agents_of_a_deleted_team_do_not_start(
    step: CreateStep,
    event: CreateEvent,
    team: PreparedTeam,
    tasks: Vec<AgentTask>,
    before: Teams,
    running: Teams,
    now: Teams,
    request: TeamDeleteInput,
    home: Option<PathBuf>,
    disbanded: DisbandedTeam,
    after: Teams,
    i: int,
    end: Option<AgentEnd>,
)
    requires
        sound_step(step),
        create_follows(step, event, CreateStep::RunAgents(team, tasks), before, running),
        tokens_of(now, team.team.name@) == tokens_of(running, team.team.name@),
        request.team_name@ == team.team.name@,
        delete_begins(request, home, DeleteStep::LookFor(disbanded), now, after),
        0 <= i < tasks@.len(),
        call_ensures(AgentTask::early_end_after, (&tasks@[i], &disbanded.cancelled), end),
    ensures
        end == Some(AgentEnd::CancelledBeforeStart),
{
    let stopped = token_models(disbanded.cancelled@);
    assert(stopped == requested(watched(tasks@)));
    assert(stopped[i].id == token_id(tasks@[i].cancel) && stopped[i].cancelled);
    assert(cancelled_among(stopped, token_id(tasks@[i].cancel)));
}

/// The call that created a team goes on to its end when the team is deleted while its agents run.
/// Of the agents, `started` were started by then. Those that had answered keep their output, those
/// that ran are cancelled, and each of the others is asked before it is started. Then the call
/// succeeds, there is a result for each agent, and the others are reported as never started.
pub proof fn law_call_outlives_its_team(
    step: CreateStep,
    event: CreateEvent,
    team: PreparedTeam,
    tasks: Vec<AgentTask>,
    before: Teams,
    running: Teams,
    now: Teams,
    request: TeamDeleteInput,
    home: Option<PathBuf>,
    disbanded: DisbandedTeam,
    after: Teams,
    answers: Seq<Option<Seq<char>>>,
    started: nat,
    ends: Vec<AgentEnd>,
    later: Teams,
    next: CreateStep,
    last: Teams,
)
    requires
        sound_step(step),
        create_follows(step, event, CreateStep::RunAgents(team, tasks), before, running),
        tokens_of(now, team.team.name@) == tokens_of(running, team.team.name@),
        request.team_name@ == team.team.name@,
        delete_begins(request, home, DeleteStep::LookFor(disbanded), now, after),
        answers.len() == tasks@.len(),
        ends@.len() == tasks@.len(),
        forall|i: int|
            0 <= i < tasks@.len() ==> (match #[trigger] answers[i] {
                Some(text) => i < started && ends@[i]@ == AgentEndModel::Answered(text),
                None => if i < started {
                    ends@[i] == AgentEnd::Cancelled
                } else {
                    call_ensures(
                        AgentTask::early_end_after,
                        (&tasks@[i], &disbanded.cancelled),
                        Some(ends@[i]),
                    )
                },
            }),
        create_follows(
            CreateStep::RunAgents(team, tasks),
            CreateEvent::AgentsEnded(ends),
            next,
            later,
            last,
        ),
    ensures
        ({
            let agents = team@.team.request.agents;
            let results = results_of(agents, ends_when_deleted(answers, started));
            &&& next matches CreateStep::SaveResults(report)
            &&& report.reply@ == done_reply(team@, results)
            &&& report.results_text@ == results_file(results)
            &&& !report.reply.is_error
            &&& results.len() == agents.len() == tasks@.len()
            &&& forall|i: int|
                started <= i < results.len() ==> (#[trigger] results[i]).output
                    == "[Cancelled before start]"@
        }),
        last == later.remove(team.team.name@),
        later == after ==> last == after,
{
    let agents = team@.team.request.agents;
    assert(agent_tasks(tasks@).len() == agents.len());
    assert forall|i: int| 0 <= i < tasks@.len() implies #[trigger] agent_ends(ends@)[i]
        == ends_when_deleted(answers, started)[i] by {
        if answers[i] is None && i >= started {
            law_agents_of_a_deleted_team_do_not_start(
                step,
                event,
                team,
                tasks,
                before,
                running,
                now,
                request,
                home,
                disbanded,
                after,
                i,
                Some(ends@[i]),
            );
        }
    }
    assert(agent_ends(ends@) =~= ends_when_deleted(answers, started));
    let results = results_of(agents, ends_when_deleted(answers, started));
    assert forall|i: int| started <= i < results.len() implies (#[trigger] results[i]).output
        == "[Cancelled before start]"@ by {
        assert(answers[i] is None);
    }
    assert(after.remove(team.team.name@) =~= after);
}

/// The one directory that a deletion removes is the one named like the team, sanitized, directly
/// below the directory of all teams. It is neither that directory nor the one of another team.
pub proof fn law_delete_removes_one_directory(
    request: TeamDeleteInput,
    home: PathBuf,
    first: DeleteStep,
    before: Teams,
    after: Teams,
    event: DeleteEvent,
    target: DisbandedTeam,
    other: Seq<char>,
)
    requires
        delete_begins(request, Some(home), first, before, after),
        delete_follows(first, event, DeleteStep::RemoveDir(target)),
    ensures
        target.dir == path_join(teams_base(home), sanitized(request.team_name@)),
        safe_component(sanitized(request.team_name@)),
        !blank(sanitized(request.team_name@)),
        target.dir != teams_base(home),
        sanitized(other) != sanitized(request.team_name@) ==> target.dir != team_path(home, other),
{
    law_sanitized_is_safe(request.team_name@);
    if !blank(request.team_name@) {
        law_sanitized_is_not_blank(request.team_name@);
    }
    assert(team_path(home, other) == path_join(teams_base(home), sanitized(other)));
}

/// Where the directory of a new team is taken, the team gets another one.
pub proof fn law_taken_directory_is_left(
    draft: TeamDraft,
    team: NamedTeam,
    before: Teams,
    after: Teams,
)
    requires
        create_follows(
            CreateStep::LookFor(draft),
            CreateEvent::Found(true),
            CreateStep::MakeDir(team),
            before,
            after,
        ),
    ensures
        exists|home: PathBuf|
            #![trigger team_path(home, draft.safe_name@)]
            call_ensures(dirs::home_dir, (), Some(home)) && team.dir == team_path(home, team.name@)
                && team.dir != team_path(home, draft.safe_name@),
{
    let (clash, home) = choose|clash: Option<[u8; 16]>, home: Option<PathBuf>|
        #![trigger named(draft@, id_bytes(clash), home)]
        settled_by(true, clash, home) && (match named(draft@, id_bytes(clash), home) {
            Ok(t) => team@ == t && leaves_taken_directory(draft, clash, home, team.dir),
            Err(_) => false,
        });
    assert(home is Some);
    assert(team.dir != team_path(home->0, draft.safe_name@));
}

/// A call in which all outside work succeeds ends with the results of all agents, in the order
/// of the agents, and leaves the active teams without the team.
pub proof fn law_successful_call(
    request: TeamCreateInput,
    context: ToolContext,
    home: Option<PathBuf>,
    taken: bool,
    ends: Vec<AgentEnd>,
    steps: Seq<CreateStep>,
    events: Seq<CreateEvent>,
    teams: Seq<Teams>,
)
    requires
        refusal(request@, context@) is None,
        home is Some,
        request.agents@.len() > 0,
        ends@.len() == request.agents@.len(),
        steps.len() == 7,
        events == seq![
            CreateEvent::Found(taken),
            CreateEvent::DirMade(Ok(())),
            CreateEvent::ConfigWritten(Ok(())),
            CreateEvent::ResultsLaidOut(Ok(())),
            CreateEvent::AgentsEnded(ends),
            CreateEvent::ResultsSaved,
        ],
        teams.len() == 7,
        create_begins(request, context, home, steps[0]),
        forall|i: int|
            0 <= i < 6 ==> create_follows(
                #[trigger] steps[i],
                events[i],
                steps[i + 1],
                teams[i],
                teams[i + 1],
            ),
        steps[1] is MakeDir,
    ensures
        steps[6] matches CreateStep::Reply(reply) && exists|team: PreparedTeamModel|
            #![trigger done_reply(team, results_of(request@.agents, agent_ends(ends@)))]
            {
                &&& team.team.request == request@
                &&& team.config == config_of(team.team, team.config.created_at)
                &&& reply@ == done_reply(team, results_of(request@.agents, agent_ends(ends@)))
                &&& teams[6] == teams[0].remove(team.team.name)
            },
{
    assert(create_follows(steps[0], events[0], steps[1], teams[0], teams[1]));
    assert(create_follows(steps[1], events[1], steps[2], teams[1], teams[2]));
    assert(create_follows(steps[2], events[2], steps[3], teams[2], teams[3]));
    assert(create_follows(steps[3], events[3], steps[4], teams[3], teams[4]));
    assert(create_follows(steps[4], events[4], steps[5], teams[4], teams[5]));
    assert(create_follows(steps[5], events[5], steps[6], teams[5], teams[6]));
    let team = steps[2]->WriteConfig_0@;
    assert(teams[6] =~= teams[0].remove(team.team.name));
    assert(steps[6]->Reply_0@ == done_reply(
        team,
        results_of(request@.agents, agent_ends(ends@)),
    ));
}

/// The input of each tool declares every property that it requires.
pub proof fn law_required_properties_are_declared()
    ensures
        create_required() == seq![JsonModel::Text("team_name"@), JsonModel::Text("task"@)],
        create_properties().dom().contains("team_name"@),
        create_properties().dom().contains("task"@),
        delete_required() == seq![JsonModel::Text("team_name"@)],
        delete_properties().dom().contains("team_name"@),
{
}

} // verus!
