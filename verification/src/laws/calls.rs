//! What holds of a whole call of the tool that creates teams, from the request to the answer.

use vstd::prelude::*;

use crate::create::AgentEnd;
use crate::create::AgentTask;
use crate::create::CreateStep;
use crate::create::NamedTeam;
use crate::create::PreparedTeam;
use crate::create::TeamCreateTool;
use crate::create::TeamDraft;
use crate::create::TeamReport;
use crate::json::JsonModel;
use crate::laws::answers::law_agents_ended;
use crate::laws::answers::law_results_saved;
use crate::laws::answers::struck_out;
use crate::laws::answers::tells;
use crate::laws::creation::agrees;
use crate::laws::creation::law_begin;
use crate::laws::creation::law_directory_made;
use crate::laws::creation::law_found;
use crate::laws::creation::law_results_laid_out;
use crate::laws::creation::ready_to_run;
use crate::laws::creation::started_for;
use crate::names::path_join;
use crate::names::sanitized;
use crate::registry::TeamRegistry;
use crate::schema::TeamCreateInput;
use crate::steps::CreateEvent;
use crate::tool::ToolContext;

verus! {

/// A call in which the directory is made and both files are written does what was asked for. The
/// configuration that is written agrees with the request. Each agent of the request is started, on
/// its own task or else the shared one. The answer tells of each and every agent of the request,
/// in the order in which the agents were asked for, and so does the file of results, which stands
/// beside the configuration. The lead is named after the team that was asked for.
pub proof fn law_whole_call(
    tool: &TeamCreateTool,
    request: TeamCreateInput,
    context: ToolContext,
    draft: TeamDraft,
    taken: bool,
    team: NamedTeam,
    configured: PreparedTeam,
    laid_out: CreateStep,
    running: PreparedTeam,
    tasks: Vec<AgentTask>,
    ends: Vec<AgentEnd>,
    report: TeamReport,
    last: CreateStep,
    at_name: &mut TeamRegistry,
    at_directory: &mut TeamRegistry,
    at_configuration: &mut TeamRegistry,
    at_start: &mut TeamRegistry,
    at_end: &mut TeamRegistry,
    at_reply: &mut TeamRegistry,
)
    requires
        call_ensures(TeamCreateTool::begin, (tool, request, context), CreateStep::LookFor(draft)),
        call_ensures(
            TeamCreateTool::advance,
            (tool, CreateStep::LookFor(draft), CreateEvent::Found(taken), at_name),
            CreateStep::MakeDir(team),
        ),
        call_ensures(
            TeamCreateTool::advance,
            (
                tool,
                CreateStep::MakeDir(team),
                CreateEvent::DirMade(Ok::<(), String>(())),
                at_directory,
            ),
            CreateStep::WriteConfig(configured),
        ),
        call_ensures(
            TeamCreateTool::advance,
            (
                tool,
                CreateStep::WriteConfig(configured),
                CreateEvent::ConfigWritten(Ok(())),
                at_configuration,
            ),
            laid_out,
        ),
        call_ensures(
            TeamCreateTool::advance,
            (tool, laid_out, CreateEvent::ResultsLaidOut(Ok::<(), String>(())), at_start),
            CreateStep::RunAgents(running, tasks),
        ),
        ends@.len() == request.agents@.len(),
        call_ensures(
            TeamCreateTool::advance,
            (tool, CreateStep::RunAgents(running, tasks), CreateEvent::AgentsEnded(ends), at_end),
            CreateStep::SaveResults(report),
        ),
        call_ensures(
            TeamCreateTool::advance,
            (tool, CreateStep::SaveResults(report), CreateEvent::ResultsSaved, at_reply),
            last,
        ),
    ensures
        team.request == request,
        team.context == context,
        team.lead_agent_id@ == "team-lead@"@ + sanitized(request.team_name@),
        !taken ==> team.name@ == sanitized(request.team_name@),
        agrees(configured.config, team),
        configured.config_path == path_join(team.dir, "config.json"@),
        running == configured,
        tasks@.len() == request.agents@.len(),
        forall|i: int|
            0 <= i < tasks@.len() ==> started_for(#[trigger] tasks@[i], request.agents@[i], team),
        ready_to_run(team, tasks@, old(at_start)@, final(at_start)@),
        running.team == team,
        exists|outputs: Seq<Seq<char>>, list: Seq<JsonModel>, collected: Seq<char>| #[trigger]
            tells(report, running, ends@, outputs, list, collected),
        report.results_path == path_join(team.dir, "results.json"@),
        struck_out(team.name@, old(at_end)@, final(at_end)@),
        last == CreateStep::Reply(report.reply),
{
    law_begin(tool, request, context, CreateStep::LookFor(draft));
    law_found(tool, draft, taken, at_name, CreateStep::MakeDir(team));
    law_directory_made(
        tool,
        team,
        Ok::<(), String>(()),
        at_directory,
        CreateStep::WriteConfig(configured),
    );
    assert(laid_out == CreateStep::LayOutResults(configured));
    law_results_laid_out(
        tool,
        configured,
        Ok::<(), String>(()),
        at_start,
        CreateStep::RunAgents(running, tasks),
    );
    law_agents_ended(tool, running, tasks, ends, at_end, CreateStep::SaveResults(report));
    law_results_saved(tool, report, at_reply, last);
}

} // verus!
