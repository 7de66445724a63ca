//! What the tool that creates teams says of a team: how it tells what the agents came back with,
//! in its answer and in the file of results.

use vstd::prelude::*;

use crate::create::agent_ends;
use crate::create::agent_output;
use crate::create::done_reply;
use crate::create::may_start;
use crate::create::output_of;
use crate::create::result_json;
use crate::create::result_sections;
use crate::create::results_document;
use crate::create::results_file;
use crate::create::results_json;
use crate::create::results_of;
use crate::create::sections;
use crate::create::AgentEnd;
use crate::create::AgentTask;
use crate::create::CreateStep;
use crate::create::PreparedTeam;
use crate::create::TeamCreateTool;
use crate::create::TeamReport;
use crate::json::json_list_pretty;
use crate::json::json_text;
use crate::json::JsonModel;
use crate::laws::law_collected_output_keeps_its_beginning;
use crate::laws::texts::lemma_end_of;
use crate::names::path_text;
use crate::registry::Teams;
use crate::registry::TeamRegistry;
use crate::schema::agent_results;
use crate::schema::agent_specs;
use crate::schema::AgentResult;
use crate::schema::AgentResultModel;
use crate::schema::AgentSpec;
use crate::steps::create_follows;
use crate::steps::CreateEvent;
use crate::text::decimal;
use crate::text::trimmed;
use crate::text::trimmed_end;
use crate::text::trimmed_start;
use crate::text::whitespace;
use crate::tool::ToolResult;

verus! {

/// Whether a text is what an agent is taken to have said: its answer, or a note on why there is
/// none.
pub open spec fn is_said(output: Seq<char>, name: Seq<char>, end: AgentEnd) -> bool {
    match end {
        AgentEnd::Answered(answer) => output == answer@,
        AgentEnd::CancelledBeforeStart => output == "[Cancelled before start]"@,
        AgentEnd::Cancelled => output == "[Agent cancelled by TeamDelete]"@,
        AgentEnd::TimedOut => output == "[Agent '"@ + name + "' timed out after 120s]"@,
    }
}

/// An answer is handed on as it is, and an agent without one gets the note for how it ended.
pub proof fn law_agent_output(name: &str, end: &AgentEnd, text: String)
    requires
        call_ensures(agent_output, (name, end), text),
    ensures
        is_said(text@, name@, *end),
{
    lemma_output(name@, *end);
}

proof fn lemma_output(name: Seq<char>, end: AgentEnd)
    ensures
        is_said(output_of(name, end@), name, end),
{
    reveal_strlit("' timed out after ");
    reveal_strlit("s]");
    reveal_strlit("' timed out after 120s]");
    assert(decimal(1) =~= seq!['1']);
    assert(decimal(12) =~= seq!['1', '2']);
    assert(decimal(120) =~= seq!['1', '2', '0']);
    if end is TimedOut {
        assert(output_of(name, end@) =~= "[Agent '"@ + name + "' timed out after 120s]"@);
    }
}

/// Whether a text falls, at a row of places, into one section for each of a row of names: a
/// heading with the name, an empty line, the output that goes with the name, an empty line.
pub open spec fn falls_into_sections(
    text: Seq<char>,
    cuts: Seq<int>,
    names: Seq<Seq<char>>,
    outputs: Seq<Seq<char>>,
) -> bool {
    &&& cuts.len() == names.len() + 1
    &&& cuts[0] == 0
    &&& cuts.last() == text.len()
    &&& forall|i: int, j: int| 0 <= i < j < cuts.len() ==> 0 <= #[trigger] cuts[i] < #[trigger] cuts[j]
    &&& forall|i: int|
        0 <= i < names.len() ==> text.subrange(cuts[i], cuts[i + 1]) == "## Agent: "@
            + #[trigger] names[i] + "\n\n"@ + outputs[i] + "\n\n"@
}

/// Whether a text is the sections for a row of names, one after the other, without the whitespace
/// at their end.
pub open spec fn collects(
    text: Seq<char>,
    names: Seq<Seq<char>>,
    outputs: Seq<Seq<char>>,
) -> bool {
    exists|whole: Seq<char>, cuts: Seq<int>|
        {
            &&& #[trigger] falls_into_sections(whole, cuts, names, outputs)
            &&& text.len() <= whole.len()
            &&& text == whole.take(text.len() as int)
            &&& forall|k: int| text.len() <= k < whole.len() ==> whitespace(#[trigger] whole[k])
            &&& text.len() > 0 ==> !whitespace(text.last())
        }
}

/// Whether a row of JSON values lists names with the outputs that go with them, in their order and
/// with nothing else.
pub open spec fn lists(
    list: Seq<JsonModel>,
    names: Seq<Seq<char>>,
    outputs: Seq<Seq<char>>,
) -> bool {
    &&& list.len() == names.len()
    &&& forall|i: int|
        0 <= i < list.len() ==> (#[trigger] list[i]) == JsonModel::Object(
            map!["agent"@ => JsonModel::Text(names[i]), "output"@ => JsonModel::Text(outputs[i])],
        )
}

/// The names in a row of results.
pub open spec fn result_names(results: Seq<AgentResult>) -> Seq<Seq<char>> {
    Seq::new(results.len(), |i: int| results[i].agent@)
}

/// The outputs in a row of results.
pub open spec fn result_outputs(results: Seq<AgentResult>) -> Seq<Seq<char>> {
    Seq::new(results.len(), |i: int| results[i].output@)
}

/// The names of a row of agents.
pub open spec fn agent_names(agents: Seq<AgentSpec>) -> Seq<Seq<char>> {
    Seq::new(agents.len(), |i: int| agents[i].name@)
}

proof fn lemma_part_of_front(
    front: Seq<char>,
    part: Seq<char>,
    cuts: Seq<int>,
    n: int,
    i: int,
)
    requires
        cuts.len() == n + 1,
        cuts.last() == front.len(),
        forall|i: int, j: int|
            0 <= i < j < cuts.len() ==> 0 <= #[trigger] cuts[i] < #[trigger] cuts[j],
        0 <= i < n,
    ensures
        (front + part).subrange(cuts[i], cuts[i + 1]) == front.subrange(cuts[i], cuts[i + 1]),
{
    assert(0 <= cuts[i] < cuts[i + 1]);
    assert(cuts[i + 1] <= cuts[n]);
    assert((front + part).subrange(cuts[i], cuts[i + 1]) =~= front.subrange(cuts[i], cuts[i + 1]));
}

proof fn lemma_cuts(
    results: Seq<AgentResultModel>,
    names: Seq<Seq<char>>,
    outputs: Seq<Seq<char>>,
) -> (cuts: Seq<int>)
    requires
        names.len() == results.len(),
        outputs.len() == results.len(),
        forall|i: int|
            0 <= i < results.len() ==> (#[trigger] results[i]).agent == names[i]
                && results[i].output == outputs[i],
    ensures
        falls_into_sections(sections(results), cuts, names, outputs),
    decreases results.len(),
{
    if results.len() == 0 {
        seq![0]
    } else {
        let n = results.len() - 1;
        let front = results.drop_last();
        let before = lemma_cuts(front, names.drop_last(), outputs.drop_last());
        let whole = sections(results);
        let part = "## Agent: "@ + names[n] + "\n\n"@ + outputs[n] + "\n\n"@;
        reveal_strlit("## Agent: ");
        assert(results.last() == results[n]);
        assert(whole =~= sections(front) + part);
        let cuts = before.push(whole.len() as int);
        assert forall|i: int, j: int| 0 <= i < j < cuts.len() implies 0 <= #[trigger] cuts[i]
            < #[trigger] cuts[j] by {
            if j == n + 1 {
                if i < n {
                    assert(before[i] < before[n]);
                }
                assert(before[n] == before.last());
            } else {
                assert(before[i] < before[j]);
            }
        }
        assert forall|i: int| 0 <= i < names.len() implies whole.subrange(cuts[i], cuts[i + 1])
            == "## Agent: "@ + #[trigger] names[i] + "\n\n"@ + outputs[i] + "\n\n"@ by {
            if i < n {
                lemma_part_of_front(sections(front), part, before, n, i);
                assert(names.drop_last()[i] == names[i]);
                assert(outputs.drop_last()[i] == outputs[i]);
            } else {
                assert(cuts[i] == before.last());
                assert(whole.subrange(cuts[i], cuts[i + 1]) =~= part);
            }
        }
        cuts
    }
}

proof fn lemma_collected(
    results: Seq<AgentResultModel>,
    names: Seq<Seq<char>>,
    outputs: Seq<Seq<char>>,
)
    requires
        names.len() == results.len(),
        outputs.len() == results.len(),
        forall|i: int|
            0 <= i < results.len() ==> (#[trigger] results[i]).agent == names[i]
                && results[i].output == outputs[i],
    ensures
        collects(trimmed(sections(results)), names, outputs),
        lists(results_json(results), names, outputs),
{
    let whole = sections(results);
    let cuts = lemma_cuts(results, names, outputs);
    if results.len() > 0 {
        law_collected_output_keeps_its_beginning(results);
    } else {
        assert(trimmed_start(whole) == whole);
    }
    assert(trimmed(whole) == trimmed_end(whole));
    let kept = lemma_end_of(whole);
    assert(falls_into_sections(whole, cuts, names, outputs));
    assert forall|i: int| 0 <= i < results.len() implies (#[trigger] results_json(results)[i])
        == JsonModel::Object(
        map!["agent"@ => JsonModel::Text(names[i]), "output"@ => JsonModel::Text(outputs[i])],
    ) by {
        assert(results_json(results)[i] == result_json(results[i]));
    }
}

/// The results one after the other fall into one section for each result, in their order.
pub proof fn law_result_sections(results: &Vec<AgentResult>, text: String)
    requires
        call_ensures(result_sections, (results,), text),
    ensures
        exists|cuts: Seq<int>| #[trigger]
            falls_into_sections(
                text@,
                cuts,
                result_names(results@),
                result_outputs(results@),
            ),
{
    let models = agent_results(results@);
    assert forall|i: int| 0 <= i < models.len() implies (#[trigger] models[i]).agent
        == result_names(results@)[i] && models[i].output == result_outputs(results@)[i] by {
        assert(models[i] == results@[i]@);
    }
    let cuts = lemma_cuts(models, result_names(results@), result_outputs(results@));
}

/// The file of results is the indented text of a list with one entry for each result, in their
/// order, and is empty only where the serializer gives no text for that list.
pub proof fn law_results_document(results: &Vec<AgentResult>, text: String)
    requires
        call_ensures(results_document, (results,), text),
    ensures
        exists|list: Seq<JsonModel>|
            {
                &&& #[trigger] lists(list, result_names(results@), result_outputs(results@))
                &&& text@ == (match json_list_pretty(list) {
                    Some(pretty) => pretty,
                    None => Seq::empty(),
                })
            },
{
    let models = agent_results(results@);
    assert forall|i: int| 0 <= i < models.len() implies (#[trigger] models[i]).agent
        == result_names(results@)[i] && models[i].output == result_outputs(results@)[i] by {
        assert(models[i] == results@[i]@);
    }
    lemma_collected(models, result_names(results@), result_outputs(results@));
}

/// Whether a report tells of a team what its agents came back with. There is one output for each
/// agent, in the order of the agents. The answer is a success. It holds the outputs as a list and
/// collected into one text, says how many agents there were, whether they ran side by side, what
/// the team is called, who leads it and where its configuration is. The file of results is in the
/// place of the team and is the same list.
pub open spec fn tells(
    report: TeamReport,
    team: PreparedTeam,
    ends: Seq<AgentEnd>,
    outputs: Seq<Seq<char>>,
    list: Seq<JsonModel>,
    collected: Seq<char>,
) -> bool {
    let agents = team.team.request.agents@;
    let names = agent_names(agents);
    &&& outputs.len() == agents.len()
    &&& forall|i: int|
        0 <= i < agents.len() ==> is_said(#[trigger] outputs[i], agents[i].name@, ends[i])
    &&& lists(list, names, outputs)
    &&& collects(collected, names, outputs)
    &&& !report.reply.is_error
    &&& report.reply.content@ == json_text(
        JsonModel::Object(
            map![
                "team_name"@ => JsonModel::Text(team.team.name@),
                "team_file_path"@ => JsonModel::Text(path_text(team.config_path)),
                "lead_agent_id"@ => JsonModel::Text(team.team.lead_agent_id@),
                "agents_spawned"@ => JsonModel::Number(decimal(agents.len())),
                "parallel"@ => JsonModel::Bool(team.team.request.parallel),
                "results"@ => JsonModel::List(list),
                "aggregated_output"@ => JsonModel::Text(collected),
            ],
        ),
    )
    &&& report.results_path == team.results_path
    &&& report.results_text@ == (match json_list_pretty(list) {
        Some(pretty) => pretty,
        None => Seq::empty(),
    })
}

/// What the agents of a team came back with, in the order of the agents.
spec fn outputs_for(agents: Seq<AgentSpec>, ends: Seq<AgentEnd>) -> Seq<Seq<char>> {
    Seq::new(agents.len(), |i: int| output_of(agents[i].name@, ends[i]@))
}

proof fn lemma_told(team: PreparedTeam, ends: Seq<AgentEnd>, report: TeamReport)
    requires
        ends.len() == team.team.request.agents@.len(),
        report.results_path == team.results_path,
        report.results_text@ == results_file(
            results_of(team@.team.request.agents, agent_ends(ends)),
        ),
        report.reply@ == done_reply(
            team@,
            results_of(team@.team.request.agents, agent_ends(ends)),
        ),
    ensures
        ({
            let results = results_of(agent_specs(team.team.request.agents@), agent_ends(ends));
            tells(
                report,
                team,
                ends,
                outputs_for(team.team.request.agents@, ends),
                results_json(results),
                trimmed(sections(results)),
            )
        }),
{
    let agents = team.team.request.agents@;
    assert(team@.team.request.agents == agent_specs(agents));
    let results = results_of(agent_specs(agents), agent_ends(ends));
    let names = agent_names(agents);
    let outputs = outputs_for(agents, ends);
    assert forall|i: int| 0 <= i < agents.len() implies is_said(
        #[trigger] outputs[i],
        agents[i].name@,
        ends[i],
    ) by {
        lemma_output(agents[i].name@, ends[i]);
    }
    assert forall|i: int| 0 <= i < results.len() implies (#[trigger] results[i]).agent == names[i]
        && results[i].output == outputs[i] by {
        assert(agent_specs(agents)[i] == agents[i]@);
        assert(agent_ends(ends)[i] == ends[i]@);
    }
    lemma_collected(results, names, outputs);
    assert(report.reply.content@ == report.reply@.content);
    assert(report.reply.is_error == report.reply@.is_error);
}

/// When the agents of a team have ended, the report tells of each and every one of them, whether
/// they ran side by side or not, and the team alone is struck out of the active ones.
pub proof fn law_finish(
    tool: &TeamCreateTool,
    team: PreparedTeam,
    ends: Vec<AgentEnd>,
    registry: &mut TeamRegistry,
    report: TeamReport,
)
    requires
        ends@.len() == team.team.request.agents@.len(),
        call_ensures(TeamCreateTool::finish, (tool, team, ends, registry), report),
    ensures
        exists|outputs: Seq<Seq<char>>, list: Seq<JsonModel>, collected: Seq<char>| #[trigger]
            tells(report, team, ends@, outputs, list, collected),
        struck_out(team.team.name@, old(registry)@, final(registry)@),
{
    lemma_told(team, ends@, report);
}

/// Whether a team is active no longer, and every other one stays as it was.
pub open spec fn struck_out(name: Seq<char>, before: Teams, after: Teams) -> bool {
    &&& !after.dom().contains(name)
    &&& forall|other: Seq<char>|
        other != name ==> (#[trigger] after.dom().contains(other) <==> before.dom().contains(
            other,
        )) && (before.dom().contains(other) ==> after[other] == before[other])
}

/// In a call, the report that is saved when the agents have ended tells of each of them.
pub proof fn law_agents_ended(
    tool: &TeamCreateTool,
    team: PreparedTeam,
    tasks: Vec<AgentTask>,
    ends: Vec<AgentEnd>,
    registry: &mut TeamRegistry,
    next: CreateStep,
)
    requires
        ends@.len() == team.team.request.agents@.len(),
        call_ensures(
            TeamCreateTool::advance,
            (tool, CreateStep::RunAgents(team, tasks), CreateEvent::AgentsEnded(ends), registry),
            next,
        ),
    ensures
        next matches CreateStep::SaveResults(report) && exists|
            outputs: Seq<Seq<char>>,
            list: Seq<JsonModel>,
            collected: Seq<char>,
        | #[trigger] tells(report, team, ends@, outputs, list, collected),
        struck_out(team.team.name@, old(registry)@, final(registry)@),
{
    assert(create_follows(
        CreateStep::RunAgents(team, tasks),
        CreateEvent::AgentsEnded(ends),
        next,
        old(registry)@,
        final(registry)@,
    ));
    if let CreateStep::SaveResults(report) = next {
        lemma_told(team, ends@, report);
    }
}

/// A call ends with the answer of its report.
pub proof fn law_results_saved(
    tool: &TeamCreateTool,
    report: TeamReport,
    registry: &mut TeamRegistry,
    next: CreateStep,
)
    requires
        call_ensures(
            TeamCreateTool::advance,
            (tool, CreateStep::SaveResults(report), CreateEvent::ResultsSaved, registry),
            next,
        ),
    ensures
        next == CreateStep::Reply(report.reply),
        final(registry)@ == old(registry)@,
{
}

/// Two teams with the same agents that end the same way are told of with the same outputs, the
/// same list and the same collected text, even where the agents of one ran side by side and those
/// of the other one after the other.
pub proof fn law_reports_differ_in_the_team_alone(
    tool: &TeamCreateTool,
    a: PreparedTeam,
    b: PreparedTeam,
    ends: Vec<AgentEnd>,
    first: &mut TeamRegistry,
    second: &mut TeamRegistry,
    report_a: TeamReport,
    report_b: TeamReport,
)
    requires
        a.team.request.agents@ == b.team.request.agents@,
        ends@.len() == a.team.request.agents@.len(),
        call_ensures(TeamCreateTool::finish, (tool, a, ends, first), report_a),
        call_ensures(TeamCreateTool::finish, (tool, b, ends, second), report_b),
    ensures
        exists|outputs: Seq<Seq<char>>, list: Seq<JsonModel>, collected: Seq<char>|
            #![trigger tells(report_a, a, ends@, outputs, list, collected)]
            tells(report_a, a, ends@, outputs, list, collected) && tells(
                report_b,
                b,
                ends@,
                outputs,
                list,
                collected,
            ),
        report_a.results_text@ == report_b.results_text@,
{
    lemma_told(a, ends@, report_a);
    lemma_told(b, ends@, report_b);
}

/// Whether a reply is that of a team without agents: a success without results.
pub open spec fn tells_of_none(reply: ToolResult, team: PreparedTeam) -> bool {
    &&& !reply.is_error
    &&& reply.content@ == json_text(
        JsonModel::Object(
            map![
                "team_name"@ => JsonModel::Text(team.team.name@),
                "team_file_path"@ => JsonModel::Text(path_text(team.config_path)),
                "lead_agent_id"@ => JsonModel::Text(team.team.lead_agent_id@),
                "agents_spawned"@ => JsonModel::Number(seq!['0']),
                "results"@ => JsonModel::List(Seq::empty()),
            ],
        ),
    )
}

/// A team without agents is answered for as soon as its two files are there.
pub proof fn law_team_without_agents(
    tool: &TeamCreateTool,
    team: PreparedTeam,
    first: &mut TeamRegistry,
    second: &mut TeamRegistry,
    launched: CreateStep,
    next: CreateStep,
)
    requires
        team.team.request.agents@.len() == 0,
        call_ensures(TeamCreateTool::launch, (tool, team, Ok::<(), String>(()), first), launched),
        call_ensures(
            TeamCreateTool::advance,
            (
                tool,
                CreateStep::LayOutResults(team),
                CreateEvent::ResultsLaidOut(Ok::<(), String>(())),
                second,
            ),
            next,
        ),
    ensures
        launched matches CreateStep::Reply(reply) && tells_of_none(reply, team),
        next matches CreateStep::Reply(reply) && tells_of_none(reply, team),
        final(first)@ == old(first)@,
        final(second)@ == old(second)@,
{
    assert(create_follows(
        CreateStep::LayOutResults(team),
        CreateEvent::ResultsLaidOut(Ok::<(), String>(())),
        next,
        old(second)@,
        final(second)@,
    ));
    assert(decimal(0) =~= seq!['0']);
    assert(team@.team.request.agents.len() == 0);
    if let CreateStep::Reply(reply) = launched {
        assert(reply.content@ == reply@.content && reply.is_error == reply@.is_error);
    }
    if let CreateStep::Reply(reply) = next {
        assert(reply.content@ == reply@.content && reply.is_error == reply@.is_error);
    }
}

/// A further agent may be started exactly where one is left and either all may run side by side or
/// all that were started have ended.
pub proof fn law_may_start(parallel: bool, started: usize, ended: usize, total: usize, r: bool)
    requires
        call_ensures(may_start, (parallel, started, ended, total), r),
    ensures
        started >= total ==> !r,
        parallel && started < total ==> r,
        !parallel && started < total ==> (r <==> started == ended),
{
}

/// An agent that is told to stop before it begins ends as cancelled before its start; any other
/// begins.
pub proof fn law_early_end_if(task: &AgentTask, cancelled: bool, end: Option<AgentEnd>)
    requires
        call_ensures(AgentTask::early_end_if, (task, cancelled), end),
    ensures
        cancelled ==> end == Some(AgentEnd::CancelledBeforeStart),
        !cancelled ==> end is None,
{
}

} // verus!
