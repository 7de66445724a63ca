use std::path::PathBuf;
use team_tool::create::{
    agent_output, may_start, result_sections, results_document, AgentEnd, AgentTask, ConfigError, CreateStep,
    TeamCreateTool, TeamDraft, AGENT_TIMEOUT_SECS, MAX_TEAM_DEPTH,
};
use team_tool::delete::{DeleteStep, TeamDeleteTool};
use team_tool::registry::{is_cancelled, TeamRegistry};
use team_tool::schema::{
    default_parallel, AgentResult, AgentSpec, TeamCreateInput, TeamDeleteInput,
};
use team_tool::steps::{CreateEvent, DeleteEvent};
use team_tool::tool::{PermissionLevel, ToolContext, ToolResult};

fn make_ctx(depth: u32) -> ToolContext {
    ToolContext { session_id: "team-test".to_string(), team_depth: depth }
}

fn home() -> Option<PathBuf> {
    Some(PathBuf::from("/home/tester"))
}

fn agent(name: &str, task: Option<&str>) -> AgentSpec {
    AgentSpec {
        name: name.to_string(),
        role: None,
        tools: None,
        task: task.map(|t| t.to_string()),
    }
}

fn request(team_name: &str, task: &str, agents: Vec<AgentSpec>, parallel: bool) -> TeamCreateInput {
    TeamCreateInput {
        team_name: team_name.to_string(),
        task: task.to_string(),
        agents,
        parallel,
        description: None,
    }
}

fn draft(request: TeamCreateInput, depth: u32) -> TeamDraft {
    TeamCreateTool.draft_in(request, make_ctx(depth), home()).unwrap()
}

fn refused(request: TeamCreateInput, depth: u32, home: Option<PathBuf>) -> ToolResult {
    TeamCreateTool.draft_in(request, make_ctx(depth), home).unwrap_err()
}

/// Runs the agents as far side by side as they may be. Of those that run side by side the last
/// one is the first to end.
fn run_all(
    tasks: &[AgentTask],
    parallel: bool,
    run: &dyn Fn(&AgentTask) -> AgentEnd,
) -> Vec<AgentEnd> {
    let mut ends: Vec<AgentEnd> = Vec::new();
    while ends.len() < tasks.len() {
        let ended = ends.len();
        let mut started = ended;
        while may_start(parallel, started, ended, tasks.len()) {
            started += 1;
        }
        let mut batch: Vec<AgentEnd> = tasks[ended..started].iter().rev().map(|t| run(t)).collect();
        batch.reverse();
        ends.extend(batch);
    }
    ends
}

/// Runs a whole call on a host where nothing exists and all work succeeds.
fn execute(
    request: TeamCreateInput,
    depth: u32,
    run: &dyn Fn(&AgentTask) -> AgentEnd,
) -> ToolResult {
    let mut registry = TeamRegistry::new();
    let mut step = match TeamCreateTool.draft_in(request, make_ctx(depth), home()) {
        Ok(draft) => CreateStep::LookFor(draft),
        Err(reply) => CreateStep::Reply(reply),
    };
    loop {
        let event = match &step {
            CreateStep::LookFor(_) => CreateEvent::Found(false),
            CreateStep::MakeDir(_) => CreateEvent::DirMade(Ok(())),
            CreateStep::WriteConfig(_) => CreateEvent::ConfigWritten(Ok(())),
            CreateStep::LayOutResults(_) => CreateEvent::ResultsLaidOut(Ok(())),
            CreateStep::RunAgents(team, tasks) => {
                CreateEvent::AgentsEnded(run_all(tasks, team.team.request.parallel, run))
            }
            CreateStep::SaveResults(_) => CreateEvent::ResultsSaved,
            CreateStep::Reply(_) => break,
        };
        step = TeamCreateTool.advance(step, event, &mut registry);
    }
    match step {
        CreateStep::Reply(reply) => reply,
        _ => unreachable!(),
    }
}

fn instant_runner(task: &AgentTask) -> AgentEnd {
    AgentEnd::Answered(format!("result:{}", task.call.prompt))
}

fn parse(content: &str) -> serde_json::Value {
    serde_json::from_str(content).unwrap()
}

// ---------------------------------------------------------------------------
// Creating and running
// ---------------------------------------------------------------------------

#[test]
fn test_serial_parallel_serializable() {
    let agents = || {
        vec![
            agent("alpha", Some("task-A")),
            agent("beta", Some("task-B")),
            agent("gamma", Some("task-C")),
        ]
    };

    let r_par = execute(request("test-ser-par", "shared", agents(), true), 0, &instant_runner);
    assert!(!r_par.is_error, "parallel run failed: {}", r_par.content);

    let r_ser = execute(request("test-ser-seq", "shared", agents(), false), 0, &instant_runner);
    assert!(!r_ser.is_error, "serial run failed: {}", r_ser.content);

    let extract = |content: &str| -> Vec<(String, String)> {
        let v = parse(content);
        let mut pairs: Vec<(String, String)> = v["results"]
            .as_array()
            .unwrap()
            .iter()
            .map(|r| {
                (
                    r["agent"].as_str().unwrap().to_string(),
                    r["output"].as_str().unwrap().to_string(),
                )
            })
            .collect();
        pairs.sort_by(|a, b| a.0.cmp(&b.0));
        pairs
    };

    let par_results = extract(&r_par.content);
    let ser_results = extract(&r_ser.content);

    assert_eq!(
        par_results, ser_results,
        "parallel and serial results differ — serializability violated"
    );
    assert_eq!(par_results[1], ("beta".to_string(), "result:task-B".to_string()));
    assert_eq!(par_results.len(), 3);
}

#[test]
fn test_recursion_depth_limit() {
    let result = execute(
        request("nested-team", "some task", vec![agent("bot", None)], true),
        MAX_TEAM_DEPTH,
        &instant_runner,
    );
    assert!(result.is_error, "expected an error when team_depth >= MAX_TEAM_DEPTH");
    assert!(
        result.content.contains("recursion depth limit"),
        "error should mention recursion depth, got: {}",
        result.content
    );
}

#[test]
fn test_depth_incremented_for_sub_agents() {
    let captured_depth = std::cell::Cell::new(None::<u32>);
    let result = execute(
        request("test-depth-inc", "t", vec![agent("a", None)], true),
        0,
        &|task: &AgentTask| {
            captured_depth.set(Some(task.call.ctx.team_depth));
            AgentEnd::Answered("done".to_string())
        },
    );
    assert!(!result.is_error, "{}", result.content);

    let depth = captured_depth.get().unwrap();
    assert_eq!(depth, 1, "sub-agent context should have team_depth = parent + 1");
}

#[test]
fn test_agent_timeout() {
    let result = execute(
        request("test-timeout", "slow task", vec![agent("slow-bot", None)], false),
        0,
        &|_task: &AgentTask| AgentEnd::TimedOut,
    );
    assert!(
        !result.is_error,
        "execute should succeed even when an agent times out: {}",
        result.content
    );
    let val = parse(&result.content);
    let output = val["results"][0]["output"].as_str().unwrap_or("");
    assert!(
        output.contains("timed out"),
        "expected timeout message in agent output, got: {}",
        output
    );
    assert_eq!(output, "[Agent 'slow-bot' timed out after 120s]");
    assert_eq!(AGENT_TIMEOUT_SECS, 120);
}

#[test]
fn nested_teams_come_to_an_end() {
    let mut depth = 0;
    let mut teams = 0;
    while !execute(request("n", "t", vec![agent("a", None)], true), depth, &instant_runner).is_error
    {
        teams += 1;
        depth += 1;
    }
    assert_eq!(teams, 3);
}

#[test]
fn the_depth_refusal_names_the_limit_twice() {
    let reply = refused(request("t", "x", vec![], true), 5, home());
    assert!(reply.is_error);
    assert_eq!(
        reply.content,
        "TeamCreate recursion depth limit (3) exceeded. Nested team creation beyond depth 3 is not permitted."
    );
}

#[test]
fn requests_are_refused_in_order() {
    let reply = refused(request(" \t", "", vec![], true), 9, None);
    assert_eq!(reply.content, "team_name is required for TeamCreate");
    let reply = refused(request("t", " \n", vec![], true), 9, None);
    assert_eq!(reply.content, "task is required for TeamCreate");
    let reply = refused(request("t", "x", vec![], true), 2, None);
    assert!(reply.is_error);
    assert_eq!(reply.content, "Could not determine home directory");
}

#[test]
fn a_draft_has_the_name_and_the_directory_of_the_team() {
    let d = draft(request("My Team!", "x", vec![], true), 0);
    assert_eq!(d.safe_name, "My-Team-");
    assert_eq!(d.lead_agent_id, "team-lead@My-Team-");
    assert_eq!(d.dir, PathBuf::from("/home/tester/.claurst/teams/My-Team-"));
    assert_eq!(d.context.session_id, "team-test");
}

#[test]
fn a_team_keeps_its_name_where_the_directory_is_free() {
    let d = draft(request("My Team", "x", vec![], true), 0);
    let team = TeamCreateTool.settle_in(d, None, None).unwrap();
    assert_eq!(team.name, "My-Team");
    assert_eq!(team.dir, PathBuf::from("/home/tester/.claurst/teams/My-Team"));
}

#[test]
fn a_team_gets_a_suffix_where_the_directory_is_taken() {
    let mut id = [0u8; 16];
    id[0] = 0xab;
    id[1] = 0x0c;
    id[2] = 0xd1;
    let d = draft(request("My Team", "x", vec![], true), 0);
    let team = TeamCreateTool.settle_in(d, Some(id), home()).unwrap();
    assert_eq!(team.name, "My-Team-ab0cd1");
    assert_eq!(team.dir, PathBuf::from("/home/tester/.claurst/teams/My-Team-ab0cd1"));
    assert_eq!(team.lead_agent_id, "team-lead@My-Team");

    let d = draft(request("My Team", "x", vec![], true), 0);
    let reply = TeamCreateTool.settle_in(d, Some(id), None).unwrap_err();
    assert_eq!(reply.content, "Could not determine home directory");
}

#[test]
fn a_taken_directory_gets_a_random_suffix() {
    if dirs::home_dir().is_none() {
        return;
    }
    let name = |_: u32| {
        let d = draft(request("t", "x", vec![], true), 0);
        TeamCreateTool.settle(d, true).unwrap().name
    };
    let names: Vec<String> = (0..8).map(name).collect();
    for n in &names {
        assert_eq!(n.len(), 8);
        assert!(n.starts_with("t-"));
        assert!(n[2..].chars().all(|c| c.is_ascii_digit() || ('a'..='f').contains(&c)));
    }
    assert!(names.iter().any(|n| n != &names[0]));
}

#[test]
fn the_configuration_lists_the_agents() {
    let spec = AgentSpec {
        name: "b".to_string(),
        role: Some("critic".to_string()),
        tools: Some(vec!["Read".to_string(), "Grep".to_string()]),
        task: None,
    };
    let mut req = request("t", "x", vec![agent("a", None), spec], false);
    req.description = Some("about".to_string());
    let d = draft(req, 1);
    let team = TeamCreateTool.settle_in(d, None, None).unwrap();
    let p = TeamCreateTool.prepare_at(team, Ok(()), 42).unwrap();
    let c = &p.config;
    assert_eq!(c.name, "t");
    assert_eq!(c.task, "x");
    assert_eq!(c.description, Some("about".to_string()));
    assert_eq!(c.created_at, 42);
    assert_eq!(c.lead_agent_id, "team-lead@t");
    assert_eq!(c.lead_session_id, "team-test");
    assert!(!c.parallel);
    assert_eq!(c.members.len(), 2);
    assert_eq!(c.members[0].agent_id, "agent-0@t");
    assert_eq!(c.members[0].name, "a");
    assert_eq!(c.members[0].role, "assistant");
    assert_eq!(c.members[0].joined_at, 42);
    assert_eq!(c.members[0].tools, None);
    assert_eq!(c.members[1].agent_id, "agent-1@t");
    assert_eq!(c.members[1].role, "critic");
    assert_eq!(c.members[1].tools, Some(vec!["Read".to_string(), "Grep".to_string()]));
    assert_eq!(p.config_path, PathBuf::from("/home/tester/.claurst/teams/t/config.json"));
    assert_eq!(p.results_path, PathBuf::from("/home/tester/.claurst/teams/t/results.json"));
}

#[test]
fn the_agents_of_a_large_team_have_distinct_identifiers() {
    let agents: Vec<AgentSpec> = (0..25).map(|_| agent("same", None)).collect();
    let d = draft(request("t", "x", agents, true), 0);
    let team = TeamCreateTool.settle_in(d, None, None).unwrap();
    let p = TeamCreateTool.prepare(team, Ok(())).unwrap();
    assert!(p.config.created_at > 1_600_000_000_000);
    for i in 0..25 {
        assert_eq!(p.config.members[i].agent_id, format!("agent-{}@t", i));
    }
}

#[test]
fn agents_are_started_with_their_own_call() {
    let spec = AgentSpec {
        name: "b".to_string(),
        role: Some("critic".to_string()),
        tools: Some(vec!["Read".to_string()]),
        task: Some("own".to_string()),
    };
    let seen = std::cell::RefCell::new(Vec::new());
    execute(request("t x", "shared", vec![agent("a", None), spec], false), 1, &|t: &AgentTask| {
        seen.borrow_mut().push((
            t.name.clone(),
            t.call.description.clone(),
            t.call.prompt.clone(),
            t.call.tools.clone(),
            t.call.system.clone(),
            t.call.max_turns,
            t.call.ctx.team_depth,
            t.call.ctx.session_id.clone(),
        ));
        AgentEnd::Cancelled
    });
    let seen = seen.into_inner();
    assert_eq!(seen[0].1, "t-x/a");
    assert_eq!(seen[0].2, "shared");
    assert_eq!(seen[0].3, None);
    assert_eq!(
        seen[0].4,
        Some(
            "You are agent 'a' on team 't-x'.  Your role: assistant.\nWork on the assigned task thoroughly and return your complete findings."
                .to_string()
        )
    );
    assert_eq!(seen[0].5, Some(10));
    assert_eq!(seen[0].6, 2);
    assert_eq!(seen[0].7, "team-test");
    assert_eq!(seen[1].0, "b");
    assert_eq!(seen[1].1, "t-x/b");
    assert_eq!(seen[1].2, "own");
    assert_eq!(seen[1].3, Some(vec!["Read".to_string()]));
    assert!(seen[1].4.as_ref().unwrap().contains("Your role: critic."));
}

#[test]
fn a_team_without_agents_is_answered_at_once() {
    let reply = execute(request("solo", "x", vec![], true), 0, &instant_runner);
    assert!(!reply.is_error);
    assert_eq!(
        reply.content,
        "{\"agents_spawned\":0,\"lead_agent_id\":\"team-lead@solo\",\"results\":[],\"team_file_path\":\"/home/tester/.claurst/teams/solo/config.json\",\"team_name\":\"solo\"}"
    );
}

#[test]
fn the_answer_holds_the_results_and_the_collected_output() {
    let reply = execute(
        request("duo", "shared", vec![agent("a", None), agent("b", Some("own"))], false),
        0,
        &instant_runner,
    );
    let v = parse(&reply.content);
    assert_eq!(v["team_name"].as_str(), Some("duo"));
    assert_eq!(
        v["team_file_path"].as_str(),
        Some("/home/tester/.claurst/teams/duo/config.json")
    );
    assert_eq!(v["lead_agent_id"].as_str(), Some("team-lead@duo"));
    assert_eq!(v["agents_spawned"].as_u64(), Some(2));
    assert_eq!(v["parallel"].as_bool(), Some(false));
    assert_eq!(v["results"].as_array().unwrap().len(), 2);
    assert_eq!(v["results"][1]["agent"].as_str(), Some("b"));
    assert_eq!(v["results"][1]["output"].as_str(), Some("result:own"));
    assert_eq!(
        v["aggregated_output"].as_str(),
        Some("## Agent: a\n\nresult:shared\n\n## Agent: b\n\nresult:own")
    );
    assert_eq!(v.as_object().unwrap().len(), 7);
}

#[test]
fn every_end_of_an_agent_has_its_output() {
    assert_eq!(agent_output("a", &AgentEnd::CancelledBeforeStart), "[Cancelled before start]");
    assert_eq!(agent_output("a", &AgentEnd::Answered("x".to_string())), "x");
    assert_eq!(agent_output("a", &AgentEnd::Cancelled), "[Agent cancelled by TeamDelete]");
    assert_eq!(agent_output("a", &AgentEnd::TimedOut), "[Agent 'a' timed out after 120s]");
}

#[test]
fn the_results_are_saved_as_indented_json() {
    let results = vec![AgentResult { agent: "a".to_string(), output: "x\"y".to_string() }];
    assert_eq!(
        results_document(&results),
        "[\n  {\n    \"agent\": \"a\",\n    \"output\": \"x\\\"y\"\n  }\n]"
    );
    assert_eq!(results_document(&vec![]), "[]");
    assert_eq!(TeamCreateTool.results_placeholder(), "[]");
}

#[test]
fn sections_stand_one_after_the_other() {
    let results = vec![
        AgentResult { agent: "a".to_string(), output: "1".to_string() },
        AgentResult { agent: "b".to_string(), output: "".to_string() },
    ];
    assert_eq!(result_sections(&results), "## Agent: a\n\n1\n\n## Agent: b\n\n\n\n");
    assert_eq!(result_sections(&vec![]), "");
}

fn fails_with(step: CreateStep, event: CreateEvent, text: &str) {
    let mut registry = TeamRegistry::new();
    match TeamCreateTool.advance(step, event, &mut registry) {
        CreateStep::Reply(reply) => {
            assert!(reply.is_error);
            assert_eq!(reply.content, text);
        }
        other => panic!("{:?}", other),
    }
    assert_eq!(registry.disband("t").len(), 0);
}

#[test]
fn failed_work_ends_the_call() {
    let named = || {
        let d = draft(request("t", "x", vec![agent("a", None)], true), 0);
        TeamCreateTool.settle_in(d, None, None).unwrap()
    };
    let prepared = || TeamCreateTool.prepare_at(named(), Ok(()), 1).unwrap();
    fails_with(
        CreateStep::MakeDir(named()),
        CreateEvent::DirMade(Err("no".to_string())),
        "Failed to create team directory: no",
    );
    fails_with(
        CreateStep::WriteConfig(prepared()),
        CreateEvent::ConfigWritten(Err(ConfigError::Serialise("odd".to_string()))),
        "Serialisation error: odd",
    );
    fails_with(
        CreateStep::WriteConfig(prepared()),
        CreateEvent::ConfigWritten(Err(ConfigError::Write("full".to_string()))),
        "Failed to write config.json: full",
    );
    fails_with(
        CreateStep::LayOutResults(prepared()),
        CreateEvent::ResultsLaidOut(Err("full".to_string())),
        "Failed to write results.json: full",
    );
}

#[test]
fn a_finished_team_is_active_no_longer() {
    let mut registry = TeamRegistry::new();
    let d = draft(request("t", "x", vec![agent("a", None), agent("b", None)], true), 0);
    let team = TeamCreateTool.settle_in(d, None, None).unwrap();
    let p = TeamCreateTool.prepare_at(team, Ok(()), 1).unwrap();
    let (p, tasks) = match TeamCreateTool.launch(p, Ok(()), &mut registry) {
        CreateStep::RunAgents(p, tasks) => (p, tasks),
        other => panic!("{:?}", other),
    };
    assert!(tasks[0].cancel != tasks[1].cancel);
    let ends = vec![AgentEnd::Answered("1".to_string()), AgentEnd::Cancelled];
    let report = TeamCreateTool.finish(p, ends, &mut registry);
    assert_eq!(report.results_path, PathBuf::from("/home/tester/.claurst/teams/t/results.json"));
    assert!(report.results_text.contains("[Agent cancelled by TeamDelete]"));
    assert!(!report.reply.is_error);
    assert_eq!(registry.disband("t").len(), 0);
    assert!(!tasks[0].cancel.is_cancelled());
}

#[test]
fn a_call_begins_below_the_home_directory_of_the_user() {
    let step = TeamCreateTool.begin(request("t", "x", vec![], true), make_ctx(0));
    match (step, dirs::home_dir()) {
        (CreateStep::LookFor(d), Some(h)) => {
            assert_eq!(d.dir, h.join(".claurst").join("teams").join("t"))
        }
        (CreateStep::Reply(r), None) => {
            assert_eq!(r.content, "Could not determine home directory")
        }
        (other, _) => panic!("{:?}", other),
    }
    match TeamCreateTool.begin(request("", "x", vec![], true), make_ctx(0)) {
        CreateStep::Reply(r) => assert_eq!(r.content, "team_name is required for TeamCreate"),
        other => panic!("{:?}", other),
    }
}

// ---------------------------------------------------------------------------
// Deleting
// ---------------------------------------------------------------------------

fn delete_input(name: &str) -> TeamDeleteInput {
    TeamDeleteInput { team_name: name.to_string() }
}

fn running(registry: &mut TeamRegistry, name: &str, agents: usize) -> Vec<AgentTask> {
    let agents: Vec<AgentSpec> = (0..agents).map(|_| agent("a", None)).collect();
    let d = draft(request(name, "x", agents, true), 0);
    let team = TeamCreateTool.settle_in(d, None, None).unwrap();
    let p = TeamCreateTool.prepare_at(team, Ok(()), 1).unwrap();
    match TeamCreateTool.launch(p, Ok(()), registry) {
        CreateStep::RunAgents(_, tasks) => tasks,
        other => panic!("{:?}", other),
    }
}

#[test]
fn deleting_a_running_team_tells_its_agents_to_stop() {
    let mut registry = TeamRegistry::new();
    let mine = running(&mut registry, "my team", 2);
    let other = running(&mut registry, "other", 1);
    assert!(mine[0].early_end().is_none());
    let d = TeamDeleteTool.disband_in(delete_input("my team"), &mut registry, home()).unwrap();
    assert_eq!(d.cancelled.len(), 2);
    assert!(d.cancelled[0] == mine[0].cancel && d.cancelled[1] == mine[1].cancel);
    assert_eq!(d.dir, PathBuf::from("/home/tester/.claurst/teams/my-team"));
    for task in &mine {
        assert!(task.cancel.is_cancelled());
        assert!(matches!(task.early_end(), Some(AgentEnd::CancelledBeforeStart)));
    }
    assert!(!other[0].cancel.is_cancelled());
    assert!(other[0].early_end().is_none());

    let again = TeamDeleteTool.disband_in(delete_input("my team"), &mut registry, home()).unwrap();
    assert_eq!(again.cancelled.len(), 0);
    let by_name = TeamDeleteTool.disband_in(delete_input("other"), &mut registry, home()).unwrap();
    assert_eq!(by_name.cancelled.len(), 1);
}

#[test]
fn a_deleted_team_is_still_reported() {
    let mut registry = TeamRegistry::new();
    let agents = vec![agent("a", None), agent("b", None), agent("c", None)];
    let d = draft(request("t", "x", agents, false), 0);
    let team = TeamCreateTool.settle_in(d, None, None).unwrap();
    let p = TeamCreateTool.prepare_at(team, Ok(()), 1).unwrap();
    let (p, tasks) = match TeamCreateTool.launch(p, Ok(()), &mut registry) {
        CreateStep::RunAgents(p, tasks) => (p, tasks),
        other => panic!("{:?}", other),
    };
    assert!(tasks.iter().all(|t| t.early_end().is_none()));
    let deleted = TeamDeleteTool.disband_in(delete_input("t"), &mut registry, home()).unwrap();
    let ends = vec![
        AgentEnd::Answered("done".to_string()),
        AgentEnd::Cancelled,
        tasks[2].early_end_after(&deleted.cancelled).unwrap(),
    ];
    let reply = TeamCreateTool.finish(p, ends, &mut registry).reply;
    assert!(!reply.is_error);
    let v = parse(&reply.content);
    assert_eq!(v["agents_spawned"].as_u64(), Some(3));
    assert_eq!(v["results"][0]["output"].as_str(), Some("done"));
    assert_eq!(v["results"][1]["output"].as_str(), Some("[Agent cancelled by TeamDelete]"));
    assert_eq!(v["results"][2]["output"].as_str(), Some("[Cancelled before start]"));
}

#[test]
fn no_agent_of_a_deleted_team_starts() {
    let mut registry = TeamRegistry::new();
    let mine = running(&mut registry, "mine", 3);
    let other = running(&mut registry, "other", 1);
    assert!(mine.iter().all(|t| t.early_end_after(&vec![]).is_none()));
    let deleted = TeamDeleteTool.disband_in(delete_input("mine"), &mut registry, home()).unwrap();
    for task in &mine {
        assert!(matches!(
            task.early_end_after(&deleted.cancelled),
            Some(AgentEnd::CancelledBeforeStart)
        ));
        assert!(is_cancelled(&task.cancel, &deleted.cancelled));
    }
    assert!(other[0].early_end_after(&deleted.cancelled).is_none());
    assert!(!is_cancelled(&other[0].cancel, &deleted.cancelled));
}

#[test]
fn a_deletion_stays_directly_below_the_directory_of_all_teams() {
    let mut registry = TeamRegistry::new();
    let base = PathBuf::from("/home/tester/.claurst/teams");
    for (name, dir) in [("..", "--"), ("/", "-"), ("../other", "---other"), ("a/b", "a-b")] {
        match looked_up(&mut registry, name, true) {
            DeleteStep::RemoveDir(d) => {
                assert_eq!(d.dir, base.join(dir));
                assert_eq!(d.dir.parent(), Some(base.as_path()));
                assert_ne!(d.dir, base);
            }
            other => panic!("{:?}", other),
        }
    }
}

#[test]
fn a_taken_directory_is_left_alone() {
    let home = match dirs::home_dir() {
        Some(h) => h,
        None => return,
    };
    let mut registry = TeamRegistry::new();
    let step = TeamCreateTool.begin(request("my team", "x", vec![], true), make_ctx(0));
    match TeamCreateTool.advance(step, CreateEvent::Found(true), &mut registry) {
        CreateStep::MakeDir(team) => {
            let base = home.join(".claurst").join("teams");
            assert_ne!(team.dir, base.join("my-team"));
            assert_eq!(team.dir, base.join(&team.name));
            assert!(team.name.starts_with("my-team-"));
            assert_eq!(team.name.len(), "my-team-".len() + 6);
        }
        other => panic!("{:?}", other),
    }
}

#[test]
fn agents_start_one_at_a_time_unless_they_run_side_by_side() {
    assert!(may_start(true, 0, 0, 2));
    assert!(may_start(true, 1, 0, 2));
    assert!(!may_start(true, 2, 0, 2));
    assert!(may_start(false, 0, 0, 2));
    assert!(!may_start(false, 1, 0, 2));
    assert!(may_start(false, 1, 1, 2));
    assert!(!may_start(false, 2, 2, 2));
    assert!(!may_start(true, 0, 0, 0));
}

#[test]
fn a_team_with_a_suffix_is_deleted_by_its_own_name() {
    let mut registry = TeamRegistry::new();
    let first = running(&mut registry, "t", 1);
    let d = draft(request("t", "x", vec![agent("a", None)], true), 0);
    let team = TeamCreateTool.settle_in(d, Some([0x1f; 16]), home()).unwrap();
    assert_eq!(team.name, "t-1f1f1f");
    let dir = team.dir.clone();
    let p = TeamCreateTool.prepare_at(team, Ok(()), 1).unwrap();
    let tasks = match TeamCreateTool.launch(p, Ok(()), &mut registry) {
        CreateStep::RunAgents(_, tasks) => tasks,
        other => panic!("{:?}", other),
    };
    let d = TeamDeleteTool.disband_in(delete_input("t-1f1f1f"), &mut registry, home()).unwrap();
    assert_eq!(d.dir, dir);
    assert!(tasks[0].cancel.is_cancelled());
    assert!(!first[0].cancel.is_cancelled());
}

#[test]
fn the_collected_output_loses_only_its_end() {
    let reply = execute(
        request("t", "x", vec![agent(" a", None)], true),
        0,
        &|_task: &AgentTask| AgentEnd::Answered("  out \n".to_string()),
    );
    let v = parse(&reply.content);
    assert_eq!(v["aggregated_output"].as_str(), Some("## Agent:  a\n\n  out"));
    assert_eq!(v["results"][0]["output"].as_str(), Some("  out \n"));
}

#[test]
fn an_agent_that_is_not_cancelled_is_started() {
    let mut registry = TeamRegistry::new();
    let tasks = running(&mut registry, "t", 1);
    assert!(tasks[0].early_end_if(false).is_none());
    assert!(matches!(tasks[0].early_end_if(true), Some(AgentEnd::CancelledBeforeStart)));
}

#[test]
fn deletion_is_refused_without_a_name_or_a_home() {
    let mut registry = TeamRegistry::new();
    let tasks = running(&mut registry, "t", 1);
    let r = TeamDeleteTool.disband_in(delete_input("  "), &mut registry, None).unwrap_err();
    assert!(r.is_error);
    assert_eq!(r.content, "team_name is required for TeamDelete");
    assert!(!tasks[0].cancel.is_cancelled());
    let r = TeamDeleteTool.disband_in(delete_input("t"), &mut registry, None).unwrap_err();
    assert_eq!(r.content, "Could not determine home directory");
    assert!(tasks[0].cancel.is_cancelled());
}

fn looked_up(registry: &mut TeamRegistry, name: &str, found: bool) -> DeleteStep {
    let d = TeamDeleteTool.disband_in(delete_input(name), registry, home()).unwrap();
    TeamDeleteTool.advance(DeleteStep::LookFor(d), DeleteEvent::Found(found))
}

#[test]
fn a_missing_directory_is_no_failure() {
    let mut registry = TeamRegistry::new();
    running(&mut registry, "a b", 3);
    match looked_up(&mut registry, "a b", false) {
        DeleteStep::Reply(r) => {
            assert!(!r.is_error);
            assert_eq!(
                r.content,
                "{\"cancelled_agents\":3,\"message\":\"Team 'a b' directory not found (may have been cleaned up already). Cancelled 3 agent(s).\",\"success\":true,\"team_name\":\"a b\"}"
            );
        }
        other => panic!("{:?}", other),
    }
}

#[test]
fn a_removed_directory_is_a_success() {
    let mut registry = TeamRegistry::new();
    let step = looked_up(&mut registry, "t", true);
    match TeamDeleteTool.advance(step, DeleteEvent::DirRemoved(Ok(()))) {
        DeleteStep::Reply(r) => {
            assert!(!r.is_error);
            let v = parse(&r.content);
            assert_eq!(
                v["message"].as_str(),
                Some("Cleaned up team \"t\" and cancelled 0 agent(s).")
            );
            assert_eq!(v["success"].as_bool(), Some(true));
            assert_eq!(v["team_name"].as_str(), Some("t"));
            assert_eq!(v["cancelled_agents"].as_u64(), Some(0));
        }
        other => panic!("{:?}", other),
    }
}

#[test]
fn a_directory_that_stays_is_a_failure() {
    let mut registry = TeamRegistry::new();
    let step = looked_up(&mut registry, "t", true);
    match TeamDeleteTool.advance(step, DeleteEvent::DirRemoved(Err("busy".to_string()))) {
        DeleteStep::Reply(r) => {
            assert!(r.is_error);
            assert_eq!(
                r.content,
                "Failed to remove team directory '/home/tester/.claurst/teams/t': busy"
            );
        }
        other => panic!("{:?}", other),
    }
}

#[test]
fn a_deletion_begins_below_the_home_directory_of_the_user() {
    let mut registry = TeamRegistry::new();
    let tasks = running(&mut registry, "t", 1);
    match (TeamDeleteTool.begin(delete_input("t"), &mut registry), dirs::home_dir()) {
        (DeleteStep::LookFor(d), Some(h)) => {
            assert_eq!(d.dir, h.join(".claurst").join("teams").join("t"))
        }
        (DeleteStep::Reply(r), None) => {
            assert_eq!(r.content, "Could not determine home directory")
        }
        (other, _) => panic!("{:?}", other),
    }
    assert!(tasks[0].cancel.is_cancelled());
}

// ---------------------------------------------------------------------------
// What the tools say of themselves
// ---------------------------------------------------------------------------

#[test]
fn the_tools_introduce_themselves() {
    assert_eq!(TeamCreateTool.name(), "TeamCreate");
    assert_eq!(TeamDeleteTool.name(), "TeamDelete");
    assert_eq!(TeamCreateTool.permission_level(), PermissionLevel::Write);
    assert_eq!(TeamDeleteTool.permission_level(), PermissionLevel::Write);
    assert!(TeamCreateTool.description().ends_with("parallel?, description? }"));
    assert!(TeamDeleteTool.description().ends_with("~/.claurst/teams/{team_name}/."));
    assert!(default_parallel());
}

#[test]
fn the_schema_of_creation() {
    let expected = parse(
        r#"{
            "type": "object",
            "properties": {
                "team_name": { "type": "string", "description": "Name for the new team." },
                "task": { "type": "string", "description": "The shared task all agents should work on." },
                "agents": {
                    "type": "array",
                    "description": "Agent specifications.  Each agent runs independently.",
                    "items": {
                        "type": "object",
                        "properties": {
                            "name": { "type": "string" },
                            "role": { "type": "string", "description": "Role/persona description." },
                            "tools": {
                                "type": "array",
                                "items": { "type": "string" },
                                "description": "Allowed tool names.  Omit to use all tools."
                            },
                            "task": {
                                "type": "string",
                                "description": "Per-agent task override.  Falls back to top-level task."
                            }
                        },
                        "required": ["name"]
                    }
                },
                "parallel": {
                    "type": "boolean",
                    "description": "Run all agents in parallel (default: true).  Set false for sequential."
                },
                "description": {
                    "type": "string",
                    "description": "Optional team description stored in config."
                }
            },
            "required": ["team_name", "task"]
        }"#,
    );
    assert_eq!(TeamCreateTool.input_schema(), expected);
}

#[test]
fn the_schema_of_deletion() {
    let expected = parse(
        r#"{
            "type": "object",
            "properties": {
                "team_name": { "type": "string", "description": "Name of the team to delete." }
            },
            "required": ["team_name"]
        }"#,
    );
    assert_eq!(TeamDeleteTool.input_schema(), expected);
}

#[test]
fn an_input_that_does_not_parse_is_refused() {
    let r = ToolResult::invalid_input("missing field `task`");
    assert!(r.is_error);
    assert_eq!(r.content, "Invalid input: missing field `task`");
}
