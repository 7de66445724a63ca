use team_tool::registry::{duplicate_tokens, TeamRegistry};
use team_tool::runner::{
    register_agent_runner, run_agent, try_register_agent_runner, AgentCall, AgentDispatch,
    AgentRunFn, RunnerSlot,
};
use team_tool::tool::ToolContext;

fn call() -> AgentCall {
    AgentCall {
        description: "team/a".to_string(),
        prompt: "p".to_string(),
        tools: None,
        system: None,
        max_turns: Some(10),
        ctx: ToolContext { session_id: "s".to_string(), team_depth: 1 },
    }
}

#[test]
fn without_a_runner_an_agent_answers_with_a_stub() {
    let slot = RunnerSlot::new();
    match run_agent(&slot, call()) {
        AgentDispatch::Answer(text) => assert_eq!(
            text,
            "[No agent runner registered — cc-query not initialised]"
        ),
        AgentDispatch::Run(_, _) => panic!("nothing is registered"),
    }
}

#[test]
fn the_registered_runner_gets_the_call() {
    let mut slot = RunnerSlot::new();
    register_agent_runner(&mut slot, AgentRunFn { id: 7 });
    assert_eq!(slot.registered(), Some(AgentRunFn { id: 7 }));
    match run_agent(&slot, call()) {
        AgentDispatch::Run(f, c) => {
            assert_eq!(f, AgentRunFn { id: 7 });
            assert_eq!(c.description, "team/a");
            assert_eq!(c.ctx.team_depth, 1);
        }
        AgentDispatch::Answer(text) => panic!("{}", text),
    }
}

#[test]
fn a_second_runner_is_turned_away() {
    let mut slot = RunnerSlot::new();
    assert_eq!(try_register_agent_runner(&mut slot, AgentRunFn { id: 1 }), Ok(()));
    assert_eq!(
        try_register_agent_runner(&mut slot, AgentRunFn { id: 2 }),
        Err(AgentRunFn { id: 2 })
    );
    assert_eq!(slot.registered(), Some(AgentRunFn { id: 1 }));
}

#[test]
fn fresh_tokens_are_cancelled_one_by_one() {
    let tokens = TeamRegistry::new().fresh_tokens(3);
    assert_eq!(tokens.len(), 3);
    assert!(tokens.iter().all(|t| !t.is_cancelled()));
    assert!(tokens[0] != tokens[1] && tokens[1] != tokens[2] && tokens[0] != tokens[2]);
    let copies = duplicate_tokens(&tokens);
    assert!(copies == tokens);
    tokens[1].cancel();
    assert!(!copies[0].is_cancelled());
    assert!(copies[1].is_cancelled());
    assert!(!copies[2].is_cancelled());
}

#[test]
fn fresh_tokens_are_those_of_no_active_team() {
    let mut registry = TeamRegistry::new();
    let red = registry.fresh_tokens(2);
    registry.enlist("red", duplicate_tokens(&red));
    let blue = registry.fresh_tokens(2);
    for token in &blue {
        assert!(token != &red[0] && token != &red[1]);
    }
}

#[test]
fn disbanding_cancels_the_tokens_of_one_team() {
    let mut registry = TeamRegistry::new();
    let red = registry.fresh_tokens(2);
    let blue = registry.fresh_tokens(1);
    registry.enlist("red", duplicate_tokens(&red));
    registry.enlist("blue", duplicate_tokens(&blue));
    let cancelled = registry.disband("red");
    assert!(cancelled == red);
    assert!(red[0].is_cancelled() && red[1].is_cancelled());
    assert!(!blue[0].is_cancelled());
    assert_eq!(registry.disband("red").len(), 0);
    assert_eq!(registry.disband("green").len(), 0);
    assert_eq!(registry.disband("blue").len(), 1);
    assert!(blue[0].is_cancelled());
}

#[test]
fn a_team_enlisted_again_takes_the_place_of_the_first() {
    let mut registry = TeamRegistry::new();
    let first = registry.fresh_tokens(1);
    let second = registry.fresh_tokens(2);
    registry.enlist("t", duplicate_tokens(&first));
    registry.enlist("t", duplicate_tokens(&second));
    assert_eq!(registry.disband("t").len(), 2);
    assert!(!first[0].is_cancelled());
    assert!(second[0].is_cancelled());
}

#[test]
fn a_released_team_is_not_cancelled() {
    let mut registry = TeamRegistry::new();
    let tokens = registry.fresh_tokens(1);
    registry.enlist("t", duplicate_tokens(&tokens));
    registry.release("t");
    assert_eq!(registry.disband("t").len(), 0);
    assert!(!tokens[0].is_cancelled());
}
