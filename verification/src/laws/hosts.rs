//! What holds of the parts that a host of the tools deals with: the active teams, the function that
//! runs agents, and what the tools say of themselves.

use tokio_util::sync::CancellationToken;
use vstd::prelude::*;

use crate::create::TeamCreateTool;
use crate::delete::TeamDeleteTool;
use crate::json::json_model;
use crate::json::JsonModel;
use crate::laws::answers::struck_out;
use crate::laws::creation::fails_with;
use crate::laws::deletion::all_requested;
use crate::registry::duplicate_tokens;
use crate::registry::has_id;
use crate::registry::requested;
use crate::registry::token_cancelled;
use crate::registry::token_id;
use crate::registry::token_model;
use crate::registry::token_models;
use crate::registry::TeamRegistry;
use crate::registry::TokenModel;
use crate::runner::register_agent_runner;
use crate::runner::run_agent;
use crate::runner::try_register_agent_runner;
use crate::runner::AgentCall;
use crate::runner::AgentDispatch;
use crate::runner::AgentRunFn;
use crate::runner::RunnerSlot;
use crate::schema::default_parallel;
use crate::tool::PermissionLevel;
use crate::tool::ToolResult;

verus! {

/// Fresh handles are as many as were asked for. Nobody has requested what they stand for, no two
/// stand for the same cancellation, and no active team holds one of these.
pub proof fn law_fresh_tokens(
    registry: &TeamRegistry,
    count: usize,
    tokens: Vec<CancellationToken>,
    i: int,
    j: int,
    name: Seq<char>,
    k: int,
)
    requires
        call_ensures(TeamRegistry::fresh_tokens, (registry, count), tokens),
        0 <= i < count,
    ensures
        tokens@.len() == count,
        !token_cancelled(tokens@[i]),
        0 <= j < count && i != j ==> token_id(tokens@[i]) != token_id(tokens@[j]),
        registry@.dom().contains(name) && 0 <= k < registry@[name].len() ==> registry@[name][k].id
            != token_id(tokens@[i]),
{
    let models = token_models(tokens@);
    assert(models[i] == token_model(tokens@[i]));
    if 0 <= j < count {
        assert(models[j] == token_model(tokens@[j]));
    }
    if registry@.dom().contains(name) && 0 <= k < registry@[name].len() && registry@[name][k].id
        == models[i].id {
        assert(has_id(registry@[name], models[i].id));
    }
}

/// A team that is entered is held under its name with its handles, in their order, and every other
/// team stays as it was.
pub proof fn law_enlist(
    registry: &mut TeamRegistry,
    name: &str,
    tokens: Vec<CancellationToken>,
    other: Seq<char>,
)
    requires
        call_ensures(TeamRegistry::enlist, (registry, name, tokens), ()),
    ensures
        final(registry)@.dom().contains(name@),
        final(registry)@[name@].len() == tokens@.len(),
        forall|i: int|
            0 <= i < tokens@.len() ==> (#[trigger] final(registry)@[name@][i]) == (TokenModel {
                id: token_id(tokens@[i]),
                cancelled: token_cancelled(tokens@[i]),
            }),
        other != name@ ==> (final(registry)@.dom().contains(other) <==> old(
            registry,
        )@.dom().contains(other)) && final(registry)@[other] == old(registry)@[other],
{
    assert(final(registry)@[name@] == token_models(tokens@));
}

/// A team that is released is held no longer, and every other team stays as it was.
pub proof fn law_release(registry: &mut TeamRegistry, name: &str)
    requires
        call_ensures(TeamRegistry::release, (registry, name), ()),
    ensures
        struck_out(name@, old(registry)@, final(registry)@),
{
}

/// A team that is disbanded is held no longer, and each of the handles that were held for it is
/// handed out cancelled, in their order. For a team that is not held there is none. Every other
/// team stays as it was.
pub proof fn law_disband(
    registry: &mut TeamRegistry,
    name: &str,
    cancelled: Vec<CancellationToken>,
)
    requires
        call_ensures(TeamRegistry::disband, (registry, name), cancelled),
    ensures
        struck_out(name@, old(registry)@, final(registry)@),
        old(registry)@.dom().contains(name@) ==> all_requested(
            cancelled@,
            old(registry)@[name@],
        ),
        !old(registry)@.dom().contains(name@) ==> cancelled@.len() == 0,
{
    let models = token_models(cancelled@);
    assert(models.len() == cancelled@.len());
    if old(registry)@.dom().contains(name@) {
        let tokens = old(registry)@[name@];
        assert(requested(tokens).len() == tokens.len());
        assert forall|i: int| 0 <= i < cancelled@.len() implies token_cancelled(
            #[trigger] cancelled@[i],
        ) && token_id(cancelled@[i]) == tokens[i].id by {
            assert(models[i] == token_model(cancelled@[i]));
            assert(requested(tokens)[i] == (TokenModel { id: tokens[i].id, cancelled: true }));
        }
    } else {
        assert(requested(Seq::<TokenModel>::empty()).len() == 0);
    }
}

/// A new registry holds no team, and copies of handles stand for what the handles stand for.
pub proof fn law_new_registry_and_copies(
    registry: TeamRegistry,
    name: Seq<char>,
    tokens: &Vec<CancellationToken>,
    copies: Vec<CancellationToken>,
)
    requires
        call_ensures(TeamRegistry::new, (), registry),
        call_ensures(duplicate_tokens, (tokens,), copies),
    ensures
        !registry@.dom().contains(name),
        copies@.len() == tokens@.len(),
        forall|i: int|
            0 <= i < copies@.len() ==> token_id(#[trigger] copies@[i]) == token_id(tokens@[i])
                && token_cancelled(copies@[i]) == token_cancelled(tokens@[i]),
{
    assert(token_models(copies@).len() == copies@.len());
    assert(token_models(tokens@).len() == tokens@.len());
    assert forall|i: int| 0 <= i < copies@.len() implies token_id(#[trigger] copies@[i])
        == token_id(tokens@[i]) && token_cancelled(copies@[i]) == token_cancelled(tokens@[i]) by {
        assert(token_models(copies@)[i] == token_model(copies@[i]));
        assert(token_models(tokens@)[i] == token_model(tokens@[i]));
    }
}

/// The first function that is registered stays the one: a new place has none, registering fills an
/// empty place, and registering again is refused, hands the function back and changes nothing.
pub proof fn law_first_runner_stays(
    fresh: RunnerSlot,
    slot: &mut RunnerSlot,
    f: AgentRunFn,
    r: Result<(), AgentRunFn>,
)
    requires
        call_ensures(RunnerSlot::new, (), fresh),
        call_ensures(try_register_agent_runner, (slot, f), r),
    ensures
        fresh@ is None,
        old(slot)@ is None ==> r is Ok && final(slot)@ == Some(f),
        old(slot)@ matches Some(g) ==> r == Err::<(), AgentRunFn>(f) && final(slot)@ == Some(g),
{
}

/// Registering a function where none is fills the place, and what is read there is what was filled
/// in.
pub proof fn law_registered_runner_is_read(
    slot: &mut RunnerSlot,
    f: AgentRunFn,
    read: &RunnerSlot,
    found: Option<AgentRunFn>,
)
    requires
        old(slot)@ is None,
        call_ensures(register_agent_runner, (slot, f), ()),
        read@ == final(slot)@,
        call_ensures(RunnerSlot::registered, (read,), found),
    ensures
        found == Some(f),
{
}

/// An agent is run by the registered function, with the very call it is to be started with. Where
/// none is registered the answer is a note that says so.
pub proof fn law_run_agent(slot: &RunnerSlot, call: AgentCall, dispatch: AgentDispatch)
    requires
        call_ensures(run_agent, (slot, call), dispatch),
    ensures
        slot@ matches Some(f) ==> dispatch == AgentDispatch::Run(f, call),
        slot@ is None ==> (dispatch matches AgentDispatch::Answer(text) && text@
            == "[No agent runner registered — cc-query not initialised]"@),
{
}

/// An answer holds the text that it is made of, and is marked as a success or as an error.
pub proof fn law_answers_hold_their_text(
    content: String,
    what: &str,
    cause: &str,
    success: ToolResult,
    error: ToolResult,
    failure: ToolResult,
    invalid: ToolResult,
)
    requires
        call_ensures(ToolResult::success, (content,), success),
        call_ensures(ToolResult::error, (content,), error),
        call_ensures(ToolResult::failure, (what, cause), failure),
        call_ensures(ToolResult::invalid_input, (cause,), invalid),
    ensures
        !success.is_error && success.content@ == content@,
        fails_with(error, content@),
        fails_with(failure, what@ + cause@),
        fails_with(invalid, "Invalid input: "@ + cause@),
{
    assert(success.content@ == success@.content && success.is_error == success@.is_error);
    assert(error.content@ == error@.content && error.is_error == error@.is_error);
    assert(failure.content@ == failure@.content && failure.is_error == failure@.is_error);
    assert(invalid.content@ == invalid@.content && invalid.is_error == invalid@.is_error);
}

/// The two tools go by their names and ask leave to write. Agents run side by side
/// unless a caller says otherwise, and the file of results is an empty list until they have ended.
pub proof fn law_tools_go_by_their_names(
    create: &TeamCreateTool,
    delete: &TeamDeleteTool,
    create_name: &str,
    delete_name: &str,
    create_level: PermissionLevel,
    delete_level: PermissionLevel,
    parallel: bool,
    placeholder: String,
)
    requires
        call_ensures(TeamCreateTool::name, (create,), create_name),
        call_ensures(TeamDeleteTool::name, (delete,), delete_name),
        call_ensures(TeamCreateTool::permission_level, (create,), create_level),
        call_ensures(TeamDeleteTool::permission_level, (delete,), delete_level),
        call_ensures(default_parallel, (), parallel),
        call_ensures(TeamCreateTool::results_placeholder, (create,), placeholder),
    ensures
        create_name@ == "TeamCreate"@,
        delete_name@ == "TeamDelete"@,
        create_level == PermissionLevel::Write,
        delete_level == PermissionLevel::Write,
        parallel,
        placeholder@ == seq!['[', ']'],
{
    reveal_strlit("[]");
    assert("[]"@ =~= seq!['[', ']']);
}

/// What the two tools say they are for.
pub proof fn law_tools_say_what_they_are_for(
    create: &TeamCreateTool,
    delete: &TeamDeleteTool,
    create_text: &str,
    delete_text: &str,
)
    requires
        call_ensures(TeamCreateTool::description, (create,), create_text),
        call_ensures(TeamDeleteTool::description, (delete,), delete_text),
    ensures
        create_text@
            == "Create a named team of agents that collectively work on a shared task. Each agent gets a restricted tool list and its own prompt. Agents run in parallel by default and their outputs are aggregated. Input: { team_name, task, agents: [{name, role?, tools?, task?}], parallel?, description? }"@,
        delete_text@
            == "Cancel a running team and clean up its directories. Signals all in-flight agents to stop, then removes ~/.claurst/teams/{team_name}/."@,
{
}

/// The entries of a JSON object.
pub open spec fn entries(value: JsonModel) -> Map<Seq<char>, JsonModel> {
    match value {
        JsonModel::Object(fields) => fields,
        _ => Map::empty(),
    }
}

/// The schema of a property of a type that needs no explanation.
pub open spec fn plain(kind: Seq<char>) -> JsonModel {
    JsonModel::Object(map!["type"@ => JsonModel::Text(kind)])
}

/// The schema of a property of a type, with what it is for.
pub open spec fn explained(kind: Seq<char>, text: Seq<char>) -> JsonModel {
    JsonModel::Object(
        map!["type"@ => JsonModel::Text(kind), "description"@ => JsonModel::Text(text)],
    )
}

/// The input of the tool that deletes teams is an object with a name, and the name must be there.
pub proof fn law_delete_schema(tool: &TeamDeleteTool, schema: serde_json::Value)
    requires
        call_ensures(TeamDeleteTool::input_schema, (tool,), schema),
    ensures
        json_model(schema) == JsonModel::Object(
            map![
                "type"@ => JsonModel::Text("object"@),
                "properties"@ => JsonModel::Object(
                    map!["team_name"@ => explained("string"@, "Name of the team to delete."@)],
                ),
                "required"@ => JsonModel::List(seq![JsonModel::Text("team_name"@)]),
            ],
        ),
{
}

/// The input of the tool that creates teams is an object. Its name and its task must be there, and
/// so must the name of each agent.
pub proof fn law_create_schema(tool: &TeamCreateTool, schema: serde_json::Value)
    requires
        call_ensures(TeamCreateTool::input_schema, (tool,), schema),
    ensures
        json_model(schema) == JsonModel::Object(
            map![
                "type"@ => JsonModel::Text("object"@),
                "properties"@ => JsonModel::Object(
                    map![
                        "team_name"@ => explained("string"@, "Name for the new team."@),
                        "task"@ => explained(
                            "string"@,
                            "The shared task all agents should work on."@,
                        ),
                        "agents"@ => JsonModel::Object(
                            entries(
                                explained(
                                    "array"@,
                                    "Agent specifications.  Each agent runs independently."@,
                                ),
                            ).insert("items"@, agent_form()),
                        ),
                        "parallel"@ => explained(
                            "boolean"@,
                            "Run all agents in parallel (default: true).  Set false for sequential."@,
                        ),
                        "description"@ => explained(
                            "string"@,
                            "Optional team description stored in config."@,
                        ),
                    ],
                ),
                "required"@ => JsonModel::List(
                    seq![JsonModel::Text("team_name"@), JsonModel::Text("task"@)],
                ),
            ],
        ),
{
}

/// The form of one agent in the input of the tool that creates teams.
pub open spec fn agent_form() -> JsonModel {
    JsonModel::Object(
        map![
            "type"@ => JsonModel::Text("object"@),
            "properties"@ => JsonModel::Object(
                map![
                    "name"@ => plain("string"@),
                    "role"@ => explained("string"@, "Role/persona description."@),
                    "tools"@ => JsonModel::Object(
                        map![
                            "type"@ => JsonModel::Text("array"@),
                            "items"@ => plain("string"@),
                            "description"@ => JsonModel::Text(
                                "Allowed tool names.  Omit to use all tools."@,
                            ),
                        ],
                    ),
                    "task"@ => explained(
                        "string"@,
                        "Per-agent task override.  Falls back to top-level task."@,
                    ),
                ],
            ),
            "required"@ => JsonModel::List(seq![JsonModel::Text("name"@)]),
        ],
    )
}

} // verus!
