//! The tool that deletes teams.
//!
//! As with the tool that creates them, one call is a sequence of decisions with outside work
//! between them: looking whether the directory of the team exists, and removing it.

use std::path::PathBuf;
use tokio_util::sync::CancellationToken;
use vstd::prelude::*;
use vstd::string::*;

use crate::create::no_home_reply;
use crate::json::compact_text;
use crate::json::described;
use crate::json::described_fields;
use crate::json::json_bool;
use crate::json::json_model;
use crate::json::json_models;
use crate::json::json_number;
use crate::json::json_object;
use crate::json::json_string;
use crate::json::json_text;
use crate::json::no_entries;
use crate::json::no_fields;
use crate::json::object_schema;
use crate::json::object_schema_value;
use crate::json::put_field;
use crate::json::text_value;
use crate::json::JsonModel;
use crate::names::directory_of_its_own;
use crate::names::displayed_path;
use crate::names::path_display;
use crate::names::sanitize_name;
use crate::names::sanitized;
use crate::names::team_dir_in;
use crate::names::team_path;
use crate::registry::requested;
use crate::registry::told_to_stop;
use crate::registry::token_models;
use crate::registry::tokens_of;
use crate::registry::Teams;
use crate::registry::TeamRegistry;
use crate::schema::TeamDeleteInput;
use crate::text::blank;
use crate::text::decimal;
use crate::text::decimal_text;
use crate::text::is_blank;
use crate::tool::error_reply;
use crate::tool::success_reply;
use crate::tool::PermissionLevel;
use crate::tool::ToolResult;
use crate::tool::ToolResultModel;

verus! {

/// The tool that deletes teams.
pub struct TeamDeleteTool;

/// A team whose agents were told to stop, before its directory is removed.
#[derive(Debug)]
pub struct DisbandedTeam {
    /// The name by which the caller asked for the team.
    pub team_name: String,
    /// The handles by which the agents of the team were told to stop.
    pub cancelled: Vec<CancellationToken>,
    /// The directory to look for and to remove.
    pub dir: PathBuf,
}

/// What is next in a call of the tool: a piece of outside work, or the answer.
#[derive(Debug)]
pub enum DeleteStep {
    /// Look whether the directory of the team exists.
    LookFor(DisbandedTeam),
    /// Remove the directory of the team.
    RemoveDir(DisbandedTeam),
    /// Answer this.
    Reply(ToolResult),
}

/// The answer where a team was asked for by a blank name.
pub open spec fn no_name_reply() -> ToolResultModel {
    error_reply("team_name is required for TeamDelete"@)
}

/// The answer of the tool: a message, the name by which the team was asked for, and how many
/// agents were told to stop.
pub open spec fn deletion_reply(
    message: Seq<char>,
    team_name: Seq<char>,
    cancelled: nat,
) -> ToolResultModel {
    success_reply(
        json_text(
            JsonModel::Object(
                no_entries().insert("success"@, JsonModel::Bool(true)).insert(
                    "message"@,
                    JsonModel::Text(message),
                ).insert("team_name"@, JsonModel::Text(team_name)).insert(
                    "cancelled_agents"@,
                    JsonModel::Number(decimal(cancelled)),
                ),
            ),
        ),
    )
}

/// The answer for a team without a directory.
pub open spec fn absent_reply(team_name: Seq<char>, cancelled: nat) -> ToolResultModel {
    deletion_reply(
        "Team '"@ + team_name
            + "' directory not found (may have been cleaned up already). Cancelled "@ + decimal(
            cancelled,
        ) + " agent(s)."@,
        team_name,
        cancelled,
    )
}

/// The answer for a team whose directory was removed.
pub open spec fn removed_reply(team_name: Seq<char>, cancelled: nat) -> ToolResultModel {
    deletion_reply(
        "Cleaned up team \""@ + team_name + "\" and cancelled "@ + decimal(cancelled)
            + " agent(s)."@,
        team_name,
        cancelled,
    )
}

/// The answer for a team whose directory could not be removed.
pub open spec fn stuck_reply(dir: PathBuf, cause: Seq<char>) -> ToolResultModel {
    error_reply("Failed to remove team directory '"@ + path_display(dir) + "': "@ + cause)
}

/// The active teams once a team was asked to be deleted.
pub open spec fn teams_after(
    teams: Teams,
    team_name: Seq<char>,
) -> Teams {
    if blank(team_name) {
        teams
    } else {
        teams.remove(sanitized(team_name))
    }
}

/// The properties in the input of the tool.
pub open spec fn delete_properties() -> Map<Seq<char>, JsonModel> {
    no_entries().insert(
        "team_name"@,
        JsonModel::Object(described("string"@, "Name of the team to delete."@)),
    )
}

/// The names of the properties that the input of the tool must have.
pub open spec fn delete_required() -> Seq<JsonModel> {
    seq![JsonModel::Text("team_name"@)]
}

impl TeamDeleteTool {
    /// The name by which the tool is called.
    pub fn name(&self) -> (name: &str)
        ensures
            name@ == "TeamDelete"@,
    {
        "TeamDelete"
    }

    /// What the tool is for.
    pub fn description(&self) -> (text: &str)
        ensures
            text@
                == "Cancel a running team and clean up its directories. Signals all in-flight agents to stop, then removes ~/.claurst/teams/{team_name}/."@,
    {
        "Cancel a running team and clean up its directories. Signals all in-flight agents to stop, then removes ~/.claurst/teams/{team_name}/."
    }

    /// What the tool asks leave for.
    pub fn permission_level(&self) -> (level: PermissionLevel)
        ensures
            level == PermissionLevel::Write,
    {
        PermissionLevel::Write
    }

    /// The JSON schema of the input of the tool.
    pub fn input_schema(&self) -> (schema: serde_json::Value)
        ensures
            json_model(schema) == object_schema(delete_properties(), delete_required()),
    {
        let mut properties = no_fields();
        put_field(
            &mut properties,
            "team_name",
            json_object(described_fields("string", "Name of the team to delete.")),
        );
        let mut required: Vec<serde_json::Value> = Vec::new();
        required.push(text_value("team_name"));
        assert(json_models(required@) =~= delete_required());
        object_schema_value(properties, required)
    }

    /// Tells the agents of a team to stop and strikes the team out of the active teams, then
    /// names its directory.
    pub fn disband_in(
        &self,
        request: TeamDeleteInput,
        registry: &mut TeamRegistry,
        home: Option<PathBuf>,
    ) -> (r: Result<DisbandedTeam, ToolResult>)
        ensures
            final(registry)@ == teams_after(old(registry)@, request.team_name@),
            !blank(request.team_name@) ==> told_to_stop(
                tokens_of(old(registry)@, sanitized(request.team_name@)),
            ),
            match r {
                Ok(team) => {
                    &&& !blank(request.team_name@)
                    &&& home matches Some(h)
                    &&& team.dir == team_path(h, request.team_name@)
                    &&& directory_of_its_own(h, request.team_name@)
                    &&& team.team_name@ == request.team_name@
                    &&& token_models(team.cancelled@) == requested(
                        tokens_of(old(registry)@, sanitized(request.team_name@)),
                    )
                },
                Err(reply) => if blank(request.team_name@) {
                    reply@ == no_name_reply()
                } else {
                    home is None && reply@ == no_home_reply()
                },
            },
    {
        if is_blank(request.team_name.as_str()) {
            return Err(ToolResult::error("team_name is required for TeamDelete".to_owned()));
        }
        let safe_name = sanitize_name(request.team_name.as_str());
        let cancelled = registry.disband(safe_name.as_str());
        match team_dir_in(home, request.team_name.as_str()) {
            Some(dir) => Ok(DisbandedTeam { team_name: request.team_name, cancelled, dir }),
            None => Err(ToolResult::error("Could not determine home directory".to_owned())),
        }
    }

    /// Goes on with a disbanded team, by whether its directory exists.
    pub fn looked_up(&self, team: DisbandedTeam, found: bool) -> (r: DeleteStep)
        ensures
            if found {
                r == DeleteStep::RemoveDir(team)
            } else {
                r matches DeleteStep::Reply(reply) && reply@ == absent_reply(
                    team.team_name@,
                    team.cancelled@.len(),
                )
            },
    {
        if found {
            return DeleteStep::RemoveDir(team);
        }
        let mut message = "Team '".to_owned();
        message.append(team.team_name.as_str());
        message.append("' directory not found (may have been cleaned up already). Cancelled ");
        message.append(decimal_text(team.cancelled.len() as u64).as_str());
        message.append(" agent(s).");
        DeleteStep::Reply(deletion_result(message, &team))
    }

    /// What is answered of a disbanded team, by what removing its directory came to.
    pub fn removed(&self, team: DisbandedTeam, outcome: Result<(), String>) -> (reply: ToolResult)
        ensures
            reply@ == (match outcome {
                Ok(_) => removed_reply(team.team_name@, team.cancelled@.len()),
                Err(cause) => stuck_reply(team.dir, cause@),
            }),
    {
        match outcome {
            Ok(_) => {
                let mut message = "Cleaned up team \"".to_owned();
                message.append(team.team_name.as_str());
                message.append("\" and cancelled ");
                message.append(decimal_text(team.cancelled.len() as u64).as_str());
                message.append(" agent(s).");
                deletion_result(message, &team)
            },
            Err(cause) => {
                let mut text = "Failed to remove team directory '".to_owned();
                text.append(displayed_path(&team.dir).as_str());
                text.append("': ");
                text.append(cause.as_str());
                ToolResult::error(text)
            },
        }
    }
}

fn deletion_result(message: String, team: &DisbandedTeam) -> (reply: ToolResult)
    ensures
        reply@ == deletion_reply(message@, team.team_name@, team.cancelled@.len()),
{
    let mut fields = no_fields();
    put_field(&mut fields, "success", json_bool(true));
    put_field(&mut fields, "message", json_string(message));
    put_field(&mut fields, "team_name", json_string(team.team_name.clone()));
    put_field(&mut fields, "cancelled_agents", json_number(team.cancelled.len()));
    ToolResult::success(compact_text(&json_object(fields)))
}

} // verus!
