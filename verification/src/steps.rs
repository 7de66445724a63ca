//! Whole calls of the two tools: which work follows which.
//!
//! A call starts with `begin`. The caller does the work that the step names and hands what it
//! came to back to `advance`, until the step is a reply.

use std::path::PathBuf;
use vstd::prelude::*;

use crate::clock::now_millis;
use crate::create::agent_ends;
use crate::create::agent_tasks;
use crate::create::config_failure;
use crate::create::done_reply;
use crate::create::drafted;
use crate::create::idle_reply;
use crate::create::id_bytes;
use crate::create::leaves_taken_directory;
use crate::create::named;
use crate::create::no_home_reply;
use crate::create::outcome;
use crate::create::prepared;
use crate::create::results_file;
use crate::create::results_of;
use crate::create::settled_by;
use crate::create::tasks_for;
use crate::create::watched;
use crate::create::AgentEnd;
use crate::create::ConfigError;
use crate::create::CreateStep;
use crate::create::NamedTeam;
use crate::create::PreparedTeam;
use crate::create::TeamCreateTool;
use crate::create::MAX_TEAM_DEPTH;
use crate::delete::absent_reply;
use crate::delete::no_name_reply;
use crate::delete::removed_reply;
use crate::delete::stuck_reply;
use crate::delete::teams_after;
use crate::delete::DeleteStep;
use crate::delete::TeamDeleteTool;
use crate::names::directory_of_its_own;
use crate::names::law_distinct_name;
use crate::names::law_sanitized_is_not_blank;
use crate::names::law_sanitizing_is_stable;
use crate::names::sanitized;
use crate::names::team_path;
use crate::registry::requested;
use crate::registry::told_to_stop;
use crate::registry::token_models;
use crate::registry::tokens_of;
use crate::registry::unused;
use crate::registry::TeamRegistry;
use crate::registry::Teams;
use crate::schema::TeamCreateInput;
use crate::schema::TeamDeleteInput;
use crate::text::blank;
use crate::tool::error_reply;
use crate::tool::ToolContext;

verus! {

/// What a piece of outside work in the making of a team came to.
#[derive(Debug)]
pub enum CreateEvent {
    /// Whether the directory exists.
    Found(bool),
    DirMade(Result<(), String>),
    ConfigWritten(Result<(), ConfigError>),
    ResultsLaidOut(Result<(), String>),
    /// How each agent ended, in the order of the agents.
    AgentsEnded(Vec<AgentEnd>),
    /// The results were written, or could not be written.
    ResultsSaved,
}

/// What a piece of outside work in the deletion of a team came to.
#[derive(Debug)]
pub enum DeleteEvent {
    /// Whether the directory exists.
    Found(bool),
    DirRemoved(Result<(), String>),
}

/// Whether an event says what the work of a step came to, and the call may go on from there.
/// Agents are readied only where teams may still be nested, and one end is owed for each.
pub open spec fn create_fits(step: CreateStep, event: CreateEvent) -> bool {
    match (step, event) {
        (CreateStep::LookFor(_), CreateEvent::Found(_)) => true,
        (CreateStep::MakeDir(_), CreateEvent::DirMade(_)) => true,
        (CreateStep::WriteConfig(_), CreateEvent::ConfigWritten(_)) => true,
        (CreateStep::LayOutResults(team), CreateEvent::ResultsLaidOut(_)) =>
            team.team.context.team_depth < MAX_TEAM_DEPTH,
        (CreateStep::RunAgents(team, _), CreateEvent::AgentsEnded(ends)) => ends@.len()
            == team.team.request.agents@.len(),
        (CreateStep::SaveResults(_), CreateEvent::ResultsSaved) => true,
        _ => false,
    }
}

/// Whether a team may be run where it is, under a name that is the name of a directory.
pub open spec fn sound_team(team: NamedTeam) -> bool {
    &&& team.context.team_depth < MAX_TEAM_DEPTH
    &&& sanitized(team.name@) == team.name@
    &&& !blank(team.name@)
}

/// Whether a team has the configuration and the files that go with it.
pub open spec fn sound_preparation(team: PreparedTeam) -> bool {
    &&& sound_team(team.team)
    &&& team@ == prepared(team.team@, team.config.created_at)
}

/// What holds of every step of a call: `begin` establishes it and `advance` keeps it.
pub open spec fn sound_step(step: CreateStep) -> bool {
    match step {
        CreateStep::LookFor(draft) => {
            &&& draft.context.team_depth < MAX_TEAM_DEPTH
            &&& draft.safe_name@ == sanitized(draft.request.team_name@)
            &&& !blank(draft.request.team_name@)
        },
        CreateStep::MakeDir(team) => sound_team(team),
        CreateStep::WriteConfig(team) => sound_preparation(team),
        CreateStep::LayOutResults(team) => sound_preparation(team),
        CreateStep::RunAgents(team, _) => sound_preparation(team),
        CreateStep::SaveResults(_) => true,
        CreateStep::Reply(_) => true,
    }
}

/// Whether a call may start with a step, where the home directory is `home`.
pub open spec fn create_begins(
    request: TeamCreateInput,
    context: ToolContext,
    home: Option<PathBuf>,
    step: CreateStep,
) -> bool {
    match drafted(request@, context@, home) {
        Ok(draft) => {
            &&& step matches CreateStep::LookFor(d)
            &&& d@ == draft
            &&& d.request == request
            &&& d.context == context
        },
        Err(reply) => step matches CreateStep::Reply(r) && r@ == reply,
    }
}

/// Whether a step may follow on another one and what its work came to, where the active teams
/// are `before` and then `after`.
pub open spec fn create_follows(
    step: CreateStep,
    event: CreateEvent,
    next: CreateStep,
    before: Teams,
    after: Teams,
) -> bool {
    match (step, event) {
        (CreateStep::LookFor(draft), CreateEvent::Found(taken)) => {
            &&& after == before
            &&& exists|clash: Option<[u8; 16]>, home: Option<PathBuf>|
                #![trigger named(draft@, id_bytes(clash), home)]
                settled_by(taken, clash, home) && (match named(draft@, id_bytes(clash), home) {
                    Ok(team) => {
                        &&& next matches CreateStep::MakeDir(t)
                        &&& t@ == team
                        &&& t.request == draft.request
                        &&& t.context == draft.context
                        &&& leaves_taken_directory(draft, clash, home, t.dir)
                    },
                    Err(reply) => next matches CreateStep::Reply(r) && r@ == reply,
                })
        },
        (CreateStep::MakeDir(team), CreateEvent::DirMade(made)) => {
            &&& after == before
            &&& match made {
                Ok(_) => {
                    &&& next matches CreateStep::WriteConfig(t)
                    &&& t.team == team
                    &&& t@ == prepared(team@, t.config.created_at)
                    &&& call_ensures(now_millis, (), t.config.created_at)
                },
                Err(cause) => next matches CreateStep::Reply(r) && r@ == error_reply(
                    "Failed to create team directory: "@ + cause@,
                ),
            }
        },
        (CreateStep::WriteConfig(team), CreateEvent::ConfigWritten(written)) => {
            &&& after == before
            &&& match written {
                Ok(_) => next == CreateStep::LayOutResults(team),
                Err(error) => next matches CreateStep::Reply(r) && r@ == config_failure(error),
            }
        },
        (CreateStep::LayOutResults(team), CreateEvent::ResultsLaidOut(laid_out)) => match laid_out {
            Ok(_) => if team@.team.request.agents.len() == 0 {
                &&& after == before
                &&& next matches CreateStep::Reply(r)
                &&& r@ == idle_reply(team@)
            } else {
                &&& next matches CreateStep::RunAgents(t, tasks)
                &&& t == team
                &&& agent_tasks(tasks@) == tasks_for(team@.team, watched(tasks@))
                &&& unused(watched(tasks@), before)
                &&& after == before.insert(team@.team.name, watched(tasks@))
            },
            Err(cause) => {
                &&& after == before
                &&& next matches CreateStep::Reply(r)
                &&& r@ == error_reply("Failed to write results.json: "@ + cause@)
            },
        },
        (CreateStep::RunAgents(team, _), CreateEvent::AgentsEnded(ends)) => {
            let results = results_of(team@.team.request.agents, agent_ends(ends@));
            &&& after == before.remove(team@.team.name)
            &&& next matches CreateStep::SaveResults(report)
            &&& report.results_path == team.results_path
            &&& report.results_text@ == results_file(results)
            &&& report.reply@ == done_reply(team@, results)
        },
        (CreateStep::SaveResults(report), CreateEvent::ResultsSaved) => {
            &&& after == before
            &&& next == CreateStep::Reply(report.reply)
        },
        _ => false,
    }
}

impl TeamCreateTool {
    /// Starts a call.
    pub fn begin(&self, request: TeamCreateInput, context: ToolContext) -> (step: CreateStep)
        ensures
            exists|home: Option<PathBuf>|
                call_ensures(dirs::home_dir, (), home) && create_begins(
                    request,
                    context,
                    home,
                    step,
                ),
            sound_step(step),
    {
        let r = self.draft(request, context);
        let ghost home = choose|home: Option<PathBuf>|
            call_ensures(dirs::home_dir, (), home) && outcome(r) == drafted(
                request@,
                context@,
                home,
            );
        let step = match r {
            Ok(draft) => CreateStep::LookFor(draft),
            Err(reply) => CreateStep::Reply(reply),
        };
        assert(create_begins(request, context, home, step));
        step
    }

    /// Goes on with a call when the work of a step is done.
    pub fn advance(&self, step: CreateStep, event: CreateEvent, registry: &mut TeamRegistry) -> (next:
        CreateStep)
        requires
            create_fits(step, event),
        ensures
            create_follows(step, event, next, old(registry)@, final(registry)@),
            sound_step(step) ==> sound_step(next),
    {
        match (step, event) {
            (CreateStep::LookFor(draft), CreateEvent::Found(taken)) => {
                let r = self.settle(draft, taken);
                proof {
                    let (clash, home) = choose|clash: Option<[u8; 16]>, home: Option<PathBuf>|
                        #![trigger named(draft@, id_bytes(clash), home)]
                        settled_by(taken, clash, home) && outcome(r) == named(
                            draft@,
                            id_bytes(clash),
                            home,
                        ) && (r matches Ok(team) ==> leaves_taken_directory(
                            draft,
                            clash,
                            home,
                            team.dir,
                        ));
                    law_sanitizing_is_stable(draft.request.team_name@);
                    if !blank(draft.request.team_name@) {
                        law_sanitized_is_not_blank(draft.request.team_name@);
                    }
                    if let Some(id) = clash {
                        law_distinct_name(draft.request.team_name@, id@);
                    }
                }
                match r {
                    Ok(team) => CreateStep::MakeDir(team),
                    Err(reply) => CreateStep::Reply(reply),
                }
            },
            (CreateStep::MakeDir(team), CreateEvent::DirMade(made)) => {
                match self.prepare(team, made) {
                    Ok(prepared_team) => CreateStep::WriteConfig(prepared_team),
                    Err(reply) => CreateStep::Reply(reply),
                }
            },
            (CreateStep::WriteConfig(team), CreateEvent::ConfigWritten(written)) => {
                match self.config_written(team, written) {
                    Ok(written_team) => CreateStep::LayOutResults(written_team),
                    Err(reply) => CreateStep::Reply(reply),
                }
            },
            (CreateStep::LayOutResults(team), CreateEvent::ResultsLaidOut(laid_out)) => {
                self.launch(team, laid_out, registry)
            },
            (CreateStep::RunAgents(team, _), CreateEvent::AgentsEnded(ends)) => {
                CreateStep::SaveResults(self.finish(team, ends, registry))
            },
            (CreateStep::SaveResults(report), _) => CreateStep::Reply(report.reply),
            (step, _) => step,
        }
    }
}

/// Whether a call that deletes a team may start with a step, where the home directory is `home`
/// and the active teams are `before` and then `after`.
pub open spec fn delete_begins(
    request: TeamDeleteInput,
    home: Option<PathBuf>,
    step: DeleteStep,
    before: Teams,
    after: Teams,
) -> bool {
    &&& after == teams_after(before, request.team_name@)
    &&& !blank(request.team_name@) ==> told_to_stop(
        tokens_of(before, sanitized(request.team_name@)),
    )
    &&& match (blank(request.team_name@), home) {
        (true, _) => step matches DeleteStep::Reply(r) && r@ == no_name_reply(),
        (false, None) => step matches DeleteStep::Reply(r) && r@ == no_home_reply(),
        (false, Some(h)) => {
            &&& step matches DeleteStep::LookFor(team)
            &&& team.team_name@ == request.team_name@
            &&& team.dir == team_path(h, request.team_name@)
            &&& directory_of_its_own(h, request.team_name@)
            &&& token_models(team.cancelled@) == requested(
                tokens_of(before, sanitized(request.team_name@)),
            )
        },
    }
}

/// Whether an event says what the work of a step came to.
pub open spec fn delete_fits(step: DeleteStep, event: DeleteEvent) -> bool {
    match (step, event) {
        (DeleteStep::LookFor(_), DeleteEvent::Found(_)) => true,
        (DeleteStep::RemoveDir(_), DeleteEvent::DirRemoved(_)) => true,
        _ => false,
    }
}

/// Whether a step may follow on another one and what its work came to.
pub open spec fn delete_follows(step: DeleteStep, event: DeleteEvent, next: DeleteStep) -> bool {
    match (step, event) {
        (DeleteStep::LookFor(team), DeleteEvent::Found(found)) => if found {
            next == DeleteStep::RemoveDir(team)
        } else {
            next matches DeleteStep::Reply(r) && r@ == absent_reply(
                team.team_name@,
                team.cancelled@.len(),
            )
        },
        (DeleteStep::RemoveDir(team), DeleteEvent::DirRemoved(removed)) => {
            &&& next matches DeleteStep::Reply(r)
            &&& r@ == (match removed {
                Ok(_) => removed_reply(team.team_name@, team.cancelled@.len()),
                Err(cause) => stuck_reply(team.dir, cause@),
            })
        },
        _ => false,
    }
}

impl TeamDeleteTool {
    /// Starts a call.
    pub fn begin(&self, request: TeamDeleteInput, registry: &mut TeamRegistry) -> (step: DeleteStep)
        ensures
            exists|home: Option<PathBuf>|
                call_ensures(dirs::home_dir, (), home) && delete_begins(
                    request,
                    home,
                    step,
                    old(registry)@,
                    final(registry)@,
                ),
    {
        let home = dirs::home_dir();
        let step = match self.disband_in(request, registry, home) {
            Ok(team) => DeleteStep::LookFor(team),
            Err(reply) => DeleteStep::Reply(reply),
        };
        assert(delete_begins(request, home, step, old(registry)@, registry@));
        step
    }

    /// Goes on with a call when the work of a step is done.
    pub fn advance(&self, step: DeleteStep, event: DeleteEvent) -> (next: DeleteStep)
        requires
            delete_fits(step, event),
        ensures
            delete_follows(step, event, next),
    {
        match (step, event) {
            (DeleteStep::LookFor(team), DeleteEvent::Found(found)) => self.looked_up(team, found),
            (DeleteStep::RemoveDir(team), DeleteEvent::DirRemoved(removed)) => {
                DeleteStep::Reply(self.removed(team, removed))
            },
            (step, _) => step,
        }
    }
}

} // verus!
