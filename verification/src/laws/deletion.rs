//! What the tool that deletes teams does with a request, and what it answers.

use std::path::PathBuf;
use tokio_util::sync::CancellationToken;
use vstd::prelude::*;

use crate::delete::teams_after;
use crate::delete::DeleteStep;
use crate::delete::DisbandedTeam;
use crate::delete::TeamDeleteTool;
use crate::json::json_text;
use crate::json::JsonModel;
use crate::laws::answers::struck_out;
use crate::laws::creation::fails_with;
use crate::names::path_display;
use crate::names::path_join;
use crate::names::sanitized;
use crate::registry::requested;
use crate::registry::told_to_stop;
use crate::registry::token_cancelled;
use crate::registry::token_id;
use crate::registry::token_model;
use crate::registry::token_models;
use crate::registry::tokens_of;
use crate::registry::Teams;
use crate::registry::TeamRegistry;
use crate::registry::TokenModel;
use crate::schema::TeamDeleteInput;
use crate::steps::delete_begins;
use crate::steps::DeleteEvent;
use crate::text::blank;
use crate::text::decimal;
use crate::tool::ToolResult;

verus! {

/// The handles that the active teams hold under a name, sanitized; none where they hold no such
/// team.
pub open spec fn held(teams: Teams, team_name: Seq<char>) -> Seq<TokenModel> {
    if teams.dom().contains(sanitized(team_name)) {
        teams[sanitized(team_name)]
    } else {
        Seq::empty()
    }
}

/// Whether a row of handles stands for the same cancellations as a row of others, one for one, and
/// each of them was requested.
pub open spec fn all_requested(handles: Seq<CancellationToken>, tokens: Seq<TokenModel>) -> bool {
    &&& handles.len() == tokens.len()
    &&& forall|i: int|
        0 <= i < handles.len() ==> token_cancelled(#[trigger] handles[i]) && token_id(handles[i])
            == tokens[i].id
}

/// Whether a disbanded team is the one that was asked for: under the name by which it was asked
/// for, with its directory below the directory of all teams, and with each of its agents told to
/// stop.
pub open spec fn disbands(
    request: TeamDeleteInput,
    home: PathBuf,
    before: Teams,
    team: DisbandedTeam,
) -> bool {
    &&& team.team_name@ == request.team_name@
    &&& team.dir == path_join(
        path_join(path_join(home, ".claurst"@), "teams"@),
        sanitized(request.team_name@),
    )
    &&& all_requested(team.cancelled@, held(before, request.team_name@))
}

/// Whether deleting a team has come to this among the active teams: nothing, for a blank name;
/// else each agent of the team is told to stop, the team is active no longer and every other one
/// stays as it was.
pub open spec fn takes_out(request: TeamDeleteInput, before: Teams, after: Teams) -> bool {
    if blank(request.team_name@) {
        after == before
    } else {
        &&& struck_out(sanitized(request.team_name@), before, after)
        &&& exists|handles: Seq<CancellationToken>| #[trigger]
            all_requested(handles, held(before, request.team_name@))
    }
}

proof fn lemma_all_requested(handles: Seq<CancellationToken>, tokens: Seq<TokenModel>)
    requires
        token_models(handles) == requested(tokens),
    ensures
        all_requested(handles, tokens),
{
    assert(token_models(handles).len() == handles.len());
    assert(requested(tokens).len() == tokens.len());
    assert forall|i: int| 0 <= i < handles.len() implies token_cancelled(#[trigger] handles[i])
        && token_id(handles[i]) == tokens[i].id by {
        assert(token_models(handles)[i] == token_model(handles[i]));
        assert(requested(tokens)[i] == (TokenModel { id: tokens[i].id, cancelled: true }));
    }
}

proof fn lemma_taken_out(request: TeamDeleteInput, before: Teams, after: Teams)
    requires
        after == teams_after(before, request.team_name@),
        !blank(request.team_name@) ==> told_to_stop(
            tokens_of(before, sanitized(request.team_name@)),
        ),
    ensures
        takes_out(request, before, after),
{
    if !blank(request.team_name@) {
        let tokens = held(before, request.team_name@);
        let handles = choose|handles: Seq<CancellationToken>| #[trigger]
            token_models(handles) == requested(tokens);
        lemma_all_requested(handles, tokens);
    }
}

/// A deletion without a name is refused and comes to nothing. Any other strikes the team out and
/// tells each of its agents to stop, even where no home directory is found.
pub proof fn law_disband_in(
    tool: &TeamDeleteTool,
    request: TeamDeleteInput,
    registry: &mut TeamRegistry,
    home: Option<PathBuf>,
    r: Result<DisbandedTeam, ToolResult>,
)
    requires
        call_ensures(TeamDeleteTool::disband_in, (tool, request, registry, home), r),
    ensures
        takes_out(request, old(registry)@, final(registry)@),
        blank(request.team_name@) ==> (r matches Err(reply) && fails_with(
            reply,
            "team_name is required for TeamDelete"@,
        )),
        !blank(request.team_name@) ==> match home {
            Some(h) => r matches Ok(team) && disbands(request, h, old(registry)@, team),
            None => r matches Err(reply) && fails_with(
                reply,
                "Could not determine home directory"@,
            ),
        },
{
    lemma_taken_out(request, old(registry)@, final(registry)@);
    match r {
        Ok(team) => {
            lemma_all_requested(team.cancelled@, held(old(registry)@, request.team_name@));
        },
        Err(reply) => {
            assert(reply.content@ == reply@.content && reply.is_error == reply@.is_error);
        },
    }
}

/// A call starts in the same way, below the home directory of the user.
pub proof fn law_delete_begin(
    tool: &TeamDeleteTool,
    request: TeamDeleteInput,
    registry: &mut TeamRegistry,
    step: DeleteStep,
)
    requires
        call_ensures(TeamDeleteTool::begin, (tool, request, registry), step),
    ensures
        takes_out(request, old(registry)@, final(registry)@),
        blank(request.team_name@) ==> (step matches DeleteStep::Reply(reply) && fails_with(
            reply,
            "team_name is required for TeamDelete"@,
        )),
        !blank(request.team_name@) ==> exists|home: Option<PathBuf>| #[trigger]
            call_ensures(dirs::home_dir, (), home) && (match home {
                Some(h) => step matches DeleteStep::LookFor(team) && disbands(
                    request,
                    h,
                    old(registry)@,
                    team,
                ),
                None => step matches DeleteStep::Reply(reply) && fails_with(
                    reply,
                    "Could not determine home directory"@,
                ),
            }),
{
    let home = choose|home: Option<PathBuf>| #[trigger]
        call_ensures(dirs::home_dir, (), home) && delete_begins(
            request,
            home,
            step,
            old(registry)@,
            final(registry)@,
        );
    lemma_taken_out(request, old(registry)@, final(registry)@);
    if let DeleteStep::LookFor(team) = step {
        lemma_all_requested(team.cancelled@, held(old(registry)@, request.team_name@));
    }
    if let DeleteStep::Reply(reply) = step {
        assert(reply.content@ == reply@.content && reply.is_error == reply@.is_error);
    }
}

/// Whether a reply reports a deletion as a success, with a message, for a team of a name, and with
/// a number of agents that were told to stop.
pub open spec fn reports_deletion(
    reply: ToolResult,
    message: Seq<char>,
    team_name: Seq<char>,
    count: nat,
) -> bool {
    &&& !reply.is_error
    &&& reply.content@ == json_text(
        JsonModel::Object(
            map![
                "success"@ => JsonModel::Bool(true),
                "message"@ => JsonModel::Text(message),
                "team_name"@ => JsonModel::Text(team_name),
                "cancelled_agents"@ => JsonModel::Number(decimal(count)),
            ],
        ),
    )
}

/// What is said of a team whose directory is not there.
pub open spec fn reports_absence(reply: ToolResult, team_name: Seq<char>, count: nat) -> bool {
    reports_deletion(
        reply,
        "Team '"@ + team_name
            + "' directory not found (may have been cleaned up already). Cancelled "@ + decimal(
            count,
        ) + " agent(s)."@,
        team_name,
        count,
    )
}

/// What is said of a team whose directory was removed.
pub open spec fn reports_removal(reply: ToolResult, team_name: Seq<char>, count: nat) -> bool {
    reports_deletion(
        reply,
        "Cleaned up team \""@ + team_name + "\" and cancelled "@ + decimal(count)
            + " agent(s)."@,
        team_name,
        count,
    )
}

/// A directory that is there is to be removed. For one that is not, the deletion is a success that
/// tells how many handles were cancelled.
pub proof fn law_looked_up(tool: &TeamDeleteTool, team: DisbandedTeam, found: bool, r: DeleteStep)
    requires
        call_ensures(TeamDeleteTool::looked_up, (tool, team, found), r),
    ensures
        found ==> r == DeleteStep::RemoveDir(team),
        !found ==> (r matches DeleteStep::Reply(reply) && reports_absence(
            reply,
            team.team_name@,
            team.cancelled@.len(),
        )),
{
    if let DeleteStep::Reply(reply) = r {
        assert(reply.content@ == reply@.content && reply.is_error == reply@.is_error);
    }
}

/// A directory that was removed is a success that tells how many handles were cancelled. One that
/// was not is an error that names the directory and the cause.
pub proof fn law_removed(
    tool: &TeamDeleteTool,
    team: DisbandedTeam,
    outcome: Result<(), String>,
    reply: ToolResult,
)
    requires
        call_ensures(TeamDeleteTool::removed, (tool, team, outcome), reply),
    ensures
        match outcome {
            Ok(_) => reports_removal(reply, team.team_name@, team.cancelled@.len()),
            Err(cause) => fails_with(
                reply,
                "Failed to remove team directory '"@ + path_display(team.dir) + "': "@ + cause@,
            ),
        },
{
    assert(reply.content@ == reply@.content && reply.is_error == reply@.is_error);
}

/// In a whole call for a team whose directory is not there, the number that is answered is the
/// number of handles that the active teams held for the team when the call began.
pub proof fn law_deletion_without_directory(
    tool: &TeamDeleteTool,
    request: TeamDeleteInput,
    registry: &mut TeamRegistry,
    team: DisbandedTeam,
    next: DeleteStep,
)
    requires
        call_ensures(
            TeamDeleteTool::begin,
            (tool, request, registry),
            DeleteStep::LookFor(team),
        ),
        call_ensures(
            TeamDeleteTool::advance,
            (tool, DeleteStep::LookFor(team), DeleteEvent::Found(false)),
            next,
        ),
    ensures
        next matches DeleteStep::Reply(reply) && reports_absence(
            reply,
            request.team_name@,
            held(old(registry)@, request.team_name@).len(),
        ),
{
    law_delete_begin(tool, request, registry, DeleteStep::LookFor(team));
    if let DeleteStep::Reply(reply) = next {
        assert(reply.content@ == reply@.content && reply.is_error == reply@.is_error);
    }
}

/// In a whole call for a team whose directory is there, that directory is removed, and the number
/// that is answered is the number of handles that the active teams held for the team when the call
/// began.
pub proof fn law_deletion_with_directory(
    tool: &TeamDeleteTool,
    request: TeamDeleteInput,
    registry: &mut TeamRegistry,
    team: DisbandedTeam,
    between: DeleteStep,
    removed: Result<(), String>,
    next: DeleteStep,
)
    requires
        call_ensures(
            TeamDeleteTool::begin,
            (tool, request, registry),
            DeleteStep::LookFor(team),
        ),
        call_ensures(
            TeamDeleteTool::advance,
            (tool, DeleteStep::LookFor(team), DeleteEvent::Found(true)),
            between,
        ),
        call_ensures(
            TeamDeleteTool::advance,
            (tool, between, DeleteEvent::DirRemoved(removed)),
            next,
        ),
    ensures
        between == DeleteStep::RemoveDir(team),
        next matches DeleteStep::Reply(reply) && (match removed {
            Ok(_) => reports_removal(
                reply,
                request.team_name@,
                held(old(registry)@, request.team_name@).len(),
            ),
            Err(cause) => fails_with(
                reply,
                "Failed to remove team directory '"@ + path_display(team.dir) + "': "@ + cause@,
            ),
        }),
{
    law_delete_begin(tool, request, registry, DeleteStep::LookFor(team));
    if let DeleteStep::Reply(reply) = next {
        assert(reply.content@ == reply@.content && reply.is_error == reply@.is_error);
    }
}

} // verus!
