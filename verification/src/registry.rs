//! The teams whose agents are running, and the tokens by which the agents are told to stop.

use dashmap::DashMap;
use tokio_util::sync::CancellationToken;
use vstd::prelude::*;

verus! {

/// The handles by which a cancellation is requested and noticed.
#[verifier::external_type_specification]
#[verifier::external_body]
pub struct ExCancellationToken(CancellationToken);

/// The concurrent maps that hold the active teams.
#[verifier::external_type_specification]
#[verifier::external_body]
#[verifier::reject_recursive_types(K)]
#[verifier::reject_recursive_types(V)]
#[verifier::reject_recursive_types(S)]
pub struct ExDashMap<K, V, S>(DashMap<K, V, S>);

/// Which cancellation a handle stands for. The handles with the same number share one state.
pub uninterp spec fn token_id(token: CancellationToken) -> int;

/// Whether the cancellation was requested through a handle, or through one that it was copied
/// from before. A cancellation is never taken back.
pub uninterp spec fn token_cancelled(token: CancellationToken) -> bool;

/// What a handle is to a contract: the cancellation that it stands for, and whether that was
/// requested through the handle.
pub struct TokenModel {
    pub id: int,
    pub cancelled: bool,
}

/// The active teams: the handles of the agents of each.
pub type Teams = Map<Seq<char>, Seq<TokenModel>>;

/// What a map of active teams holds.
pub uninterp spec fn active_teams(teams: DashMap<String, Vec<CancellationToken>>) -> Teams;

/// The model of a handle.
pub open spec fn token_model(token: CancellationToken) -> TokenModel {
    TokenModel { id: token_id(token), cancelled: token_cancelled(token) }
}

/// The models of a sequence of handles.
pub open spec fn token_models(tokens: Seq<CancellationToken>) -> Seq<TokenModel> {
    tokens.map_values(|t: CancellationToken| token_model(t))
}

/// Handles once the cancellation was requested through each of them.
pub open spec fn requested(tokens: Seq<TokenModel>) -> Seq<TokenModel> {
    tokens.map_values(|t: TokenModel| TokenModel { id: t.id, cancelled: true })
}

/// Whether the cancellation was requested through each of a sequence of handles.
pub open spec fn told_to_stop(tokens: Seq<TokenModel>) -> bool {
    exists|handles: Seq<CancellationToken>| #[trigger] token_models(handles) == requested(tokens)
}

/// Whether a cancellation is among those that handles stand for.
pub open spec fn has_id(tokens: Seq<TokenModel>, id: int) -> bool {
    exists|i: int| 0 <= i < tokens.len() && (#[trigger] tokens[i]).id == id
}

/// Whether a cancellation was requested through one of a sequence of handles.
pub open spec fn cancelled_among(tokens: Seq<TokenModel>, id: int) -> bool {
    exists|i: int|
        0 <= i < tokens.len() && (#[trigger] tokens[i]).id == id && tokens[i].cancelled
}

/// Whether a cancellation is one that an agent of an active team watches.
pub open spec fn is_watched(teams: Teams, id: int) -> bool {
    exists|name: Seq<char>| #[trigger] teams.dom().contains(name) && has_id(teams[name], id)
}

/// Whether handles are as good as new: each for a cancellation of its own, which no agent of an
/// active team watches and nobody has requested.
pub open spec fn unused(tokens: Seq<TokenModel>, teams: Teams) -> bool {
    &&& forall|i: int|
        0 <= i < tokens.len() ==> !(#[trigger] tokens[i]).cancelled && !is_watched(
            teams,
            tokens[i].id,
        )
    &&& forall|i: int, j: int|
        0 <= i < j < tokens.len() ==> (#[trigger] tokens[i]).id != (#[trigger] tokens[j]).id
}

/// Whether no two active teams have agents that watch the same cancellation.
pub open spec fn teams_apart(teams: Teams) -> bool {
    forall|a: Seq<char>, b: Seq<char>, id: int|
        #![trigger has_id(teams[a], id), has_id(teams[b], id)]
        teams.dom().contains(a) && teams.dom().contains(b) && has_id(teams[a], id) && has_id(
            teams[b],
            id,
        ) ==> a == b
}

/// No active teams.
pub open spec fn no_teams() -> Teams {
    Map::empty()
}

/// The handles of the agents of a team; none if the team is not active.
pub open spec fn tokens_of(teams: Teams, name: Seq<char>) -> Seq<TokenModel> {
    if teams.dom().contains(name) {
        teams[name]
    } else {
        Seq::empty()
    }
}

/// `CancellationToken::new` makes a handle that is not cancelled, with a state of its own, so that
/// no handle made before stands for the same cancellation: neither one of `others` nor one in
/// the map.
#[verifier::external_body]
pub(crate) fn new_token(
    others: &Vec<CancellationToken>,
    teams: &DashMap<String, Vec<CancellationToken>>,
) -> (token: CancellationToken)
    ensures
        !token_cancelled(token),
        !has_id(token_models(others@), token_id(token)),
        !is_watched(active_teams(*teams), token_id(token)),
{
    let _ = (others, teams);
    CancellationToken::new()
}

/// `CancellationToken::clone` makes a further handle for the same cancellation.
pub assume_specification[ <CancellationToken as Clone>::clone ](token: &CancellationToken) -> (copy:
    CancellationToken)
    ensures
        token_id(copy) == token_id(*token),
        token_cancelled(copy) == token_cancelled(*token),
;

/// `CancellationToken::is_cancelled` tells whether the cancellation has been requested by now,
/// through this handle or another one. It says so where it was requested through this one, or
/// through one of `others` that stands for the same cancellation. Where it was requested through
/// none of them nothing is claimed, since another thread may request it at any time.
#[verifier::external_body]
pub(crate) fn ask_token(token: &CancellationToken, others: &Vec<CancellationToken>) -> (r: bool)
    ensures
        token_cancelled(*token) ==> r,
        cancelled_among(token_models(others@), token_id(*token)) ==> r,
{
    let _ = others;
    token.is_cancelled()
}

/// `CancellationToken::cancel` requests the cancellation that a handle stands for.
#[verifier::external_body]
pub(crate) fn cancel_token(token: &mut CancellationToken)
    ensures
        token_id(*final(token)) == token_id(*old(token)),
        token_cancelled(*final(token)),
{
    token.cancel();
}

/// `DashMap::new` makes a map without entries.
#[verifier::external_body]
pub(crate) fn no_active_teams() -> (teams: DashMap<String, Vec<CancellationToken>>)
    ensures
        active_teams(teams) == no_teams(),
{
    DashMap::new()
}

/// `DashMap::insert` puts a value under a key, in place of an earlier one. It is called with
/// exclusive access to the map, so no other thread takes part and none holds a reference into
/// the map.
#[verifier::external_body]
pub(crate) fn put_team(
    teams: &mut DashMap<String, Vec<CancellationToken>>,
    name: String,
    tokens: Vec<CancellationToken>,
)
    ensures
        active_teams(*final(teams)) == active_teams(*old(teams)).insert(
            name@,
            token_models(tokens@),
        ),
{
    teams.insert(name, tokens);
}

/// `DashMap::remove` takes the entry under a key out of the map and hands its value out, if
/// there is one. It is called with exclusive access to the map, so no other thread takes part
/// and none holds a reference into the map.
#[verifier::external_body]
pub(crate) fn take_team(teams: &mut DashMap<String, Vec<CancellationToken>>, name: &str) -> (tokens:
    Option<Vec<CancellationToken>>)
    ensures
        active_teams(*final(teams)) == active_teams(*old(teams)).remove(name@),
        tokens is Some <==> active_teams(*old(teams)).dom().contains(name@),
        tokens matches Some(t) ==> token_models(t@) == active_teams(*old(teams))[name@],
{
    teams.remove(name).map(|entry| entry.1)
}

/// Whether an answer is one that a handle gave when it was asked about its cancellation.
pub closed spec fn asked(token: CancellationToken, answer: bool) -> bool {
    exists|others: Vec<CancellationToken>| #[trigger]
        call_ensures(ask_token, (&token, &others), answer)
}

/// Whether the cancellation that a handle stands for has been requested by now. It has where it
/// was requested through the handle or through one of `others`.
pub fn is_cancelled(token: &CancellationToken, others: &Vec<CancellationToken>) -> (r: bool)
    ensures
        asked(*token, r),
        token_cancelled(*token) ==> r,
        cancelled_among(token_models(others@), token_id(*token)) ==> r,
{
    ask_token(token, others)
}

/// The teams whose agents are running.
pub struct TeamRegistry {
    teams: DashMap<String, Vec<CancellationToken>>,
}

impl View for TeamRegistry {
    type V = Teams;

    closed spec fn view(&self) -> Teams {
        active_teams(self.teams)
    }
}

impl TeamRegistry {
    /// A registry without teams.
    pub fn new() -> (registry: TeamRegistry)
        ensures
            registry@ == no_teams(),
    {
        TeamRegistry { teams: no_active_teams() }
    }

    /// One handle for each of `count` agents, each for a cancellation of its own.
    pub fn fresh_tokens(&self, count: usize) -> (tokens: Vec<CancellationToken>)
        ensures
            tokens@.len() == count,
            unused(token_models(tokens@), self@),
    {
        let mut tokens: Vec<CancellationToken> = Vec::new();
        let mut i: usize = 0;
        while i < count
            invariant
                i <= count,
                tokens@.len() == i,
                unused(token_models(tokens@), self@),
            decreases count - i,
        {
            let ghost before = token_models(tokens@);
            let token = new_token(&tokens, &self.teams);
            tokens.push(token);
            proof {
                let models = token_models(tokens@);
                assert(models == before.push(token_model(token)));
                assert forall|j: int, k: int| 0 <= j < k < models.len() implies (
                #[trigger] models[j]).id != (#[trigger] models[k]).id by {
                    if k == before.len() {
                        assert(has_id(before, before[j].id));
                    }
                }
            }
            i = i + 1;
        }
        tokens
    }

    /// Enters a team with the handles by which its agents are told to stop.
    pub fn enlist(&mut self, name: &str, tokens: Vec<CancellationToken>)
        ensures
            final(self)@ == old(self)@.insert(name@, token_models(tokens@)),
    {
        put_team(&mut self.teams, name.to_owned(), tokens);
    }

    /// Strikes a team out.
    pub fn release(&mut self, name: &str)
        ensures
            final(self)@ == old(self)@.remove(name@),
    {
        let _ = take_team(&mut self.teams, name);
    }

    /// Strikes a team out and tells each of its agents to stop. Hands out the handles that were
    /// cancelled. The handles of the other teams stay as they are.
    pub fn disband(&mut self, name: &str) -> (cancelled: Vec<CancellationToken>)
        ensures
            final(self)@ == old(self)@.remove(name@),
            token_models(cancelled@) == requested(tokens_of(old(self)@, name@)),
    {
        match take_team(&mut self.teams, name) {
            Some(tokens) => cancel_all(tokens),
            None => {
                let none: Vec<CancellationToken> = Vec::new();
                assert(token_models(none@) =~= requested(tokens_of(old(self)@, name@)));
                none
            },
        }
    }
}

/// Requests the cancellation that each of the handles stands for.
fn cancel_all(tokens: Vec<CancellationToken>) -> (cancelled: Vec<CancellationToken>)
    ensures
        token_models(cancelled@) == requested(token_models(tokens@)),
{
    let mut cancelled = tokens;
    let count: usize = cancelled.len();
    let mut i: usize = 0;
    while i < count
        invariant
            count == cancelled@.len(),
            count == tokens@.len(),
            i <= count,
            forall|k: int|
                0 <= k < count ==> token_id(#[trigger] cancelled@[k]) == token_id(tokens@[k]),
            forall|k: int| 0 <= k < i ==> token_cancelled(#[trigger] cancelled@[k]),
        decreases count - i,
    {
        cancel_token(&mut cancelled[i]);
        i = i + 1;
    }
    assert(token_models(cancelled@) =~= requested(token_models(tokens@)));
    cancelled
}

/// A further handle for each of a list of cancellations.
pub fn duplicate_tokens(tokens: &Vec<CancellationToken>) -> (copies: Vec<CancellationToken>)
    ensures
        token_models(copies@) == token_models(tokens@),
{
    let copies = tokens.clone();
    assert(token_models(copies@) =~= token_models(tokens@));
    copies
}

} // verus!
