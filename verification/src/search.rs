use vstd::prelude::*;

verus! {

/// One row of a provider search result: a player's identifier and
/// display name, in the provider's order.
#[derive(Debug, Clone)]
pub struct PlayerInfo {
    pub id: String,
    pub name: String,
}

/// The ordered list of candidate players a name search returned.
#[derive(Debug, Clone)]
pub struct PlayersData {
    pub players: Vec<PlayerInfo>,
}

/// The case-folded form of a character sequence.
pub uninterp spec fn lower_of(s: Seq<char>) -> Seq<char>;

/// Relies on str::to_lowercase: the result depends on the characters
/// alone.
#[verifier::external_body]
fn to_lower(s: &str) -> (r: String)
    ensures
        r@ == lower_of(s@),
{
    s.to_lowercase()
}

/// Whether this entry's name is the query, ignoring case.
pub open spec fn name_matches(p: PlayerInfo, query: Seq<char>) -> bool {
    lower_of(p.name@) == lower_of(query)
}

/// Picks, from a search result, the identifier of the first player
/// whose name equals the query ignoring case; `None` when no entry
/// matches.
pub fn find_player_id(data: &PlayersData, query: &str) -> (r: Option<String>)
    ensures
        r matches Some(id) ==> exists|i: int|
            0 <= i < data.players@.len() && name_matches(#[trigger] data.players@[i], query@)
                && id@ == data.players@[i].id@ && (forall|j: int|
                0 <= j < i ==> !name_matches(#[trigger] data.players@[j], query@)),
        r is None ==> forall|i: int|
            0 <= i < data.players@.len() ==> !name_matches(#[trigger] data.players@[i], query@),
{
    let query_low = to_lower(query);
    let mut i: usize = 0;
    while i < data.players.len()
        invariant
            i <= data.players@.len(),
            query_low@ == lower_of(query@),
            forall|j: int| 0 <= j < i ==> !name_matches(#[trigger] data.players@[j], query@),
        decreases data.players@.len() - i,
    {
        let name_low = to_lower(data.players[i].name.as_str());
        if name_low == query_low {
            return Some(data.players[i].id.clone());
        }
        i = i + 1;
    }
    None
}

} // verus!
