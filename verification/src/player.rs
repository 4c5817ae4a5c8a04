use vstd::prelude::*;

verus! {

/// The score counters of one snapshot. Field names follow the wire format
/// of the statistics provider. `averageRankedAccuracy` is an accuracy
/// ratio in `[0, 100]`, held in fixed-point units of one ten-thousandth
/// (so `921234` stands for `92.1234`); every other field is a plain count.
#[derive(Debug, Clone, PartialEq, Eq, Structural)]
pub struct ScoreStats {
    pub totalScore: i64,
    pub totalRankedScore: i64,
    pub averageRankedAccuracy: i64,
    pub totalPlayCount: i64,
    pub rankedPlayCount: i64,
    pub replaysWatched: i64,
}

/// One polled observation of a player's statistics. `id` is the natural
/// key, stable across polls; at most one current snapshot is stored per
/// `id`. The performance metric `pp` is held in fixed-point units of one
/// ten-thousandth. `id`, `name`, `profilePicture`, `country`, `histories`,
/// `banned`, `inactive` and `firstSeen` are metadata: they are never
/// compared between snapshots.
#[derive(Debug, Clone)]
pub struct PlayerData {
    pub id: String,
    pub name: String,
    pub profilePicture: String,
    pub country: String,
    pub pp: i64,
    pub rank: i64,
    pub countryRank: i64,
    pub histories: String,
    pub banned: bool,
    pub inactive: bool,
    pub scoreStats: ScoreStats,
    pub firstSeen: String,
}

} // verus!
