use crate::player::PlayerData;
use vstd::prelude::*;

verus! {

/// The typed delta between two snapshots of the same player: for every
/// comparable field a `changed` flag and a signed magnitude (new minus
/// old). The all-false, zero-magnitude value is the identity, used when
/// no previous snapshot exists. `pp_change` and `rAccuracy_change` are in
/// the same fixed-point units as the snapshot fields they compare.
#[derive(Debug, Clone, PartialEq, Eq, Structural)]
pub struct Changes {
    pub pp: bool,
    pub pp_change: i64,
    pub rAccuracy: bool,
    pub rAccuracy_change: i64,
    pub rank: bool,
    pub rank_change: i64,
    pub cRank: bool,
    pub cRank_change: i64,
    pub tScore: bool,
    pub tScore_change: i64,
    pub rScore: bool,
    pub rScore_change: i64,
    pub tCount: bool,
    pub tCount_change: i64,
    pub rCount: bool,
    pub rCount_change: i64,
    pub replays: bool,
    pub replays_change: i64,
}

/// The all-false, zero-magnitude delta.
pub open spec fn zero_delta() -> Changes {
    Changes {
        pp: false,
        pp_change: 0,
        rAccuracy: false,
        rAccuracy_change: 0,
        rank: false,
        rank_change: 0,
        cRank: false,
        cRank_change: 0,
        tScore: false,
        tScore_change: 0,
        rScore: false,
        rScore_change: 0,
        tCount: false,
        tCount_change: 0,
        rCount: false,
        rCount_change: 0,
        replays: false,
        replays_change: 0,
    }
}

impl core::default::Default for Changes {
    /// The default delta is the identity: nothing changed.
    fn default() -> (r: Changes)
        ensures
            r == zero_delta(),
    {
        Changes {
            pp: false,
            pp_change: 0,
            rAccuracy: false,
            rAccuracy_change: 0,
            rank: false,
            rank_change: 0,
            cRank: false,
            cRank_change: 0,
            tScore: false,
            tScore_change: 0,
            rScore: false,
            rScore_change: 0,
            tCount: false,
            tCount_change: 0,
            rCount: false,
            rCount_change: 0,
            replays: false,
            replays_change: 0,
        }
    }
}

/// Whether a signed difference fits the symmetric `i64` range, so that
/// it and its negation are both representable.
pub open spec fn fits_i64(d: int) -> bool {
    -i64::MAX <= d <= i64::MAX
}

/// Whether every comparable-field difference between the two snapshots
/// is representable as an `i64` magnitude.
pub open spec fn deltas_fit(prev: PlayerData, curr: PlayerData) -> bool {
    &&& fits_i64(curr.pp - prev.pp)
    &&& fits_i64(curr.rank - prev.rank)
    &&& fits_i64(curr.countryRank - prev.countryRank)
    &&& fits_i64(curr.scoreStats.totalScore - prev.scoreStats.totalScore)
    &&& fits_i64(curr.scoreStats.totalRankedScore - prev.scoreStats.totalRankedScore)
    &&& fits_i64(curr.scoreStats.averageRankedAccuracy - prev.scoreStats.averageRankedAccuracy)
    &&& fits_i64(curr.scoreStats.totalPlayCount - prev.scoreStats.totalPlayCount)
    &&& fits_i64(curr.scoreStats.rankedPlayCount - prev.scoreStats.rankedPlayCount)
    &&& fits_i64(curr.scoreStats.replaysWatched - prev.scoreStats.replaysWatched)
}

/// The delta of two snapshots: per comparable field, a flag that the
/// values differ, and the difference new minus old (zero when equal).
/// Metadata fields contribute nothing.
pub open spec fn delta_spec(prev: PlayerData, curr: PlayerData) -> Changes {
    Changes {
        pp: curr.pp != prev.pp,
        pp_change: if curr.pp == prev.pp {
            0
        } else {
            (curr.pp - prev.pp) as i64
        },
        rAccuracy: curr.scoreStats.averageRankedAccuracy != prev.scoreStats.averageRankedAccuracy,
        rAccuracy_change: if curr.scoreStats.averageRankedAccuracy
            == prev.scoreStats.averageRankedAccuracy {
            0
        } else {
            (curr.scoreStats.averageRankedAccuracy - prev.scoreStats.averageRankedAccuracy) as i64
        },
        rank: curr.rank != prev.rank,
        rank_change: if curr.rank == prev.rank {
            0
        } else {
            (curr.rank - prev.rank) as i64
        },
        cRank: curr.countryRank != prev.countryRank,
        cRank_change: if curr.countryRank == prev.countryRank {
            0
        } else {
            (curr.countryRank - prev.countryRank) as i64
        },
        tScore: curr.scoreStats.totalScore != prev.scoreStats.totalScore,
        tScore_change: if curr.scoreStats.totalScore == prev.scoreStats.totalScore {
            0
        } else {
            (curr.scoreStats.totalScore - prev.scoreStats.totalScore) as i64
        },
        rScore: curr.scoreStats.totalRankedScore != prev.scoreStats.totalRankedScore,
        rScore_change: if curr.scoreStats.totalRankedScore == prev.scoreStats.totalRankedScore {
            0
        } else {
            (curr.scoreStats.totalRankedScore - prev.scoreStats.totalRankedScore) as i64
        },
        tCount: curr.scoreStats.totalPlayCount != prev.scoreStats.totalPlayCount,
        tCount_change: if curr.scoreStats.totalPlayCount == prev.scoreStats.totalPlayCount {
            0
        } else {
            (curr.scoreStats.totalPlayCount - prev.scoreStats.totalPlayCount) as i64
        },
        rCount: curr.scoreStats.rankedPlayCount != prev.scoreStats.rankedPlayCount,
        rCount_change: if curr.scoreStats.rankedPlayCount == prev.scoreStats.rankedPlayCount {
            0
        } else {
            (curr.scoreStats.rankedPlayCount - prev.scoreStats.rankedPlayCount) as i64
        },
        replays: curr.scoreStats.replaysWatched != prev.scoreStats.replaysWatched,
        replays_change: if curr.scoreStats.replaysWatched == prev.scoreStats.replaysWatched {
            0
        } else {
            (curr.scoreStats.replaysWatched - prev.scoreStats.replaysWatched) as i64
        },
    }
}

/// Whether the two snapshots agree on every comparable field.
pub open spec fn comparable_eq(a: PlayerData, b: PlayerData) -> bool {
    &&& a.pp == b.pp
    &&& a.rank == b.rank
    &&& a.countryRank == b.countryRank
    &&& a.scoreStats.totalScore == b.scoreStats.totalScore
    &&& a.scoreStats.totalRankedScore == b.scoreStats.totalRankedScore
    &&& a.scoreStats.averageRankedAccuracy == b.scoreStats.averageRankedAccuracy
    &&& a.scoreStats.totalPlayCount == b.scoreStats.totalPlayCount
    &&& a.scoreStats.rankedPlayCount == b.scoreStats.rankedPlayCount
    &&& a.scoreStats.replaysWatched == b.scoreStats.replaysWatched
}

/// Compares a fresh snapshot against the previously stored one and
/// reports, per comparable field, whether it changed and by how much
/// (new minus old). Pure and deterministic; metadata fields (identity,
/// name, region, flags, avatar, history, first-seen) never contribute.
pub fn compare_data(data: &PlayerData, data_from_db: &PlayerData) -> (changes: Changes)
    requires
        deltas_fit(*data_from_db, *data),
    ensures
        changes == delta_spec(*data_from_db, *data),
{
    Changes {
        pp: data.pp != data_from_db.pp,
        pp_change: if data.pp == data_from_db.pp {
            0
        } else {
            data.pp - data_from_db.pp
        },
        rAccuracy: data.scoreStats.averageRankedAccuracy
            != data_from_db.scoreStats.averageRankedAccuracy,
        rAccuracy_change: if data.scoreStats.averageRankedAccuracy
            == data_from_db.scoreStats.averageRankedAccuracy {
            0
        } else {
            data.scoreStats.averageRankedAccuracy - data_from_db.scoreStats.averageRankedAccuracy
        },
        rank: data.rank != data_from_db.rank,
        rank_change: if data.rank == data_from_db.rank {
            0
        } else {
            data.rank - data_from_db.rank
        },
        cRank: data.countryRank != data_from_db.countryRank,
        cRank_change: if data.countryRank == data_from_db.countryRank {
            0
        } else {
            data.countryRank - data_from_db.countryRank
        },
        tScore: data.scoreStats.totalScore != data_from_db.scoreStats.totalScore,
        tScore_change: if data.scoreStats.totalScore == data_from_db.scoreStats.totalScore {
            0
        } else {
            data.scoreStats.totalScore - data_from_db.scoreStats.totalScore
        },
        rScore: data.scoreStats.totalRankedScore != data_from_db.scoreStats.totalRankedScore,
        rScore_change: if data.scoreStats.totalRankedScore
            == data_from_db.scoreStats.totalRankedScore {
            0
        } else {
            data.scoreStats.totalRankedScore - data_from_db.scoreStats.totalRankedScore
        },
        tCount: data.scoreStats.totalPlayCount != data_from_db.scoreStats.totalPlayCount,
        tCount_change: if data.scoreStats.totalPlayCount
            == data_from_db.scoreStats.totalPlayCount {
            0
        } else {
            data.scoreStats.totalPlayCount - data_from_db.scoreStats.totalPlayCount
        },
        rCount: data.scoreStats.rankedPlayCount != data_from_db.scoreStats.rankedPlayCount,
        rCount_change: if data.scoreStats.rankedPlayCount
            == data_from_db.scoreStats.rankedPlayCount {
            0
        } else {
            data.scoreStats.rankedPlayCount - data_from_db.scoreStats.rankedPlayCount
        },
        replays: data.scoreStats.replaysWatched != data_from_db.scoreStats.replaysWatched,
        replays_change: if data.scoreStats.replaysWatched
            == data_from_db.scoreStats.replaysWatched {
            0
        } else {
            data.scoreStats.replaysWatched - data_from_db.scoreStats.replaysWatched
        },
    }
}

/// Law: two snapshots that agree on every comparable field produce the
/// all-false, zero-magnitude delta, whatever their metadata hold.
pub proof fn lemma_delta_identity(a: PlayerData, b: PlayerData)
    requires
        comparable_eq(a, b),
    ensures
        delta_spec(a, b) == zero_delta(),
{
}

/// Law: when the snapshots differ only in `totalScore`, and by `d`, the
/// delta carries exactly the `totalScore` flag, with magnitude `d`, and
/// every other flag false with magnitude zero.
pub proof fn lemma_delta_total_score_only(a: PlayerData, b: PlayerData, d: int)
    requires
        d != 0,
        fits_i64(d),
        b.scoreStats.totalScore == a.scoreStats.totalScore + d,
        a.pp == b.pp,
        a.rank == b.rank,
        a.countryRank == b.countryRank,
        a.scoreStats.totalRankedScore == b.scoreStats.totalRankedScore,
        a.scoreStats.averageRankedAccuracy == b.scoreStats.averageRankedAccuracy,
        a.scoreStats.totalPlayCount == b.scoreStats.totalPlayCount,
        a.scoreStats.rankedPlayCount == b.scoreStats.rankedPlayCount,
        a.scoreStats.replaysWatched == b.scoreStats.replaysWatched,
    ensures
        delta_spec(a, b) == (Changes { tScore: true, tScore_change: d as i64, ..zero_delta() }),
{
}

/// Law: the delta is a function of the comparable fields alone. Two
/// pairs that agree on them, while their excluded fields (identifier,
/// name, region, first-seen, ban and inactive flags, avatar, history)
/// differ in any way, produce the same delta.
pub proof fn lemma_excluded_fields_ignored(
    a1: PlayerData,
    b1: PlayerData,
    a2: PlayerData,
    b2: PlayerData,
)
    requires
        comparable_eq(a1, a2),
        comparable_eq(b1, b2),
    ensures
        delta_spec(a1, b1) == delta_spec(a2, b2),
{
}

/// Law: the delta is antisymmetric in sign. Swapping the snapshots keeps
/// every flag and negates every magnitude.
pub proof fn lemma_delta_antisymmetric(a: PlayerData, b: PlayerData)
    requires
        deltas_fit(a, b),
    ensures
        delta_spec(b, a).pp == delta_spec(a, b).pp,
        delta_spec(b, a).pp_change as int == -(delta_spec(a, b).pp_change as int),
        delta_spec(b, a).rAccuracy == delta_spec(a, b).rAccuracy,
        delta_spec(b, a).rAccuracy_change as int == -(delta_spec(a, b).rAccuracy_change as int),
        delta_spec(b, a).rank == delta_spec(a, b).rank,
        delta_spec(b, a).rank_change as int == -(delta_spec(a, b).rank_change as int),
        delta_spec(b, a).cRank == delta_spec(a, b).cRank,
        delta_spec(b, a).cRank_change as int == -(delta_spec(a, b).cRank_change as int),
        delta_spec(b, a).tScore == delta_spec(a, b).tScore,
        delta_spec(b, a).tScore_change as int == -(delta_spec(a, b).tScore_change as int),
        delta_spec(b, a).rScore == delta_spec(a, b).rScore,
        delta_spec(b, a).rScore_change as int == -(delta_spec(a, b).rScore_change as int),
        delta_spec(b, a).tCount == delta_spec(a, b).tCount,
        delta_spec(b, a).tCount_change as int == -(delta_spec(a, b).tCount_change as int),
        delta_spec(b, a).rCount == delta_spec(a, b).rCount,
        delta_spec(b, a).rCount_change as int == -(delta_spec(a, b).rCount_change as int),
        delta_spec(b, a).replays == delta_spec(a, b).replays,
        delta_spec(b, a).replays_change as int == -(delta_spec(a, b).replays_change as int),
{
}

} // verus!

