//! Pairing of Septentrio position fixes with their covariance blocks.
//!
//! A `PVTGeodetic` block carries the position; a `PosCovGeodetic` block of
//! the same epoch carries its covariance. The receiver sends them separately,
//! so the library keeps the latest complete covariance, keyed by its time of
//! week, and attaches it to the next position fix whose time of week lies
//! close enough.
//!
//! Floating-point values of the receiver are carried by their IEEE 754 bit
//! patterns: a `u32` for a single-precision value, a `u64` for a
//! double-precision one. The logic here only moves them, never computes with
//! them.
use vstd::prelude::*;

verus! {

/// Greatest distance, in milliseconds, between the time of week of a
/// covariance block and that of a position fix for the two to be paired.
pub const COVARIANCE_TOW_TOLERANCE_MS: u32 = 1000;

/// The fastest update period of the receiver, in milliseconds: twenty fixes
/// a second.
pub const BEST_UPDATE_TIME_MS: u64 = 50;

/// The GPS time of week, given from the satellite, in milliseconds since the
/// start of the current GNSS week.
#[derive(Clone, Copy, Debug, PartialEq, Eq, Structural, PartialOrd)]
pub struct TimeOfWeek(pub u32);

/// Quality of a position fix, derived from the receiver's PVT mode.
#[derive(Clone, Copy, Debug, PartialEq, Eq, Structural, PartialOrd)]
pub enum FixStatus {
    Invalid,
    SinglePoint,
    Sbas,
    GroundBased,
}

/// What the logic reads of a `PosCovGeodetic` block: its time of week and
/// the six covariance terms of the (latitude, longitude, height) axes, each
/// the bit pattern of a single-precision value. `None` marks a field the
/// receiver reported as "do not use".
#[derive(Clone, Copy, Debug, PartialEq, Eq, Structural)]
pub struct PosCovBlock {
    pub tow: Option<u32>,
    pub cov_latlat: Option<u32>,
    pub cov_lonlon: Option<u32>,
    pub cov_hgthgt: Option<u32>,
    pub cov_latlon: Option<u32>,
    pub cov_lathgt: Option<u32>,
    pub cov_lonhgt: Option<u32>,
}

/// What the logic reads of a `PVTGeodetic` block: its time of week, the
/// bit patterns of the double-precision latitude and longitude (radians) and
/// height (meters above the WGS84 ellipsoid), and the PVT mode number
/// (bits 0-3 of the block's mode field).
#[derive(Clone, Copy, Debug, PartialEq, Eq, Structural)]
pub struct PvtBlock {
    pub tow: Option<u32>,
    pub latitude: Option<u64>,
    pub longitude: Option<u64>,
    pub height: Option<u64>,
    pub mode: u8,
}

/// A decoded SBF block, as far as the GPS logic is concerned.
#[derive(Clone, Copy, Debug, PartialEq, Eq, Structural)]
pub enum SbfMessage {
    PosCovGeodetic(PosCovBlock),
    PvtGeodetic(PvtBlock),
    Other,
}

/// A position fix with its covariance.
///
/// `latitude` and `longitude` are the bit patterns of double-precision
/// radians, `height` that of meters above the WGS84 ellipsoid; `covariance`
/// holds single-precision bit patterns of the position covariance in ENU
/// order, row-major.
#[derive(Clone, Copy, Debug)]
pub struct GpsReading {
    pub latitude: u64,
    pub longitude: u64,
    pub height: u64,
    pub tow: TimeOfWeek,
    pub covariance: [u32; 9],
    pub fix_status: FixStatus,
}

/// The fix status that a PVT mode number stands for.
pub open spec fn spec_fix_status(mode: u8) -> FixStatus {
    match mode {
        0 => FixStatus::Invalid,
        1 | 3 => FixStatus::SinglePoint,
        6 => FixStatus::Sbas,
        2 | 4 | 5 | 7 | 8 | 10 => FixStatus::GroundBased,
        _ => FixStatus::Invalid,
    }
}

/// Which mode numbers give which fix status: only "no PVT" (0) and the
/// numbers the receiver reserves (9 and above 10) are invalid; stand-alone
/// (1) and fixed location (3) are single-point; SBAS (6) is its own status;
/// the differential, RTK and PPP modes (2, 4, 5, 7, 8, 10) are ground-based.
pub proof fn lemma_fix_status_classes(mode: u8)
    ensures
        spec_fix_status(mode) == FixStatus::Invalid <==> (mode == 0 || mode == 9 || mode > 10),
        spec_fix_status(mode) == FixStatus::SinglePoint <==> (mode == 1 || mode == 3),
        spec_fix_status(mode) == FixStatus::Sbas <==> mode == 6,
        spec_fix_status(mode) == FixStatus::GroundBased <==> (mode == 2 || mode == 4 || mode == 5 || mode
            == 7 || mode == 8 || mode == 10),
{
}

/// Maps a PVT mode number to the quality of the fix: no PVT (and the
/// reserved numbers) to `Invalid`, stand-alone and fixed-location to
/// `SinglePoint`, SBAS to `Sbas`, and every differential, RTK and PPP mode
/// to `GroundBased`.
pub fn mode_to_fix_status(mode: u8) -> (status: FixStatus)
    ensures
        status == spec_fix_status(mode),
{
    match mode {
        0 => FixStatus::Invalid,
        1 | 3 => FixStatus::SinglePoint,
        6 => FixStatus::Sbas,
        2 | 4 | 5 | 7 | 8 | 10 => FixStatus::GroundBased,
        _ => FixStatus::Invalid,
    }
}

/// The covariance matrix of the (latitude, longitude, height) terms,
/// rearranged into the ENU axes (east = longitude, north = latitude,
/// up = height), row-major.
pub open spec fn enu_covariance(
    latlat: u32,
    lonlon: u32,
    hgthgt: u32,
    latlon: u32,
    lathgt: u32,
    lonhgt: u32,
) -> Seq<u32> {
    seq![lonlon, latlon, lonhgt, latlon, latlat, lathgt, lonhgt, lathgt, hgthgt]
}

/// All terms of a `PosCovGeodetic` block that the covariance needs are present.
pub open spec fn pos_cov_complete(b: PosCovBlock) -> bool {
    &&& b.tow is Some
    &&& b.cov_latlat is Some
    &&& b.cov_lonlon is Some
    &&& b.cov_hgthgt is Some
    &&& b.cov_latlon is Some
    &&& b.cov_lathgt is Some
    &&& b.cov_lonhgt is Some
}

/// The time of week and ENU covariance of a block, when it is complete.
pub open spec fn spec_pos_cov_covariance(b: PosCovBlock) -> Option<(u32, Seq<u32>)> {
    if pos_cov_complete(b) {
        Some(
            (
                b.tow->0,
                enu_covariance(
                    b.cov_latlat->0,
                    b.cov_lonlon->0,
                    b.cov_hgthgt->0,
                    b.cov_latlon->0,
                    b.cov_lathgt->0,
                    b.cov_lonhgt->0,
                ),
            ),
        )
    } else {
        None
    }
}

/// A stored covariance, with its array taken as a sequence.
pub open spec fn covariance_view(c: Option<(u32, [u32; 9])>) -> Option<(u32, Seq<u32>)> {
    match c {
        Some((tow, cov)) => Some((tow, cov@)),
        None => None,
    }
}

/// Reads the covariance of a `PosCovGeodetic` block, in ENU order, together
/// with the block's time of week; `None` when the time of week or any of the
/// six terms is missing.
pub fn pos_cov_geodetic_covariance(msg: &PosCovBlock) -> (res: Option<(u32, [u32; 9])>)
    ensures
        covariance_view(res) == spec_pos_cov_covariance(*msg),
{
    match (msg.tow, msg.cov_latlat, msg.cov_lonlon, msg.cov_hgthgt) {
        (Some(tow), Some(latlat), Some(lonlon), Some(hgthgt)) => {
            match (msg.cov_latlon, msg.cov_lathgt, msg.cov_lonhgt) {
                (Some(latlon), Some(lathgt), Some(lonhgt)) => {
                    let cov: [u32; 9] = [
                        lonlon,
                        latlon,
                        lonhgt,
                        latlon,
                        latlat,
                        lathgt,
                        lonhgt,
                        lathgt,
                        hgthgt,
                    ];
                    assert(cov@ =~= enu_covariance(latlat, lonlon, hgthgt, latlon, lathgt, lonhgt));
                    Some((tow, cov))
                },
                _ => None,
            }
        },
        _ => None,
    }
}

/// The distance between two times of week, in milliseconds.
pub open spec fn tow_distance(a: u32, b: u32) -> int {
    if a >= b {
        a - b
    } else {
        b - a
    }
}

/// The covariance used in place of a missing one: all zero.
pub open spec fn zero_covariance() -> Seq<u32> {
    seq![0u32, 0u32, 0u32, 0u32, 0u32, 0u32, 0u32, 0u32, 0u32]
}

/// The covariance that a position fix with time of week `pvt_tow` gets from
/// the stored covariance `latest`: the stored one when both times of week are
/// known and lie within `COVARIANCE_TOW_TOLERANCE_MS` of each other, else all
/// zero.
pub open spec fn spec_covariance_for_tow(latest: Option<(u32, Seq<u32>)>, pvt_tow: Option<u32>) -> Seq<u32> {
    match (pvt_tow, latest) {
        (Some(tow), Some((cov_tow, cov))) => {
            if tow_distance(tow, cov_tow) <= COVARIANCE_TOW_TOLERANCE_MS {
                cov
            } else {
                zero_covariance()
            }
        },
        _ => zero_covariance(),
    }
}

/// The fields that a position fix needs are present.
pub open spec fn pvt_complete(p: PvtBlock) -> bool {
    &&& p.tow is Some
    &&& p.latitude is Some
    &&& p.longitude is Some
    &&& p.height is Some
}

/// `info` is the reading made of the complete block `p` with covariance `cov`.
pub open spec fn reading_of(info: GpsReading, p: PvtBlock, cov: Seq<u32>) -> bool {
    &&& info.tow == TimeOfWeek(p.tow->0)
    &&& info.latitude == p.latitude->0
    &&& info.longitude == p.longitude->0
    &&& info.height == p.height->0
    &&& info.covariance@ == cov
    &&& info.fix_status == spec_fix_status(p.mode)
}

/// Turns a `PVTGeodetic` block into a reading with the given covariance;
/// `None` when its time of week, latitude, longitude or height is missing.
pub fn pvt_geodetic_to_info(msg: &PvtBlock, covariance: [u32; 9]) -> (res: Option<GpsReading>)
    ensures
        res is Some <==> pvt_complete(*msg),
        res matches Some(info) ==> reading_of(info, *msg, covariance@),
{
    match (msg.tow, msg.latitude, msg.longitude, msg.height) {
        (Some(tow), Some(lat), Some(lon), Some(height)) => Some(
            GpsReading {
                latitude: lat,
                longitude: lon,
                height,
                tow: TimeOfWeek(tow),
                fix_status: mode_to_fix_status(msg.mode),
                covariance,
            },
        ),
        _ => None,
    }
}

/// The state that the GPS keeps between blocks: the latest covariance block,
/// keyed by its time of week.
pub struct GpsTracker {
    latest_covariance_by_tow: Option<(u32, [u32; 9])>,
}

impl View for GpsTracker {
    type V = Option<(u32, Seq<u32>)>;

    closed spec fn view(&self) -> Option<(u32, Seq<u32>)> {
        covariance_view(self.latest_covariance_by_tow)
    }
}

/// What handling `msg` does to the stored covariance `latest`, and the
/// reading it gives.
///
/// A covariance block replaces the stored covariance (an incomplete one
/// clears it) and gives no reading; a position block leaves it unchanged and
/// gives a reading when complete, with the covariance that
/// `spec_covariance_for_tow` selects; any other block changes nothing.
pub open spec fn handled_as(
    latest: Option<(u32, Seq<u32>)>,
    msg: SbfMessage,
    new_latest: Option<(u32, Seq<u32>)>,
    reading: Option<GpsReading>,
) -> bool {
    &&& new_latest == next_latest(latest, msg)
    &&& match msg {
        SbfMessage::PosCovGeodetic(b) => reading is None,
        SbfMessage::PvtGeodetic(p) => {
            &&& (reading is Some <==> pvt_complete(p))
            &&& (reading matches Some(info) ==> reading_of(info, p, spec_covariance_for_tow(latest, p.tow)))
        },
        SbfMessage::Other => reading is None,
    }
}

/// The stored covariance after handling `msg`.
pub open spec fn next_latest(latest: Option<(u32, Seq<u32>)>, msg: SbfMessage) -> Option<(u32, Seq<u32>)> {
    match msg {
        SbfMessage::PosCovGeodetic(b) => spec_pos_cov_covariance(b),
        _ => latest,
    }
}

/// The stored covariance after handling `msgs` in order, from `latest`.
pub open spec fn latest_after(latest: Option<(u32, Seq<u32>)>, msgs: Seq<SbfMessage>) -> Option<(u32, Seq<u32>)>
    decreases msgs.len(),
{
    if msgs.len() == 0 {
        latest
    } else {
        next_latest(latest_after(latest, msgs.drop_last()), msgs.last())
    }
}

/// The last covariance block among `msgs`, if any.
pub open spec fn last_pos_cov(msgs: Seq<SbfMessage>) -> Option<PosCovBlock>
    decreases msgs.len(),
{
    if msgs.len() == 0 {
        None
    } else {
        match msgs.last() {
            SbfMessage::PosCovGeodetic(b) => Some(b),
            _ => last_pos_cov(msgs.drop_last()),
        }
    }
}

/// The entry in row `i` and column `j` of a row-major 3x3 matrix.
pub open spec fn matrix_entry(m: Seq<u32>, i: int, j: int) -> u32 {
    m[3 * i + j]
}

/// The ENU covariance matrix is symmetric, and its diagonal holds the
/// longitude, latitude and height variances, in that order.
pub proof fn lemma_enu_covariance_symmetric(
    latlat: u32,
    lonlon: u32,
    hgthgt: u32,
    latlon: u32,
    lathgt: u32,
    lonhgt: u32,
)
    ensures
        ({
            let m = enu_covariance(latlat, lonlon, hgthgt, latlon, lathgt, lonhgt);
            &&& m.len() == 9
            &&& forall|i: int, j: int|
                0 <= i < 3 && 0 <= j < 3 ==> #[trigger] matrix_entry(m, i, j) == matrix_entry(m, j, i)
            &&& m[0] == lonlon
            &&& m[4] == latlat
            &&& m[8] == hgthgt
        }),
{
    let m = enu_covariance(latlat, lonlon, hgthgt, latlon, lathgt, lonhgt);
    assert forall|i: int, j: int| 0 <= i < 3 && 0 <= j < 3 implies #[trigger] matrix_entry(m, i, j)
        == matrix_entry(m, j, i) by {
        if i == 0 && j == 1 {
            assert(m[1] == m[3]);
        } else if i == 1 && j == 0 {
            assert(m[3] == m[1]);
        } else if i == 0 && j == 2 {
            assert(m[2] == m[6]);
        } else if i == 2 && j == 0 {
            assert(m[6] == m[2]);
        } else if i == 1 && j == 2 {
            assert(m[5] == m[7]);
        } else if i == 2 && j == 1 {
            assert(m[7] == m[5]);
        }
    }
}

/// A complete covariance block gives its own time of week and the matrix
/// over the east (longitude), north (latitude) and up (height) axes: each
/// variance on the diagonal, and each cross term in both of the cells of its
/// two axes, whatever the values of the terms; an incomplete block gives
/// nothing.
pub proof fn lemma_pos_cov_covariance_enu_entries(b: PosCovBlock)
    ensures
        spec_pos_cov_covariance(b) is Some <==> pos_cov_complete(b),
        pos_cov_complete(b) ==> ({
            let (tow, m) = spec_pos_cov_covariance(b)->0;
            &&& tow == b.tow->0
            &&& m.len() == 9
            &&& matrix_entry(m, 0, 0) == b.cov_lonlon->0
            &&& matrix_entry(m, 1, 1) == b.cov_latlat->0
            &&& matrix_entry(m, 2, 2) == b.cov_hgthgt->0
            &&& matrix_entry(m, 0, 1) == b.cov_latlon->0
            &&& matrix_entry(m, 1, 0) == b.cov_latlon->0
            &&& matrix_entry(m, 0, 2) == b.cov_lonhgt->0
            &&& matrix_entry(m, 2, 0) == b.cov_lonhgt->0
            &&& matrix_entry(m, 1, 2) == b.cov_lathgt->0
            &&& matrix_entry(m, 2, 1) == b.cov_lathgt->0
        }),
{
}

/// The distance between two times of week is the plain difference of the
/// two numbers, larger minus smaller.
pub proof fn lemma_tow_distance_is_difference(a: u32, b: u32)
    ensures
        tow_distance(a, b) >= 0,
        a + tow_distance(a, b) == b || b + tow_distance(a, b) == a,
{
}

/// A fix stamped `pvt_tow` gets the stored covariance stamped `cov_tow`
/// exactly when the two times of week are at most
/// `COVARIANCE_TOW_TOLERANCE_MS` apart, counted as plain integers; otherwise,
/// and when either time of week or the stored covariance is missing, it gets
/// nine zeros.
pub proof fn lemma_covariance_for_tow_tolerance(
    latest: Option<(u32, Seq<u32>)>,
    pvt_tow: Option<u32>,
)
    ensures
        ({
            let c = spec_covariance_for_tow(latest, pvt_tow);
            let zeros = c.len() == 9 && forall|i: int| 0 <= i < 9 ==> #[trigger] c[i] == 0u32;
            match (latest, pvt_tow) {
                (Some((cov_tow, cov)), Some(tow)) => if tow <= cov_tow + 1000 && cov_tow <= tow + 1000 {
                    c == cov
                } else {
                    zeros
                },
                _ => zeros,
            }
        }),
{
}

/// A reading made of a position block carries that block's time of week,
/// latitude, longitude and height, each in its own field, and the covariance
/// it was given, whatever the block's mode number.
pub proof fn lemma_reading_keeps_position(info: GpsReading, p: PvtBlock, cov: Seq<u32>)
    requires
        reading_of(info, p, cov),
    ensures
        info.tow.0 == p.tow->0,
        info.latitude == p.latitude->0,
        info.longitude == p.longitude->0,
        info.height == p.height->0,
        info.covariance@ == cov,
        info.fix_status == spec_fix_status(p.mode),
{
}

/// The mode number of a position block decides only the fix status of its
/// reading: two readings of blocks that differ only in their mode number
/// agree in every other field.
pub proof fn lemma_mode_decides_only_fix_status(
    p: PvtBlock,
    mode: u8,
    cov: Seq<u32>,
    first: GpsReading,
    second: GpsReading,
)
    requires
        reading_of(first, p, cov),
        reading_of(second, PvtBlock { mode, ..p }, cov),
    ensures
        first.tow == second.tow,
        first.latitude == second.latitude,
        first.longitude == second.longitude,
        first.height == second.height,
        first.covariance@ == second.covariance@,
{
}

/// The stored covariance is always that of the last covariance block
/// handled (cleared when that block was incomplete); position blocks and
/// other blocks never change it.
pub proof fn lemma_latest_covariance_block_wins(latest: Option<(u32, Seq<u32>)>, msgs: Seq<SbfMessage>)
    ensures
        latest_after(latest, msgs) == match last_pos_cov(msgs) {
            Some(b) => spec_pos_cov_covariance(b),
            None => latest,
        },
    decreases msgs.len(),
{
    if msgs.len() > 0 {
        lemma_latest_covariance_block_wins(latest, msgs.drop_last());
    }
}

/// Pairing does not depend on which of the two times of week is the
/// earlier: a covariance stamped `a` goes with a fix stamped `b` exactly when
/// one stamped `b` goes with a fix stamped `a`.
pub proof fn lemma_pairing_ignores_time_order(a: u32, b: u32, cov: Seq<u32>)
    ensures
        spec_covariance_for_tow(Some((a, cov)), Some(b)) == spec_covariance_for_tow(Some((b, cov)), Some(a)),
{
}

/// A complete position fix handled right after a covariance block gets that
/// block's ENU covariance when the block is complete and the two times of
/// week lie within `COVARIANCE_TOW_TOLERANCE_MS` of each other, and an
/// all-zero covariance otherwise, whatever was stored before.
pub proof fn lemma_fix_paired_with_preceding_covariance(
    latest: Option<(u32, Seq<u32>)>,
    b: PosCovBlock,
    p: PvtBlock,
    mid: Option<(u32, Seq<u32>)>,
    first: Option<GpsReading>,
    last: Option<(u32, Seq<u32>)>,
    second: Option<GpsReading>,
)
    requires
        handled_as(latest, SbfMessage::PosCovGeodetic(b), mid, first),
        handled_as(mid, SbfMessage::PvtGeodetic(p), last, second),
        pvt_complete(p),
    ensures
        first is None,
        last == mid,
        second matches Some(info) && info.covariance@ == (if pos_cov_complete(b) && tow_distance(
            p.tow->0,
            b.tow->0,
        ) <= COVARIANCE_TOW_TOLERANCE_MS {
            enu_covariance(
                b.cov_latlat->0,
                b.cov_lonlon->0,
                b.cov_hgthgt->0,
                b.cov_latlon->0,
                b.cov_lathgt->0,
                b.cov_lonhgt->0,
            )
        } else {
            zero_covariance()
        }),
{
}

/// `states` and `readings` are what handling the blocks `msgs` one after
/// the other gives: `states[i]` is the stored covariance before block `i`,
/// `states[i + 1]` the one after it, and `readings[i]` the reading that block
/// `i` gave. Successive calls of `GpsTracker::handle_message` make such a
/// trace of their views and results.
pub open spec fn handling_trace(
    msgs: Seq<SbfMessage>,
    states: Seq<Option<(u32, Seq<u32>)>>,
    readings: Seq<Option<GpsReading>>,
) -> bool {
    &&& states.len() == msgs.len() + 1
    &&& readings.len() == msgs.len()
    &&& forall|i: int|
        #![trigger msgs[i]]
        0 <= i < msgs.len() ==> handled_as(states[i], msgs[i], states[i + 1], readings[i])
}

/// No block among `msgs` is a complete covariance block.
pub open spec fn no_complete_pos_cov(msgs: Seq<SbfMessage>) -> bool {
    forall|j: int|
        #![trigger msgs[j]]
        0 <= j < msgs.len() ==> !(msgs[j] matches SbfMessage::PosCovGeodetic(b) && pos_cov_complete(b))
}

proof fn lemma_trace_state(
    msgs: Seq<SbfMessage>,
    states: Seq<Option<(u32, Seq<u32>)>>,
    readings: Seq<Option<GpsReading>>,
    k: int,
)
    requires
        handling_trace(msgs, states, readings),
        0 <= k <= msgs.len(),
    ensures
        states[k] == latest_after(states[0], msgs.take(k)),
    decreases k,
{
    if k == 0 {
        assert(msgs.take(0) =~= Seq::<SbfMessage>::empty());
    } else {
        lemma_trace_state(msgs, states, readings, k - 1);
        assert(handled_as(states[k - 1], msgs[k - 1], states[k], readings[k - 1]));
        assert(msgs.take(k).drop_last() =~= msgs.take(k - 1));
        assert(msgs.take(k).last() == msgs[k - 1]);
    }
}

proof fn lemma_no_complete_pos_cov_keeps_none(msgs: Seq<SbfMessage>)
    requires
        no_complete_pos_cov(msgs),
    ensures
        latest_after(None, msgs) is None,
    decreases msgs.len(),
{
    if msgs.len() > 0 {
        let rest = msgs.drop_last();
        assert forall|j: int| 0 <= j < rest.len() implies !(#[trigger] rest[j] matches SbfMessage::PosCovGeodetic(
            b,
        ) && pos_cov_complete(b)) by {
            assert(rest[j] == msgs[j]);
        }
        lemma_no_complete_pos_cov_keeps_none(rest);
        assert(msgs.last() == msgs[msgs.len() - 1]);
    }
}

/// Over any run of handled blocks, the covariance stored before block `k`
/// is that of the last covariance block among the blocks before it (or the
/// starting one when there is none), and a reading that block `k` gives is
/// made of a complete position block, with the covariance that this stored
/// one selects for its time of week.
pub proof fn lemma_handling_trace(
    msgs: Seq<SbfMessage>,
    states: Seq<Option<(u32, Seq<u32>)>>,
    readings: Seq<Option<GpsReading>>,
    k: int,
)
    requires
        handling_trace(msgs, states, readings),
        0 <= k < msgs.len(),
    ensures
        states[k] == latest_after(states[0], msgs.take(k)),
        states[k] == match last_pos_cov(msgs.take(k)) {
            Some(b) => spec_pos_cov_covariance(b),
            None => states[0],
        },
        readings[k] matches Some(info) ==> (msgs[k] matches SbfMessage::PvtGeodetic(p) && pvt_complete(p)
            && reading_of(info, p, spec_covariance_for_tow(states[k], p.tow))),
{
    lemma_trace_state(msgs, states, readings, k);
    lemma_latest_covariance_block_wins(states[0], msgs.take(k));
    assert(handled_as(states[k], msgs[k], states[k + 1], readings[k]));
}

/// From a tracker that has stored no covariance, every reading given before
/// a complete covariance block has been handled carries an all-zero
/// covariance: in particular the first fix of a fresh GPS, unless a complete
/// covariance block came first.
pub proof fn lemma_first_fix_zero_covariance(
    msgs: Seq<SbfMessage>,
    states: Seq<Option<(u32, Seq<u32>)>>,
    readings: Seq<Option<GpsReading>>,
    k: int,
)
    requires
        handling_trace(msgs, states, readings),
        states[0] is None,
        0 <= k < msgs.len(),
        no_complete_pos_cov(msgs.take(k)),
    ensures
        readings[k] matches Some(info) ==> info.covariance@ == zero_covariance(),
{
    lemma_trace_state(msgs, states, readings, k);
    lemma_no_complete_pos_cov_keeps_none(msgs.take(k));
    assert(handled_as(states[k], msgs[k], states[k + 1], readings[k]));
}

impl GpsTracker {
    /// A tracker that has seen no covariance yet.
    pub fn new() -> (t: GpsTracker)
        ensures
            t@ is None,
    {
        GpsTracker { latest_covariance_by_tow: None }
    }

    /// The covariance for a position fix with time of week `pvt_tow`.
    pub fn covariance_for_tow(&self, pvt_tow: Option<u32>) -> (cov: [u32; 9])
        ensures
            cov@ == spec_covariance_for_tow(self@, pvt_tow),
    {
        let zero: [u32; 9] = [0, 0, 0, 0, 0, 0, 0, 0, 0];
        assert(zero@ =~= zero_covariance());
        match (pvt_tow, &self.latest_covariance_by_tow) {
            (Some(tow), Some((cov_tow, cov))) => {
                let distance: u32 = if tow >= *cov_tow {
                    tow - *cov_tow
                } else {
                    *cov_tow - tow
                };
                if distance <= COVARIANCE_TOW_TOLERANCE_MS {
                    *cov
                } else {
                    zero
                }
            },
            _ => zero,
        }
    }

    /// Handles one decoded block: stores a covariance block, or turns a
    /// position block into a reading with the matching covariance.
    pub fn handle_message(&mut self, msg: SbfMessage) -> (reading: Option<GpsReading>)
        ensures
            handled_as(old(self)@, msg, final(self)@, reading),
    {
        match msg {
            SbfMessage::PosCovGeodetic(b) => {
                self.latest_covariance_by_tow = pos_cov_geodetic_covariance(&b);
                None
            },
            SbfMessage::PvtGeodetic(p) => {
                let covariance = self.covariance_for_tow(p.tow);
                pvt_geodetic_to_info(&p, covariance)
            },
            SbfMessage::Other => None,
        }
    }
}

} // verus!
