use soro_gps::gps::{
    mode_to_fix_status, pos_cov_geodetic_covariance, pvt_geodetic_to_info, FixStatus, GpsReading,
    GpsTracker, PosCovBlock, PvtBlock, SbfMessage, TimeOfWeek, COVARIANCE_TOW_TOLERANCE_MS,
};
use soro_gps::sbf::{FeedOutcome, GpsDecoder};

const PVT_GEODETIC_ID: u16 = 4007;
const POS_COV_GEODETIC_ID: u16 = 5906;

const TOW: u32 = 162480000;
const LAT_RAD: f64 = 0.6145361740716572;
const LON_RAD: f64 = -1.7006749045222338;
const HEIGHT_M: f64 = 326.3521656619435;

const COV_LATLAT: f32 = 1.4662505388259888;
const COV_LONLON: f32 = 6.332064151763916;
const COV_HGTHGT: f32 = 7.916072368621826;
const COV_LATLON: f32 = -1.039555311203003;
const COV_LATHGT: f32 = -1.793131947517395;
const COV_LONHGT: f32 = 4.263922691345215;

const EXPECTED_COVARIANCE: [f64; 9] = [
    6.332064151763916,
    -1.039555311203003,
    4.263922691345215,
    -1.039555311203003,
    1.4662505388259888,
    -1.793131947517395,
    4.263922691345215,
    -1.793131947517395,
    7.916072368621826,
];

fn crc16_xmodem(data: &[u8]) -> u16 {
    let mut crc: u16 = 0;
    for &byte in data {
        crc ^= (byte as u16) << 8;
        for _ in 0..8 {
            if crc & 0x8000 != 0 {
                crc = (crc << 1) ^ 0x1021;
            } else {
                crc <<= 1;
            }
        }
    }
    crc
}

/// A framed SBF block: sync, CRC, ID, length, payload.
fn sbf_block(id: u16, payload: &[u8]) -> Vec<u8> {
    assert!(payload.len() % 4 == 0);
    let length = (payload.len() + 8) as u16;
    let mut body = Vec::new();
    body.extend_from_slice(&id.to_le_bytes());
    body.extend_from_slice(&length.to_le_bytes());
    body.extend_from_slice(payload);
    let crc = crc16_xmodem(&body);
    let mut block = b"$@".to_vec();
    block.extend_from_slice(&crc.to_le_bytes());
    block.extend_from_slice(&body);
    block
}

fn pvt_geodetic_payload(tow: u32, mode: u8, lat: f64, lon: f64, height: f64) -> Vec<u8> {
    let mut p = Vec::new();
    p.extend_from_slice(&tow.to_le_bytes());
    p.extend_from_slice(&2360u16.to_le_bytes()); // wnc
    p.push(mode);
    p.push(0); // error
    p.extend_from_slice(&lat.to_le_bytes());
    p.extend_from_slice(&lon.to_le_bytes());
    p.extend_from_slice(&height.to_le_bytes());
    for _ in 0..5 {
        p.extend_from_slice(&0.0f32.to_le_bytes()); // undulation, vn, ve, vu, cog
    }
    p.extend_from_slice(&0.0f64.to_le_bytes()); // rx_clk_bias
    p.extend_from_slice(&0.0f32.to_le_bytes()); // rx_clk_drift
    p.push(0); // time_system
    p.push(0); // datum
    p.push(12); // nr_sv
    p.push(0); // wa_corr_info
    p.extend_from_slice(&0u16.to_le_bytes()); // reference_id
    p.extend_from_slice(&0u16.to_le_bytes()); // mean_corr_age
    p.extend_from_slice(&0u32.to_le_bytes()); // signal_info
    p.push(0); // alert_flag
    p.push(0); // nr_bases
    p.extend_from_slice(&0u16.to_le_bytes()); // ppp_info
    p.extend_from_slice(&0u16.to_le_bytes()); // latency
    p.extend_from_slice(&0u16.to_le_bytes()); // h_accuracy
    p.extend_from_slice(&0u16.to_le_bytes()); // v_accuracy
    p.push(0); // misc
    while p.len() % 4 != 0 {
        p.push(0);
    }
    p
}

fn pos_cov_geodetic_payload(tow: u32, covs: [f32; 10]) -> Vec<u8> {
    let mut p = Vec::new();
    p.extend_from_slice(&tow.to_le_bytes());
    p.extend_from_slice(&2360u16.to_le_bytes());
    p.push(1); // mode
    p.push(0); // error
    for c in covs {
        p.extend_from_slice(&c.to_le_bytes());
    }
    p
}

/// latlat, lonlon, hgthgt, bb, latlon, lathgt, latb, lonhgt, lonb, hb
fn sample_covariances() -> [f32; 10] {
    [COV_LATLAT, COV_LONLON, COV_HGTHGT, 0.5, COV_LATLON, COV_LATHGT, 0.25, COV_LONHGT, 0.125, 0.0625]
}

fn complete_pos_cov(tow: u32) -> PosCovBlock {
    PosCovBlock {
        tow: Some(tow),
        cov_latlat: Some(11),
        cov_lonlon: Some(22),
        cov_hgthgt: Some(33),
        cov_latlon: Some(12),
        cov_lathgt: Some(13),
        cov_lonhgt: Some(23),
    }
}

fn complete_pvt(tow: u32, mode: u8) -> PvtBlock {
    PvtBlock {
        tow: Some(tow),
        latitude: Some(LAT_RAD.to_bits()),
        longitude: Some(LON_RAD.to_bits()),
        height: Some(HEIGHT_M.to_bits()),
        mode,
    }
}

fn assert_close(actual: f64, expected: f64, tolerance: f64) {
    let delta = (actual - expected).abs();
    assert!(
        delta <= tolerance,
        "expected {expected} +/- {tolerance}, got {actual} (delta={delta})"
    );
}

fn covariance_as_f64(reading: &GpsReading) -> [f64; 9] {
    reading.covariance.map(|bits| f32::from_bits(bits) as f64)
}

#[test]
fn mode_numbers_map_to_fix_status() {
    let expected = [
        FixStatus::Invalid,     // 0: no PVT
        FixStatus::SinglePoint, // 1: stand-alone
        FixStatus::GroundBased, // 2: differential
        FixStatus::SinglePoint, // 3: fixed location
        FixStatus::GroundBased, // 4: RTK fixed
        FixStatus::GroundBased, // 5: RTK float
        FixStatus::Sbas,        // 6: SBAS
        FixStatus::GroundBased, // 7: moving-base RTK fixed
        FixStatus::GroundBased, // 8: moving-base RTK float
        FixStatus::Invalid,     // 9: reserved
        FixStatus::GroundBased, // 10: PPP
        FixStatus::Invalid,     // 11: reserved
        FixStatus::Invalid,
        FixStatus::Invalid,
        FixStatus::Invalid,
        FixStatus::Invalid,
    ];
    for (mode, status) in expected.iter().enumerate() {
        assert_eq!(mode_to_fix_status(mode as u8), *status, "mode {mode}");
    }
}

#[test]
fn covariance_is_rearranged_into_enu_order() {
    let (tow, cov) = pos_cov_geodetic_covariance(&complete_pos_cov(7)).expect("complete block");
    assert_eq!(tow, 7);
    // E <- lon, N <- lat, U <- height
    assert_eq!(cov, [22, 12, 23, 12, 11, 13, 23, 13, 33]);
    for i in 0..3 {
        for j in 0..3 {
            assert_eq!(cov[3 * i + j], cov[3 * j + i]);
        }
    }
}

#[test]
fn incomplete_covariance_block_gives_nothing() {
    let full = complete_pos_cov(7);
    let variants = [
        PosCovBlock { tow: None, ..full },
        PosCovBlock { cov_latlat: None, ..full },
        PosCovBlock { cov_lonlon: None, ..full },
        PosCovBlock { cov_hgthgt: None, ..full },
        PosCovBlock { cov_latlon: None, ..full },
        PosCovBlock { cov_lathgt: None, ..full },
        PosCovBlock { cov_lonhgt: None, ..full },
    ];
    for block in variants {
        assert!(pos_cov_geodetic_covariance(&block).is_none(), "{block:?}");
    }
}

#[test]
fn pvt_needs_time_and_position() {
    let full = complete_pvt(TOW, 1);
    let cov = [1, 2, 3, 4, 5, 6, 7, 8, 9];
    let info = pvt_geodetic_to_info(&full, cov).expect("complete block");
    assert_eq!(info.tow, TimeOfWeek(TOW));
    assert_eq!(info.latitude, LAT_RAD.to_bits());
    assert_eq!(info.longitude, LON_RAD.to_bits());
    assert_eq!(info.height, HEIGHT_M.to_bits());
    assert_eq!(info.covariance, cov);
    assert_eq!(info.fix_status, FixStatus::SinglePoint);

    assert!(pvt_geodetic_to_info(&PvtBlock { tow: None, ..full }, cov).is_none());
    assert!(pvt_geodetic_to_info(&PvtBlock { latitude: None, ..full }, cov).is_none());
    assert!(pvt_geodetic_to_info(&PvtBlock { longitude: None, ..full }, cov).is_none());
    assert!(pvt_geodetic_to_info(&PvtBlock { height: None, ..full }, cov).is_none());
}

#[test]
fn covariance_pairs_within_tolerance() {
    let cases: [(u32, u32, bool); 7] = [
        (5000, 5000, true),
        (5000, 5999, true),
        (5000, 5000 + COVARIANCE_TOW_TOLERANCE_MS, true),
        (5000, 5000 + COVARIANCE_TOW_TOLERANCE_MS + 1, false),
        (6000, 5000, true),
        (6001, 5000, false),
        (u32::MAX, 0, false),
    ];
    for (cov_tow, pvt_tow, paired) in cases {
        let mut tracker = GpsTracker::new();
        assert!(tracker
            .handle_message(SbfMessage::PosCovGeodetic(complete_pos_cov(cov_tow)))
            .is_none());
        let expected = if paired { [22, 12, 23, 12, 11, 13, 23, 13, 33] } else { [0; 9] };
        assert_eq!(tracker.covariance_for_tow(Some(pvt_tow)), expected, "{cov_tow} {pvt_tow}");
        let reading = tracker
            .handle_message(SbfMessage::PvtGeodetic(complete_pvt(pvt_tow, 4)))
            .expect("complete fix");
        assert_eq!(reading.covariance, expected);
        assert_eq!(reading.fix_status, FixStatus::GroundBased);
    }
}

#[test]
fn fix_without_time_gets_zero_covariance() {
    let mut tracker = GpsTracker::new();
    tracker.handle_message(SbfMessage::PosCovGeodetic(complete_pos_cov(10)));
    assert_eq!(tracker.covariance_for_tow(None), [0; 9]);
}

#[test]
fn fresh_tracker_has_no_covariance() {
    let tracker = GpsTracker::new();
    assert_eq!(tracker.covariance_for_tow(Some(0)), [0; 9]);
}

#[test]
fn incomplete_covariance_block_clears_the_stored_one() {
    let mut tracker = GpsTracker::new();
    tracker.handle_message(SbfMessage::PosCovGeodetic(complete_pos_cov(10)));
    let incomplete = PosCovBlock { cov_hgthgt: None, ..complete_pos_cov(10) };
    assert!(tracker.handle_message(SbfMessage::PosCovGeodetic(incomplete)).is_none());
    assert_eq!(tracker.covariance_for_tow(Some(10)), [0; 9]);
}

#[test]
fn position_and_other_blocks_keep_the_stored_covariance() {
    let mut tracker = GpsTracker::new();
    tracker.handle_message(SbfMessage::PosCovGeodetic(complete_pos_cov(10)));
    assert!(tracker.handle_message(SbfMessage::Other).is_none());
    let incomplete_fix = PvtBlock { height: None, ..complete_pvt(10, 1) };
    assert!(tracker.handle_message(SbfMessage::PvtGeodetic(incomplete_fix)).is_none());
    tracker.handle_message(SbfMessage::PvtGeodetic(complete_pvt(10, 1)));
    assert_eq!(tracker.covariance_for_tow(Some(10)), [22, 12, 23, 12, 11, 13, 23, 13, 33]);
}

#[test]
fn latest_covariance_block_wins() {
    let mut tracker = GpsTracker::new();
    tracker.handle_message(SbfMessage::PosCovGeodetic(complete_pos_cov(10)));
    let mut newer = complete_pos_cov(20);
    newer.cov_latlat = Some(99);
    tracker.handle_message(SbfMessage::PosCovGeodetic(newer));
    assert_eq!(tracker.covariance_for_tow(Some(20)), [22, 12, 23, 12, 99, 13, 23, 13, 33]);
}

#[test]
fn minimal_sbf_regression_expected_values() {
    let mut stream = sbf_block(POS_COV_GEODETIC_ID, &pos_cov_geodetic_payload(TOW, sample_covariances()));
    stream.extend(sbf_block(PVT_GEODETIC_ID, &pvt_geodetic_payload(TOW, 1, LAT_RAD, LON_RAD, HEIGHT_M)));

    let mut decoder = GpsDecoder::new();
    assert!(matches!(decoder.feed(&stream), FeedOutcome::Handled));
    let info = match decoder.feed(&[]) {
        FeedOutcome::Reading(info) => info,
        other => panic!("PVT should parse into a reading, got {other:?}"),
    };
    assert!(matches!(decoder.feed(&[]), FeedOutcome::NoMessage));

    assert_close(f64::from_bits(info.latitude).to_degrees(), 35.21032913242285, 1e-12);
    assert_close(f64::from_bits(info.longitude).to_degrees(), -97.44149435293824, 1e-12);
    assert_close(f64::from_bits(info.height), 326.3521656619435, 1e-12);
    assert_eq!(info.tow.0, 162480000);
    assert_eq!(info.fix_status, FixStatus::SinglePoint);
    for (actual, expected) in covariance_as_f64(&info).iter().zip(EXPECTED_COVARIANCE.iter()) {
        assert_close(*actual, *expected, 1e-12);
    }
}

#[test]
fn decoder_finds_blocks_in_noise_and_split_input() {
    let mut stream = vec![0x11, 0x22, b'$', 0x33];
    stream.extend(sbf_block(POS_COV_GEODETIC_ID, &pos_cov_geodetic_payload(TOW, sample_covariances())));
    stream.extend([0x44, 0x55]);
    stream.extend(sbf_block(PVT_GEODETIC_ID, &pvt_geodetic_payload(TOW + 500, 6, LAT_RAD, LON_RAD, HEIGHT_M)));

    let mut decoder = GpsDecoder::new();
    let mut reading = None;
    // Splits that fall inside blocks, not between the two sync bytes.
    let cuts = [0, 30, 61, 80, stream.len()];
    for w in cuts.windows(2) {
        let chunk = &stream[w[0]..w[1]];
        let mut out = decoder.feed(chunk);
        loop {
            match out {
                FeedOutcome::Reading(r) => reading = Some(r),
                FeedOutcome::Handled => {}
                FeedOutcome::NoMessage => break,
            }
            out = decoder.feed(&[]);
        }
    }
    let reading = reading.expect("a reading");
    assert_eq!(reading.tow, TimeOfWeek(TOW + 500));
    assert_eq!(reading.fix_status, FixStatus::Sbas);
    for (actual, expected) in covariance_as_f64(&reading).iter().zip(EXPECTED_COVARIANCE.iter()) {
        assert_close(*actual, *expected, 1e-12);
    }
}

#[test]
fn decoder_marks_do_not_use_fields_missing() {
    // A do-not-use latitude (-2e10) makes the fix unusable.
    let stream = sbf_block(PVT_GEODETIC_ID, &pvt_geodetic_payload(TOW, 1, -2e10, LON_RAD, HEIGHT_M));
    let mut decoder = GpsDecoder::new();
    assert!(matches!(decoder.feed(&stream), FeedOutcome::Handled));
}

#[test]
fn decoder_fix_far_from_covariance_gets_zeros() {
    let mut stream = sbf_block(POS_COV_GEODETIC_ID, &pos_cov_geodetic_payload(TOW, sample_covariances()));
    stream.extend(sbf_block(PVT_GEODETIC_ID, &pvt_geodetic_payload(TOW + 1001, 10, LAT_RAD, LON_RAD, HEIGHT_M)));
    let mut decoder = GpsDecoder::new();
    assert!(matches!(decoder.feed(&stream), FeedOutcome::Handled));
    match decoder.feed(&[]) {
        FeedOutcome::Reading(r) => {
            assert_eq!(r.covariance, [0; 9]);
            assert_eq!(r.fix_status, FixStatus::GroundBased);
        }
        other => panic!("expected a reading, got {other:?}"),
    }
}

#[test]
fn decoder_passes_over_other_blocks() {
    // A DOP block (4001) is handled without a reading.
    let mut payload = Vec::new();
    payload.extend_from_slice(&TOW.to_le_bytes());
    payload.extend_from_slice(&2360u16.to_le_bytes());
    payload.push(8);
    payload.push(0);
    for v in [150u16, 120, 90, 110] {
        payload.extend_from_slice(&v.to_le_bytes());
    }
    payload.extend_from_slice(&12.5f32.to_le_bytes());
    payload.extend_from_slice(&20.0f32.to_le_bytes());
    let stream = sbf_block(4001, &payload);
    let mut decoder = GpsDecoder::new();
    assert!(matches!(decoder.feed(&stream), FeedOutcome::Handled));
    assert!(matches!(decoder.feed(&[]), FeedOutcome::NoMessage));
}

#[test]
fn decoder_without_complete_block_reports_nothing() {
    let block = sbf_block(PVT_GEODETIC_ID, &pvt_geodetic_payload(TOW, 1, LAT_RAD, LON_RAD, HEIGHT_M));
    let mut decoder = GpsDecoder::new();
    assert!(matches!(decoder.feed(&block[..20]), FeedOutcome::NoMessage));
    assert!(matches!(decoder.feed(&[]), FeedOutcome::NoMessage));
    assert!(matches!(decoder.feed(&block[20..]), FeedOutcome::Reading(_)));
}

#[test]
fn decoder_reads_mode_from_low_bits() {
    // Bit 6 (determining static position) set on a fixed-location mode.
    let stream = sbf_block(PVT_GEODETIC_ID, &pvt_geodetic_payload(TOW, 0x43, LAT_RAD, LON_RAD, HEIGHT_M));
    let mut decoder = GpsDecoder::new();
    match decoder.feed(&stream) {
        FeedOutcome::Reading(r) => assert_eq!(r.fix_status, FixStatus::SinglePoint),
        other => panic!("expected a reading, got {other:?}"),
    }
}

#[test]
fn fresh_decoder_without_input_reports_nothing() {
    let mut decoder = GpsDecoder::new();
    assert!(matches!(decoder.feed(&[]), FeedOutcome::NoMessage));
}

fn feed_all(decoder: &mut GpsDecoder, input: &[u8]) -> Vec<FeedOutcome> {
    let mut outcomes = vec![decoder.feed(input)];
    while !matches!(outcomes.last(), Some(FeedOutcome::NoMessage)) {
        outcomes.push(decoder.feed(&[]));
    }
    outcomes
}

fn readings(outcomes: &[FeedOutcome]) -> Vec<GpsReading> {
    outcomes
        .iter()
        .filter_map(|o| match o {
            FeedOutcome::Reading(r) => Some(*r),
            _ => None,
        })
        .collect()
}

#[test]
fn fresh_decoder_first_fix_has_zero_covariance() {
    let mut stream = sbf_block(PVT_GEODETIC_ID, &pvt_geodetic_payload(TOW, 1, LAT_RAD, LON_RAD, HEIGHT_M));
    stream.extend(sbf_block(POS_COV_GEODETIC_ID, &pos_cov_geodetic_payload(TOW, sample_covariances())));
    stream.extend(sbf_block(PVT_GEODETIC_ID, &pvt_geodetic_payload(TOW + 100, 1, LAT_RAD, LON_RAD, HEIGHT_M)));
    let mut decoder = GpsDecoder::new();
    let got = readings(&feed_all(&mut decoder, &stream));
    assert_eq!(got.len(), 2);
    assert_eq!(got[0].tow, TimeOfWeek(TOW));
    assert_eq!(got[0].covariance, [0; 9]);
    assert_eq!(got[1].tow, TimeOfWeek(TOW + 100));
    for (actual, expected) in covariance_as_f64(&got[1]).iter().zip(EXPECTED_COVARIANCE.iter()) {
        assert_close(*actual, *expected, 1e-12);
    }
}

#[test]
fn incomplete_covariance_before_first_fix_leaves_zero_covariance() {
    let mut covs = sample_covariances();
    covs[0] = -2e10; // latlat: do not use
    let mut stream = sbf_block(POS_COV_GEODETIC_ID, &pos_cov_geodetic_payload(TOW, covs));
    stream.extend(sbf_block(PVT_GEODETIC_ID, &pvt_geodetic_payload(TOW, 1, LAT_RAD, LON_RAD, HEIGHT_M)));
    let mut decoder = GpsDecoder::new();
    let got = readings(&feed_all(&mut decoder, &stream));
    assert_eq!(got.len(), 1);
    assert_eq!(got[0].covariance, [0; 9]);
}

#[test]
fn tracker_first_fix_has_zero_covariance_until_a_complete_block() {
    let mut tracker = GpsTracker::new();
    let incomplete = PosCovBlock { cov_lonhgt: None, ..complete_pos_cov(10) };
    assert!(tracker.handle_message(SbfMessage::PosCovGeodetic(incomplete)).is_none());
    assert!(tracker.handle_message(SbfMessage::Other).is_none());
    let first = tracker.handle_message(SbfMessage::PvtGeodetic(complete_pvt(10, 1))).expect("a reading");
    assert_eq!(first.covariance, [0; 9]);
    tracker.handle_message(SbfMessage::PosCovGeodetic(complete_pos_cov(10)));
    let second = tracker.handle_message(SbfMessage::PvtGeodetic(complete_pvt(10, 1))).expect("a reading");
    assert_eq!(second.covariance, [22, 12, 23, 12, 11, 13, 23, 13, 33]);
}

#[test]
fn decoder_handles_each_block_once_in_order() {
    let mut stream = Vec::new();
    for i in 0..4u32 {
        stream.extend(sbf_block(PVT_GEODETIC_ID, &pvt_geodetic_payload(TOW + 50 * i, 1, LAT_RAD, LON_RAD, HEIGHT_M)));
    }
    let mut decoder = GpsDecoder::new();
    // Cut inside blocks: every fix comes out once, in stream order.
    let mut got = Vec::new();
    for chunk in stream.chunks(37) {
        got.extend(readings(&feed_all(&mut decoder, chunk)));
    }
    let tows: Vec<u32> = got.iter().map(|r| r.tow.0).collect();
    assert_eq!(tows, vec![TOW, TOW + 50, TOW + 100, TOW + 150]);
    assert!(matches!(decoder.feed(&[]), FeedOutcome::NoMessage));
}

#[test]
fn decoder_loses_a_block_whose_sync_bytes_arrive_apart() {
    // The parser drops a lone trailing `$` before the `@` that follows it
    // arrives, so a block cut between its two sync bytes is not found.
    let mut stream = sbf_block(PVT_GEODETIC_ID, &pvt_geodetic_payload(TOW, 1, LAT_RAD, LON_RAD, HEIGHT_M));
    let second = sbf_block(PVT_GEODETIC_ID, &pvt_geodetic_payload(TOW + 50, 1, LAT_RAD, LON_RAD, HEIGHT_M));
    let cut = stream.len() + 1;
    stream.extend(second);
    let mut decoder = GpsDecoder::new();
    let mut got = readings(&feed_all(&mut decoder, &stream[..cut]));
    got.extend(readings(&feed_all(&mut decoder, &stream[cut..])));
    let tows: Vec<u32> = got.iter().map(|r| r.tow.0).collect();
    assert_eq!(tows, vec![TOW]);
}
