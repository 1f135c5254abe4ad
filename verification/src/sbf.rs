//! The Septentrio Binary Format (SBF) stream, decoded by the `libsbf` crate,
//! and the GPS decoder that feeds its blocks to the covariance pairing of
//! `gps`.
use vstd::prelude::*;

use crate::gps::{
    handled_as, handling_trace, lemma_first_fix_zero_covariance, no_complete_pos_cov, zero_covariance,
    GpsReading, GpsTracker, PosCovBlock, PvtBlock, SbfMessage,
};
use libsbf::parser::SbfParser;
use libsbf::Messages;

verus! {

#[verifier::external_type_specification]
#[verifier::external_body]
pub struct ExSbfParser(libsbf::parser::SbfParser);

/// The bytes that a `libsbf` parser holds in its internal buffer, not yet
/// made into a block.
pub uninterp spec fn sbf_buffered(parser: SbfParser) -> Seq<u8>;

/// An SBF block as the parser hands it over, with the values the GPS logic
/// reads in a fixed order.
#[derive(Clone, Copy, Debug)]
pub enum RawSbfBlock {
    /// A `PVTGeodetic` block: its time of week; the bit patterns of its
    /// latitude, longitude and height, in that order; its PVT mode number.
    PvtGeodetic(Option<u32>, [Option<u64>; 3], u8),
    /// A `PosCovGeodetic` block: its time of week; the bit patterns of its
    /// terms latlat, lonlon, hgthgt, latlon, lathgt and lonhgt, in that order.
    PosCovGeodetic(Option<u32>, [Option<u32>; 6]),
    /// Any other block.
    Other,
}

/// What `libsbf::parser::SbfParser::consume` makes of the bytes `buffered`
/// (those the parser held, followed by those it was given): the block it
/// returns, if any, and how many leading bytes it drops from its buffer (the
/// bytes of that block and those it skipped as not starting a valid block).
pub uninterp spec fn sbf_scan(buffered: Seq<u8>) -> (Option<RawSbfBlock>, nat);

/// What every block from the parser satisfies: the mode number of a position
/// block is that of bits 0-3 of its mode field.
pub open spec fn raw_block_valid(raw: RawSbfBlock) -> bool {
    raw matches RawSbfBlock::PvtGeodetic(_, _, mode) ==> mode < 16
}

/// The block with its values named.
pub open spec fn spec_decode(raw: RawSbfBlock) -> SbfMessage {
    match raw {
        RawSbfBlock::PvtGeodetic(tow, position, mode) => SbfMessage::PvtGeodetic(
            PvtBlock { tow, latitude: position@[0], longitude: position@[1], height: position@[2], mode },
        ),
        RawSbfBlock::PosCovGeodetic(tow, terms) => SbfMessage::PosCovGeodetic(
            PosCovBlock {
                tow,
                cov_latlat: terms@[0],
                cov_lonlon: terms@[1],
                cov_hgthgt: terms@[2],
                cov_latlon: terms@[3],
                cov_lathgt: terms@[4],
                cov_lonhgt: terms@[5],
            },
        ),
        RawSbfBlock::Other => SbfMessage::Other,
    }
}

/// Naming the values of a block from the parser keeps each in its place:
/// a position block's time of week, latitude, longitude, height and mode are
/// those the parser gave, in that order, and a covariance block's terms are
/// named latlat, lonlon, hgthgt, latlon, lathgt and lonhgt in the order the
/// parser gave them, whatever their values.
pub proof fn lemma_decode_keeps_values(raw: RawSbfBlock)
    ensures
        match raw {
            RawSbfBlock::PvtGeodetic(tow, position, mode) => spec_decode(raw) == SbfMessage::PvtGeodetic(
                PvtBlock { tow, latitude: position@[0], longitude: position@[1], height: position@[2], mode },
            ),
            RawSbfBlock::PosCovGeodetic(tow, terms) => spec_decode(raw) matches SbfMessage::PosCovGeodetic(b)
                && b.tow == tow && b.cov_latlat == terms@[0] && b.cov_lonlon == terms@[1] && b.cov_hgthgt
                == terms@[2] && b.cov_latlon == terms@[3] && b.cov_lathgt == terms@[4] && b.cov_lonhgt
                == terms@[5],
            RawSbfBlock::Other => spec_decode(raw) == SbfMessage::Other,
        },
{
}

/// The covariance that a decoded covariance block stores, read against the
/// parser's terms: with all six terms and the time of week present, the east
/// variance is the parser's lonlon term, the north variance its latlat term,
/// the up variance its hgthgt term, and the east-north, north-up and east-up
/// cells hold its latlon, lathgt and lonhgt terms.
pub proof fn lemma_decoded_covariance_from_terms(tow: u32, terms: [Option<u32>; 6])
    requires
        forall|i: int| 0 <= i < 6 ==> #[trigger] terms@[i] is Some,
    ensures
        ({
            let b = spec_decode(RawSbfBlock::PosCovGeodetic(Some(tow), terms));
            &&& b is PosCovGeodetic
            &&& crate::gps::spec_pos_cov_covariance(b->PosCovGeodetic_0) matches Some((t, m)) && t == tow
                && m.len() == 9 && m[0] == terms@[1]->0 && m[4] == terms@[0]->0 && m[8] == terms@[2]->0
                && m[1] == terms@[3]->0 && m[3] == terms@[3]->0 && m[5] == terms@[4]->0 && m[7]
                == terms@[4]->0 && m[2] == terms@[5]->0 && m[6] == terms@[5]->0
        }),
{
    let b = spec_decode(RawSbfBlock::PosCovGeodetic(Some(tow), terms))->PosCovGeodetic_0;
    assert(terms@[0] is Some && terms@[1] is Some && terms@[2] is Some);
    assert(terms@[3] is Some && terms@[4] is Some && terms@[5] is Some);
    crate::gps::lemma_pos_cov_covariance_enu_entries(b);
}

/// Names the values of a block from the parser.
fn decode_message(raw: RawSbfBlock) -> (decoded: SbfMessage)
    ensures
        decoded == spec_decode(raw),
{
    match raw {
        RawSbfBlock::PvtGeodetic(tow, position, mode) => SbfMessage::PvtGeodetic(
            PvtBlock { tow, latitude: position[0], longitude: position[1], height: position[2], mode },
        ),
        RawSbfBlock::PosCovGeodetic(tow, terms) => SbfMessage::PosCovGeodetic(
            PosCovBlock {
                tow,
                cov_latlat: terms[0],
                cov_lonlon: terms[1],
                cov_hgthgt: terms[2],
                cov_latlon: terms[3],
                cov_lathgt: terms[4],
                cov_lonhgt: terms[5],
            },
        ),
        RawSbfBlock::Other => SbfMessage::Other,
    }
}

/// What every decoded block satisfies: the mode number of a position block
/// is that of bits 0-3 of its mode field.
pub open spec fn decoded_block(m: SbfMessage) -> bool {
    m matches SbfMessage::PvtGeodetic(p) ==> p.mode < 16
}

/// `libsbf::parser::SbfParser::new`: a parser with an empty internal buffer.
#[verifier::external_body]
fn new_sbf_parser() -> (parser: SbfParser)
    ensures
        sbf_buffered(parser) == Seq::<u8>::empty(),
{
    SbfParser::new()
}

/// `libsbf::parser::SbfParser::consume`, with the block it returns handed
/// over as a `RawSbfBlock`: a `PVTGeodetic` block by its time of week, the
/// bit patterns of its latitude, longitude and height, and its PVT mode
/// number (`PVTGeodetic::pvt_mode`, which keeps bits 0-3 of the mode field);
/// a `PosCovGeodetic` block by its time of week and the bit patterns of its
/// six position covariance terms; any other block as `Other`.
///
/// `consume` appends `input` to the parser's internal buffer, then returns
/// the first complete block found there, if any, after dropping the bytes
/// before it that do not start a valid block; the returned block's bytes
/// leave the buffer too. The contract states this over `sbf_scan`, which
/// names the block and the number of bytes dropped; an empty buffer gives no
/// block and stays empty.
#[verifier::external_body]
fn sbf_consume(parser: &mut SbfParser, input: &[u8]) -> (msg: Option<RawSbfBlock>)
    ensures
        sbf_buffered(*final(parser)) == (sbf_buffered(*old(parser)) + input@).skip(
            sbf_scan(sbf_buffered(*old(parser)) + input@).1 as int,
        ) && sbf_scan(sbf_buffered(*old(parser)) + input@).1 <= (sbf_buffered(*old(parser))
            + input@).len(),
        msg == sbf_scan(sbf_buffered(*old(parser)) + input@).0,
        msg matches Some(b) ==> raw_block_valid(b),
        sbf_buffered(*old(parser)) + input@ == Seq::<u8>::empty() ==> msg is None && sbf_buffered(
            *final(parser),
        ) == Seq::<u8>::empty(),
{
    parser.consume(input).map(|m| match m {
        Messages::PVTGeodetic(p) => RawSbfBlock::PvtGeodetic(p.tow,
            [p.latitude, p.longitude, p.height].map(|x| x.map(|v| v.to_bits())),
            u8::from(p.pvt_mode())),
        Messages::PosCovGeodetic(c) => RawSbfBlock::PosCovGeodetic(c.tow,
            [c.cov_latlat, c.cov_lonlon, c.cov_hgthgt, c.cov_latlon, c.cov_lathgt, c.cov_lonhgt]
                .map(|x| x.map(|v| v.to_bits()))),
        _ => RawSbfBlock::Other,
    })
}

/// What one step of the decoder gave.
#[derive(Clone, Copy, Debug)]
pub enum FeedOutcome {
    /// The buffered bytes held no complete block.
    NoMessage,
    /// A block was handled and gave no reading.
    Handled,
    /// A block was handled and gave a reading.
    Reading(GpsReading),
}

/// The reading an outcome carries, if any.
pub open spec fn outcome_reading(out: FeedOutcome) -> Option<GpsReading> {
    match out {
        FeedOutcome::Reading(r) => Some(r),
        _ => None,
    }
}

/// One step of the decoder: with `buffered` bytes held and the stored
/// covariance `latest`, feeding `input` leaves `new_buffered` bytes held and
/// the stored covariance `new_latest`, and gives `out`.
///
/// The held bytes become what the parser leaves of `buffered` followed by
/// `input`; the block the parser returns (see `sbf_scan`), with its values
/// named by `spec_decode`, is handled as `GpsTracker::handle_message` handles
/// it; when the parser returns none, the outcome is `NoMessage` and the
/// stored covariance stays as it was.
pub open spec fn fed_as(
    buffered: Seq<u8>,
    latest: Option<(u32, Seq<u32>)>,
    input: Seq<u8>,
    new_buffered: Seq<u8>,
    new_latest: Option<(u32, Seq<u32>)>,
    out: FeedOutcome,
) -> bool {
    let all = buffered + input;
    &&& new_buffered == all.skip(sbf_scan(all).1 as int)
    &&& (out is NoMessage <==> sbf_scan(all).0 is None)
    &&& match sbf_scan(all).0 {
        Some(raw) => decoded_block(spec_decode(raw)) && handled_as(
            latest,
            spec_decode(raw),
            new_latest,
            outcome_reading(out),
        ),
        None => new_latest == latest,
    }
}

/// The block that a step of the decoder handles, as the GPS logic sees it;
/// a step in which the parser returns no block counts as one that handled a
/// block of no interest (`Other`): neither changes anything.
pub open spec fn step_message(buffered: Seq<u8>, input: Seq<u8>) -> SbfMessage {
    match sbf_scan(buffered + input).0 {
        Some(raw) => spec_decode(raw),
        None => SbfMessage::Other,
    }
}

/// `buffers`, `states` and `outs` are what feeding `inputs` to a decoder one
/// after the other gives: `buffers[i]` and `states[i]` are the held bytes and
/// the stored covariance before step `i`, `outs[i]` its outcome. Successive
/// calls of `GpsDecoder::feed` make such a trace.
pub open spec fn feeding_trace(
    inputs: Seq<Seq<u8>>,
    buffers: Seq<Seq<u8>>,
    states: Seq<Option<(u32, Seq<u32>)>>,
    outs: Seq<FeedOutcome>,
) -> bool {
    &&& buffers.len() == inputs.len() + 1
    &&& states.len() == inputs.len() + 1
    &&& outs.len() == inputs.len()
    &&& forall|i: int|
        #![trigger inputs[i]]
        0 <= i < inputs.len() ==> fed_as(buffers[i], states[i], inputs[i], buffers[i + 1], states[i + 1], outs[i])
}

/// The blocks that the steps of a feeding trace handle, one per step.
pub open spec fn step_messages(inputs: Seq<Seq<u8>>, buffers: Seq<Seq<u8>>) -> Seq<SbfMessage> {
    Seq::new(inputs.len(), |i: int| step_message(buffers[i], inputs[i]))
}

/// The readings of the outcomes of a feeding trace.
pub open spec fn outcome_readings(outs: Seq<FeedOutcome>) -> Seq<Option<GpsReading>> {
    Seq::new(outs.len(), |i: int| outcome_reading(outs[i]))
}

/// Feeding a decoder handles, step by step, exactly the blocks the parser
/// returns, each in the step that returns it and in the order returned, and
/// nothing else: the stored covariance and the readings over any run of
/// `feed` calls are those of handling that run of blocks with
/// `GpsTracker::handle_message`.
pub proof fn lemma_feeding_is_handling(
    inputs: Seq<Seq<u8>>,
    buffers: Seq<Seq<u8>>,
    states: Seq<Option<(u32, Seq<u32>)>>,
    outs: Seq<FeedOutcome>,
)
    requires
        feeding_trace(inputs, buffers, states, outs),
    ensures
        handling_trace(step_messages(inputs, buffers), states, outcome_readings(outs)),
{
    let msgs = step_messages(inputs, buffers);
    let readings = outcome_readings(outs);
    assert forall|i: int| #![trigger msgs[i]] 0 <= i < msgs.len() implies handled_as(
        states[i],
        msgs[i],
        states[i + 1],
        readings[i],
    ) by {
        assert(fed_as(buffers[i], states[i], inputs[i], buffers[i + 1], states[i + 1], outs[i]));
    }
}

/// From a fresh decoder (one that has stored no covariance), every reading
/// given before a complete covariance block has been handled carries an
/// all-zero covariance: the first fix of a fresh GPS gets zero covariance
/// unless a complete covariance block came first.
pub proof fn lemma_fresh_decoder_first_fix_zero_covariance(
    inputs: Seq<Seq<u8>>,
    buffers: Seq<Seq<u8>>,
    states: Seq<Option<(u32, Seq<u32>)>>,
    outs: Seq<FeedOutcome>,
    k: int,
)
    requires
        feeding_trace(inputs, buffers, states, outs),
        states[0] is None,
        0 <= k < inputs.len(),
        no_complete_pos_cov(step_messages(inputs, buffers).take(k)),
    ensures
        outs[k] matches FeedOutcome::Reading(info) ==> info.covariance@ == zero_covariance(),
{
    lemma_feeding_is_handling(inputs, buffers, states, outs);
    lemma_first_fix_zero_covariance(step_messages(inputs, buffers), states, outcome_readings(outs), k);
}

/// The SBF parser together with the covariance pairing state: everything of
/// the GPS but its byte source.
pub struct GpsDecoder {
    parser: SbfParser,
    tracker: GpsTracker,
}

impl View for GpsDecoder {
    type V = Option<(u32, Seq<u32>)>;

    /// The stored covariance, keyed by its time of week.
    closed spec fn view(&self) -> Option<(u32, Seq<u32>)> {
        self.tracker@
    }
}

impl GpsDecoder {
    /// The bytes buffered in the parser, not yet made into a block.
    pub closed spec fn buffered(&self) -> Seq<u8> {
        sbf_buffered(self.parser)
    }

    /// A decoder with an empty buffer and no covariance.
    pub fn new() -> (d: GpsDecoder)
        ensures
            d@ is None,
            d.buffered() == Seq::<u8>::empty(),
    {
        GpsDecoder { parser: new_sbf_parser(), tracker: GpsTracker::new() }
    }

    /// Buffers `input` and handles the next complete block, if there is
    /// one; `feed(&[])` handles a block that is still buffered.
    ///
    /// The buffer becomes what the parser leaves of the buffered bytes
    /// followed by `input`, and the block it returns (see `sbf_scan`), with
    /// its values named by `spec_decode`, is handed to
    /// `GpsTracker::handle_message`: the stored covariance and
    /// the outcome are those of handling exactly that block. When the parser
    /// finds no complete block, nothing else changes; with nothing buffered
    /// and no input, nothing happens at all.
    pub fn feed(&mut self, input: &[u8]) -> (out: FeedOutcome)
        ensures
            fed_as(old(self).buffered(), old(self)@, input@, final(self).buffered(), final(self)@, out),
            old(self).buffered() + input@ == Seq::<u8>::empty() ==> out is NoMessage
                && final(self).buffered() == Seq::<u8>::empty(),
    {
        match sbf_consume(&mut self.parser, input) {
            Some(raw) => {
                let block = decode_message(raw);
                let reading = self.tracker.handle_message(block);
                assert(handled_as(old(self)@, block, self@, reading));
                match reading {
                    None => FeedOutcome::Handled,
                    Some(r) => FeedOutcome::Reading(r),
                }
            },
            None => FeedOutcome::NoMessage,
        }
    }
}

} // verus!
