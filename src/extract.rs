//! Taking events out of a block's execution logs, and the contract filter.

use vstd::prelude::*;
use crate::dup::Duplicate;
use crate::event::{EmitInfo, EventView, NearEvent, event_views};
use crate::text::{event_payload, is_marked, payload_of};

verus! {

/// One receipt's execution outcome.
#[derive(Debug, Clone)]
pub struct OutcomeRecord {
    pub receipt_id: String,
    /// The account that received the receipt: the emitting contract.
    pub receiver_id: String,
    pub logs: Vec<String>,
}

/// One shard of a block.
#[derive(Debug, Clone)]
pub struct ShardRecord {
    pub shard_id: u64,
    pub outcomes: Vec<OutcomeRecord>,
}

/// One block of the upstream stream.
#[derive(Debug, Clone)]
pub struct BlockRecord {
    pub height: u64,
    pub timestamp: u64,
    pub shards: Vec<ShardRecord>,
}

/// A marked log line: the text to decode as an event, the provenance to
/// attach to it, and the line as it was logged.
#[derive(Debug, Clone)]
pub struct EventCandidate {
    pub payload: String,
    pub emit_info: EmitInfo,
    pub log: String,
}

/// What a candidate holds.
pub struct CandidateView {
    pub payload: Seq<char>,
    pub emit_info: EmitInfo,
    pub log: String,
}

impl View for EventCandidate {
    type V = CandidateView;

    open spec fn view(&self) -> CandidateView {
        CandidateView { payload: self.payload@, emit_info: self.emit_info, log: self.log }
    }
}

/// The views of a vector of candidates.
pub open spec fn candidate_views(v: Seq<EventCandidate>) -> Seq<CandidateView> {
    v.map_values(|c: EventCandidate| c@)
}

/// The provenance of the events of one outcome.
pub open spec fn emit_info_of(o: OutcomeRecord, height: u64, timestamp: u64, shard_id: u64) -> EmitInfo {
    EmitInfo {
        receipt_id: o.receipt_id,
        block_timestamp: timestamp,
        block_height: height,
        shard_id,
        contract_account_id: o.receiver_id,
    }
}

/// The candidate of one log line, if it is marked.
pub open spec fn line_candidate(line: String, info: EmitInfo) -> Seq<CandidateView> {
    match payload_of(line@) {
        Some(p) => seq![CandidateView { payload: p, emit_info: info, log: line }],
        None => Seq::empty(),
    }
}

/// The candidates of a sequence of log lines, in line order.
pub open spec fn lines_candidates(logs: Seq<String>, info: EmitInfo) -> Seq<CandidateView>
    decreases logs.len(),
{
    if logs.len() == 0 {
        Seq::empty()
    } else {
        lines_candidates(logs.drop_last(), info) + line_candidate(logs.last(), info)
    }
}

/// The candidates of a sequence of outcomes, in outcome order.
pub open spec fn outcomes_candidates(
    outcomes: Seq<OutcomeRecord>,
    height: u64,
    timestamp: u64,
    shard_id: u64,
) -> Seq<CandidateView>
    decreases outcomes.len(),
{
    if outcomes.len() == 0 {
        Seq::empty()
    } else {
        let o = outcomes.last();
        outcomes_candidates(outcomes.drop_last(), height, timestamp, shard_id) + lines_candidates(
            o.logs@,
            emit_info_of(o, height, timestamp, shard_id),
        )
    }
}

/// The candidates of a sequence of shards, in shard order.
pub open spec fn shards_candidates(shards: Seq<ShardRecord>, height: u64, timestamp: u64) -> Seq<
    CandidateView,
>
    decreases shards.len(),
{
    if shards.len() == 0 {
        Seq::empty()
    } else {
        let s = shards.last();
        shards_candidates(shards.drop_last(), height, timestamp) + outcomes_candidates(
            s.outcomes@,
            height,
            timestamp,
            s.shard_id,
        )
    }
}

/// The candidates of a block: shard order, then outcome order, then line order.
pub open spec fn block_candidates(b: BlockRecord) -> Seq<CandidateView> {
    shards_candidates(b.shards@, b.height, b.timestamp)
}

/// The candidates of one outcome's log lines, in order.
pub fn outcome_candidates(
    outcome: &OutcomeRecord,
    block_height: u64,
    block_timestamp: u64,
    shard_id: u64,
    out: &mut Vec<EventCandidate>,
)
    ensures
        candidate_views(final(out)@) == candidate_views(old(out)@) + lines_candidates(
            outcome.logs@,
            emit_info_of(*outcome, block_height, block_timestamp, shard_id),
        ),
{
    let ghost info = emit_info_of(*outcome, block_height, block_timestamp, shard_id);
    let ghost start = candidate_views(out@);
    let mut i: usize = 0;
    while i < outcome.logs.len()
        invariant
            i <= outcome.logs@.len(),
            info == emit_info_of(*outcome, block_height, block_timestamp, shard_id),
            candidate_views(out@) == start + lines_candidates(
                outcome.logs@.subrange(0, i as int),
                info,
            ),
        decreases outcome.logs@.len() - i,
    {
        let line = &outcome.logs[i];
        let ghost prev = out@;
        assert(outcome.logs@.subrange(0, i + 1).drop_last() =~= outcome.logs@.subrange(0, i as int));
        match event_payload(line.as_str()) {
            Some(payload) => {
                let emit_info = EmitInfo {
                    receipt_id: outcome.receipt_id.duplicate(),
                    block_timestamp,
                    block_height,
                    shard_id,
                    contract_account_id: outcome.receiver_id.duplicate(),
                };
                let c = EventCandidate { payload, emit_info, log: line.duplicate() };
                assert(outcome.logs@.subrange(0, i + 1).last() == *line);
                assert(line_candidate(*line, info) =~= seq![c@]);
                out.push(c);
                assert(candidate_views(out@) =~= candidate_views(prev).push(c@));
                assert(candidate_views(out@) =~= start + lines_candidates(
                    outcome.logs@.subrange(0, i + 1),
                    info,
                ));
            },
            None => {
                assert(candidate_views(out@) =~= start + lines_candidates(
                    outcome.logs@.subrange(0, i + 1),
                    info,
                ));
            },
        }
        i = i + 1;
    }
    assert(outcome.logs@.subrange(0, i as int) =~= outcome.logs@);
}

/// The candidates of a block, in shard order, then outcome order, then
/// line order; each carries the provenance of its outcome.
pub fn block_event_candidates(block: &BlockRecord) -> (r: Vec<EventCandidate>)
    ensures
        candidate_views(r@) == block_candidates(*block),
{
    let mut out: Vec<EventCandidate> = Vec::new();
    let mut s: usize = 0;
    while s < block.shards.len()
        invariant
            s <= block.shards@.len(),
            candidate_views(out@) == shards_candidates(
                block.shards@.subrange(0, s as int),
                block.height,
                block.timestamp,
            ),
        decreases block.shards@.len() - s,
    {
        let shard = &block.shards[s];
        let ghost before = candidate_views(out@);
        let mut o: usize = 0;
        while o < shard.outcomes.len()
            invariant
                o <= shard.outcomes@.len(),
                candidate_views(out@) == before + outcomes_candidates(
                    shard.outcomes@.subrange(0, o as int),
                    block.height,
                    block.timestamp,
                    shard.shard_id,
                ),
            decreases shard.outcomes@.len() - o,
        {
            let outcome = &shard.outcomes[o];
            outcome_candidates(outcome, block.height, block.timestamp, shard.shard_id, &mut out);
            let ghost sub = shard.outcomes@.subrange(0, o + 1);
            assert(sub.drop_last() =~= shard.outcomes@.subrange(0, o as int));
            assert(sub.last() == *outcome);
            o = o + 1;
            assert(candidate_views(out@) =~= before + outcomes_candidates(
                shard.outcomes@.subrange(0, o as int),
                block.height,
                block.timestamp,
                shard.shard_id,
            ));
        }
        let ghost sub = block.shards@.subrange(0, s + 1);
        assert(sub.drop_last() =~= block.shards@.subrange(0, s as int));
        assert(sub.last() == *shard);
        assert(shard.outcomes@.subrange(0, o as int) =~= shard.outcomes@);
        s = s + 1;
        assert(candidate_views(out@) =~= shards_candidates(
            block.shards@.subrange(0, s as int),
            block.height,
            block.timestamp,
        ));
    }
    assert(block.shards@.subrange(0, s as int) =~= block.shards@);
    out
}

/// What the decoder made of the `i`-th candidate: an event, or nothing where
/// the text did not decode or no result was given.
pub open spec fn decoded_at(decoded: Seq<Option<NearEvent>>, i: int) -> Option<EventView> {
    if 0 <= i < decoded.len() {
        match decoded[i] {
            Some(e) => Some(e@),
            None => None,
        }
    } else {
        None
    }
}

/// Each candidate paired with what it decoded to.
pub open spec fn decoding_pairs(cands: Seq<CandidateView>, decoded: Seq<Option<NearEvent>>) -> Seq<
    (CandidateView, Option<EventView>),
> {
    Seq::new(cands.len(), |i: int| (cands[i], decoded_at(decoded, i)))
}

/// The decoded events, in order, each with its candidate's provenance;
/// nothing for a candidate that did not decode.
pub open spec fn stamped(pairs: Seq<(CandidateView, Option<EventView>)>) -> Seq<EventView>
    decreases pairs.len(),
{
    if pairs.len() == 0 {
        Seq::empty()
    } else {
        let (c, d) = pairs.last();
        stamped(pairs.drop_last()) + match d {
            Some(e) => seq![EventView { emit_info: Some(c.emit_info), ..e }],
            None => Seq::empty(),
        }
    }
}

/// The events of a block: for each candidate, in order, its decoded event
/// (the `i`-th entry of `decoded`) with the candidate's provenance attached.
/// A candidate that did not decode (`None`, or no entry) gives no event and
/// leaves the others as they are.
pub fn extract_events(cands: &Vec<EventCandidate>, decoded: &Vec<Option<NearEvent>>) -> (r: Vec<
    NearEvent,
>)
    ensures
        event_views(r@) == stamped(decoding_pairs(candidate_views(cands@), decoded@)),
{
    let ghost pairs = decoding_pairs(candidate_views(cands@), decoded@);
    let mut r: Vec<NearEvent> = Vec::new();
    let mut i: usize = 0;
    while i < cands.len()
        invariant
            i <= cands@.len(),
            pairs == decoding_pairs(candidate_views(cands@), decoded@),
            event_views(r@) == stamped(pairs.subrange(0, i as int)),
        decreases cands@.len() - i,
    {
        let ghost prev = r@;
        let ghost sub = pairs.subrange(0, i + 1);
        assert(sub.drop_last() =~= pairs.subrange(0, i as int));
        assert(sub.last() == pairs[i as int]);
        if i < decoded.len() {
            match &decoded[i] {
                Some(e) => {
                    let stamped_event = e.with_emit_info(cands[i].emit_info.duplicate());
                    r.push(stamped_event);
                    assert(event_views(r@) =~= event_views(prev).push(stamped_event@));
                },
                None => {},
            }
        }
        i = i + 1;
        assert(event_views(r@) =~= stamped(pairs.subrange(0, i as int)));
    }
    assert(pairs.subrange(0, i as int) =~= pairs);
    r
}

/// The contract of an event's provenance; empty where there is none.
pub open spec fn contract_of(e: EventView) -> Seq<char> {
    match e.emit_info {
        Some(info) => info.contract_account_id@,
        None => Seq::empty(),
    }
}

/// Whether the list holds the account.
pub open spec fn listed(list: Seq<String>, account: Seq<char>) -> bool {
    exists|i: int| 0 <= i < list.len() && (#[trigger] list[i])@ == account
}

/// The contract filter: with a whitelist, only its contracts pass; with a
/// blacklist, its contracts are dropped; an empty list filters nothing.
pub open spec fn passes_filter(e: EventView, whitelist: Seq<String>, blacklist: Seq<String>) -> bool {
    &&& (whitelist.len() == 0 || listed(whitelist, contract_of(e)))
    &&& (blacklist.len() == 0 || !listed(blacklist, contract_of(e)))
}

/// The events that pass the filter, in order.
pub open spec fn filtered(evs: Seq<EventView>, whitelist: Seq<String>, blacklist: Seq<String>) -> Seq<
    EventView,
>
    decreases evs.len(),
{
    if evs.len() == 0 {
        Seq::empty()
    } else {
        filtered(evs.drop_last(), whitelist, blacklist) + if passes_filter(
            evs.last(),
            whitelist,
            blacklist,
        ) {
            seq![evs.last()]
        } else {
            Seq::empty()
        }
    }
}

/// Whether the list holds the account.
fn is_listed(list: &Vec<String>, account: &String) -> (r: bool)
    ensures
        r == listed(list@, account@),
{
    let mut i: usize = 0;
    while i < list.len()
        invariant
            i <= list@.len(),
            forall|j: int| 0 <= j < i ==> (#[trigger] list@[j])@ != account@,
        decreases list@.len() - i,
    {
        if list[i] == *account {
            return true;
        }
        i = i + 1;
    }
    false
}

/// Whether an event passes the contract filter.
pub fn passes_contract_filter(
    event: &NearEvent,
    whitelist: &Vec<String>,
    blacklist: &Vec<String>,
) -> (r: bool)
    ensures
        r == passes_filter(event@, whitelist@, blacklist@),
{
    let empty = String::new();
    let contract = match &event.emit_info {
        Some(info) => &info.contract_account_id,
        None => &empty,
    };
    if whitelist.len() > 0 && !is_listed(whitelist, contract) {
        return false;
    }
    if blacklist.len() > 0 && is_listed(blacklist, contract) {
        return false;
    }
    true
}

/// The events that pass the contract filter, in order.
pub fn filter_events(
    events: &Vec<NearEvent>,
    whitelist: &Vec<String>,
    blacklist: &Vec<String>,
) -> (r: Vec<NearEvent>)
    ensures
        event_views(r@) == filtered(event_views(events@), whitelist@, blacklist@),
{
    let mut r: Vec<NearEvent> = Vec::new();
    let mut i: usize = 0;
    while i < events.len()
        invariant
            i <= events@.len(),
            event_views(r@) == filtered(
                event_views(events@.subrange(0, i as int)),
                whitelist@,
                blacklist@,
            ),
        decreases events@.len() - i,
    {
        let ghost prev = r@;
        let ghost sub = event_views(events@.subrange(0, i + 1));
        assert(sub.drop_last() =~= event_views(events@.subrange(0, i as int)));
        assert(sub.last() == events@[i as int]@);
        if passes_contract_filter(&events[i], whitelist, blacklist) {
            let e = events[i].duplicate();
            r.push(e);
            assert(event_views(r@) =~= event_views(prev).push(e@));
        }
        i = i + 1;
        assert(event_views(r@) =~= filtered(
            event_views(events@.subrange(0, i as int)),
            whitelist@,
            blacklist@,
        ));
    }
    assert(events@.subrange(0, i as int) =~= events@);
    r
}

/// The candidates of two runs of lines are those of each, one after the other.
proof fn lemma_lines_candidates_concat(a: Seq<String>, b: Seq<String>, info: EmitInfo)
    ensures
        lines_candidates(a + b, info) == lines_candidates(a, info) + lines_candidates(b, info),
    decreases b.len(),
{
    if b.len() == 0 {
        assert(a + b =~= a);
        assert(lines_candidates(b, info) =~= Seq::<CandidateView>::empty());
        assert(lines_candidates(a, info) + Seq::<CandidateView>::empty() =~= lines_candidates(a, info));
    } else {
        assert((a + b).drop_last() =~= a + b.drop_last());
        assert((a + b).last() == b.last());
        lemma_lines_candidates_concat(a, b.drop_last(), info);
        assert(lines_candidates(a + b, info) =~= lines_candidates(a, info) + lines_candidates(b, info));
    }
}

/// A log line that, once trimmed, does not begin with the marker yields
/// nothing: the candidates of the lines around it are the same as without it.
pub proof fn lemma_unmarked_line_yields_nothing(
    before: Seq<String>,
    line: String,
    after: Seq<String>,
    info: EmitInfo,
)
    requires
        !is_marked(line@),
    ensures
        lines_candidates(before + seq![line] + after, info) == lines_candidates(before + after, info),
{
    lemma_lines_candidates_concat(before + seq![line], after, info);
    lemma_lines_candidates_concat(before, seq![line], info);
    lemma_lines_candidates_concat(before, after, info);
    assert(seq![line].drop_last() =~= Seq::<String>::empty());
    assert(seq![line].last() == line);
    assert(payload_of(line@) is None);
    assert(line_candidate(line, info) =~= Seq::<CandidateView>::empty());
    assert(lines_candidates(Seq::<String>::empty(), info) =~= Seq::<CandidateView>::empty());
    assert(lines_candidates(seq![line], info) =~= Seq::<CandidateView>::empty());
    assert(lines_candidates(before, info) + Seq::<CandidateView>::empty() =~= lines_candidates(before, info));
}

/// The events of two runs of decoded candidates are those of each, one after
/// the other.
proof fn lemma_stamped_concat(
    a: Seq<(CandidateView, Option<EventView>)>,
    b: Seq<(CandidateView, Option<EventView>)>,
)
    ensures
        stamped(a + b) == stamped(a) + stamped(b),
    decreases b.len(),
{
    if b.len() == 0 {
        assert(a + b =~= a);
        assert(stamped(b) =~= Seq::<EventView>::empty());
        assert(stamped(a) + Seq::<EventView>::empty() =~= stamped(a));
    } else {
        assert((a + b).drop_last() =~= a + b.drop_last());
        assert((a + b).last() == b.last());
        lemma_stamped_concat(a, b.drop_last());
        assert(stamped(a + b) =~= stamped(a) + stamped(b));
    }
}

/// A marked line whose text does not decode yields no event, and the events
/// of the other lines are the same as without it.
pub proof fn lemma_malformed_line_yields_nothing(
    before: Seq<(CandidateView, Option<EventView>)>,
    cand: CandidateView,
    after: Seq<(CandidateView, Option<EventView>)>,
)
    ensures
        stamped(before + seq![(cand, None::<EventView>)] + after) == stamped(before + after),
{
    let one = seq![(cand, None::<EventView>)];
    lemma_stamped_concat(before + one, after);
    lemma_stamped_concat(before, one);
    lemma_stamped_concat(before, after);
    assert(one.drop_last() =~= Seq::<(CandidateView, Option<EventView>)>::empty());
    assert(one.last() == (cand, None::<EventView>));
    assert(stamped(Seq::<(CandidateView, Option<EventView>)>::empty()) =~= Seq::<EventView>::empty());
    assert(stamped(one) =~= Seq::<EventView>::empty());
    assert(stamped(before) + Seq::<EventView>::empty() =~= stamped(before));
}

/// With both lists empty, every event passes the filter, in order.
pub proof fn lemma_empty_lists_filter_nothing(evs: Seq<EventView>)
    ensures
        filtered(evs, Seq::<String>::empty(), Seq::<String>::empty()) == evs,
    decreases evs.len(),
{
    if evs.len() > 0 {
        lemma_empty_lists_filter_nothing(evs.drop_last());
        assert(evs.drop_last().push(evs.last()) =~= evs);
    }
}

} // verus!
