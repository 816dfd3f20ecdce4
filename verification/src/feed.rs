//! The event-feed pump's decisions and the task correlator.
//!
//! The pump owns one subscription and hands every raw broker frame to
//! [`feed_step`]: a well-formed frame is delivered, a malformed one is
//! skipped and the stream goes on — one bad payload never ends a
//! subscription. The correlator filters delivered messages down to one
//! task and decides when that task has reached a terminal state.

use vstd::prelude::*;

use crate::entities::{TaskId, task_id_eq};
use crate::json::{json_of, parse_json};
use crate::messages::{
    Message, SpecMessage, spec_decode_message, decode_message, spec_message_task_id,
    spec_worker_complete,
};

verus! {

/// How many decoded messages the pump's queue holds at most: the pump
/// blocks on a full queue, throttling ingestion to the consumer's pace
/// with bounded memory.
pub const FEED_QUEUE_CAPACITY: usize = 10;

/// What the pump does with one raw broker frame.
#[derive(Debug, PartialEq, Eq)]
pub enum FeedAction {
    /// The frame decoded; its message goes to the consumer.
    Deliver(Message),
    /// The frame was malformed; it is dropped and the stream continues.
    Skip,
}

/// Mathematical model of a [`FeedAction`].
pub enum SpecFeedAction {
    Deliver(SpecMessage),
    Skip,
}

impl View for FeedAction {
    type V = SpecFeedAction;

    open spec fn view(&self) -> SpecFeedAction {
        match self {
            FeedAction::Deliver(m) => SpecFeedAction::Deliver(m@),
            FeedAction::Skip => SpecFeedAction::Skip,
        }
    }
}

/// The pump's decision on one frame: deliver the decoded message, skip
/// anything that does not parse or decode.
pub open spec fn spec_feed_step(payload: Seq<u8>) -> SpecFeedAction {
    match json_of(payload) {
        Some(v) => match spec_decode_message(v) {
            Some(m) => SpecFeedAction::Deliver(m),
            None => SpecFeedAction::Skip,
        },
        None => SpecFeedAction::Skip,
    }
}

/// Decides one frame, as [`spec_feed_step`] describes.
pub fn feed_step(payload: &[u8]) -> (r: FeedAction)
    ensures
        r@ == spec_feed_step(payload@),
{
    match parse_json(payload) {
        Some(v) => match decode_message(&v) {
            Some(m) => FeedAction::Deliver(m),
            None => FeedAction::Skip,
        },
        None => FeedAction::Skip,
    }
}

/// The messages a sequence of frames delivers, in arrival order: each
/// well-formed frame contributes its message, each malformed frame nothing.
pub open spec fn spec_pump(payloads: Seq<Seq<u8>>) -> Seq<SpecMessage>
    decreases payloads.len(),
{
    if payloads.len() == 0 {
        Seq::empty()
    } else {
        match spec_feed_step(payloads[0]) {
            SpecFeedAction::Deliver(m) => seq![m] + spec_pump(payloads.skip(1)),
            SpecFeedAction::Skip => spec_pump(payloads.skip(1)),
        }
    }
}

/// Pumping one more frame appends its message, or nothing.
pub proof fn lemma_pump_snoc(payloads: Seq<Seq<u8>>, last: Seq<u8>)
    ensures
        spec_pump(payloads.push(last)) == match spec_feed_step(last) {
            SpecFeedAction::Deliver(m) => spec_pump(payloads) + seq![m],
            SpecFeedAction::Skip => spec_pump(payloads),
        },
    decreases payloads.len(),
{
    reveal_with_fuel(spec_pump, 3);
    let whole = payloads.push(last);
    if payloads.len() == 0 {
        assert(whole[0] == last);
        assert(whole.skip(1) =~= Seq::<Seq<u8>>::empty());
        assert(spec_pump(whole.skip(1)) =~= Seq::<SpecMessage>::empty());
        match spec_feed_step(last) {
            SpecFeedAction::Deliver(m) => {
                assert(spec_pump(whole) =~= spec_pump(payloads) + seq![m]);
            },
            SpecFeedAction::Skip => {
                assert(spec_pump(whole) =~= spec_pump(payloads));
            },
        }
    } else {
        lemma_pump_snoc(payloads.skip(1), last);
        assert(whole[0] == payloads[0]);
        assert(whole.skip(1) =~= payloads.skip(1).push(last));
        match spec_feed_step(last) {
            SpecFeedAction::Deliver(m) => {
                match spec_feed_step(payloads[0]) {
                    SpecFeedAction::Deliver(m0) => {
                        assert(seq![m0] + (spec_pump(payloads.skip(1)) + seq![m]) =~= (seq![m0]
                            + spec_pump(payloads.skip(1))) + seq![m]);
                    },
                    SpecFeedAction::Skip => {},
                }
            },
            SpecFeedAction::Skip => {},
        }
    }
}

/// Pumps a whole sequence of frames, as [`spec_pump`] describes.
pub fn pump_feed(payloads: &Vec<Vec<u8>>) -> (r: Vec<Message>)
    ensures
        r.deep_view() == spec_pump(payloads.deep_view()),
{
    let mut out: Vec<Message> = Vec::new();
    let mut i: usize = 0;
    while i < payloads.len()
        invariant
            i <= payloads@.len(),
            payloads.deep_view().len() == payloads@.len(),
            out.deep_view() == spec_pump(payloads.deep_view().take(i as int)),
        decreases payloads@.len() - i,
    {
        let ghost dv = payloads.deep_view();
        proof {
            assert(dv[i as int] == payloads@[i as int]@);
        }
        match feed_step(payloads[i].as_slice()) {
            FeedAction::Deliver(m) => {
                out.push(m);
            },
            FeedAction::Skip => (),
        }
        proof {
            lemma_pump_snoc(dv.take(i as int), dv[i as int]);
            assert(dv.take(i + 1) =~= dv.take(i as int).push(dv[i as int]));
            match spec_feed_step(dv[i as int]) {
                SpecFeedAction::Deliver(m) => {
                    assert(out.deep_view() =~= spec_pump(dv.take(i as int)) + seq![m]);
                },
                SpecFeedAction::Skip => {},
            }
        }
        i = i + 1;
    }
    proof {
        assert(payloads.deep_view().take(payloads@.len() as int) =~= payloads.deep_view());
    }
    out
}

/// One malformed frame between two well-formed ones costs only itself: the
/// consumer still receives both decoded messages, in order, and the stream
/// does not end.
pub proof fn lemma_malformed_frame_skipped(
    p1: Seq<u8>,
    p2: Seq<u8>,
    p3: Seq<u8>,
    m1: SpecMessage,
    m3: SpecMessage,
)
    requires
        spec_feed_step(p1) == SpecFeedAction::Deliver(m1),
        spec_feed_step(p2) == SpecFeedAction::Skip,
        spec_feed_step(p3) == SpecFeedAction::Deliver(m3),
    ensures
        spec_pump(seq![p1, p2, p3]) == seq![m1, m3],
{
    reveal_with_fuel(spec_pump, 5);
    let frames = seq![p1, p2, p3];
    assert(frames[0] == p1);
    assert(frames.skip(1) =~= seq![p2, p3]);
    assert(seq![p2, p3][0] == p2);
    assert(seq![p2, p3].skip(1) =~= seq![p3]);
    assert(seq![p3][0] == p3);
    assert(seq![p3].skip(1) =~= Seq::<Seq<u8>>::empty());
    assert(spec_pump(Seq::<Seq<u8>>::empty()) =~= Seq::<SpecMessage>::empty());
    assert(spec_pump(seq![p3]) =~= seq![m3]);
    assert(spec_pump(seq![p2, p3]) =~= seq![m3]);
    assert(spec_pump(frames) =~= seq![m1] + seq![m3]);
    assert(seq![m1] + seq![m3] =~= seq![m1, m3]);
}

/// Whether a message belongs to the tracked task: its correlation key is
/// exactly the target identifier. A message without a key never matches.
pub open spec fn spec_correlated(m: SpecMessage, target: Seq<char>) -> bool {
    spec_message_task_id(m) == Some(target)
}

/// Decides [`spec_correlated`] for one message.
pub fn message_matches(msg: &Message, target: &TaskId) -> (r: bool)
    ensures
        r == spec_correlated(msg@, target@),
{
    match msg.task_id() {
        Some(id) => task_id_eq(&id, target),
        None => false,
    }
}

/// Whether a message ends the tracked task: a worker-state update whose
/// task status reports completion.
pub open spec fn spec_terminal(m: SpecMessage) -> bool {
    match m {
        SpecMessage::Worker(we) => spec_worker_complete(we),
        _ => false,
    }
}

/// Decides [`spec_terminal`] for one message.
pub fn is_terminal(msg: &Message) -> (r: bool)
    ensures
        r == spec_terminal(msg@),
{
    match msg {
        Message::Worker(we) => we.complete(),
        _ => false,
    }
}

/// The subsequence of `msgs` that belongs to the tracked task, in order.
pub open spec fn spec_correlate(msgs: Seq<SpecMessage>, target: Seq<char>) -> Seq<SpecMessage>
    decreases msgs.len(),
{
    if msgs.len() == 0 {
        Seq::empty()
    } else if spec_correlated(msgs[0], target) {
        seq![msgs[0]] + spec_correlate(msgs.skip(1), target)
    } else {
        spec_correlate(msgs.skip(1), target)
    }
}

/// Membership in the correlated sequence forces identifier equality: every
/// message the correlator passes carries the tracked task's identifier.
pub proof fn lemma_correlated_membership(msgs: Seq<SpecMessage>, target: Seq<char>, i: int)
    requires
        0 <= i < spec_correlate(msgs, target).len(),
    ensures
        spec_message_task_id(spec_correlate(msgs, target)[i]) == Some(target),
    decreases msgs.len(),
{
    if msgs.len() > 0 {
        if spec_correlated(msgs[0], target) {
            if i > 0 {
                lemma_correlated_membership(msgs.skip(1), target, i - 1);
            }
        } else {
            lemma_correlated_membership(msgs.skip(1), target, i);
        }
    }
}

} // verus!
