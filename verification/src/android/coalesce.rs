//! Messages that are held back so that only the latest of them is handled.

use vstd::prelude::*;

use crate::android::messages::FromJavaMessage;
#[allow(unused_imports)]
use crate::android::messages::law_moves_are_touches;

verus! {

/// The messages that are held back, and how many frames were dropped for them.
pub struct Coalescer {
    pub touch_move: Option<FromJavaMessage>,
    pub stereo_frame: Option<FromJavaMessage>,
    pub dropped: u64,
}

/// What came of a message: what is handled now, in order, which buffers are released,
/// and whether dropped frames are to be reported.
pub struct Coalesced {
    pub handled: Vec<FromJavaMessage>,
    pub released: Vec<u64>,
    pub report: Option<DropReport>,
}

/// A report of frames that were dropped: how many, and how many were kept.
#[derive(Clone, Copy, PartialEq, Eq, Structural, Debug)]
pub struct DropReport {
    pub dropped: u64,
    pub kept: u64,
}

/// A message, if there is one.
pub open spec fn held(message: Option<FromJavaMessage>) -> Seq<FromJavaMessage> {
    match message {
        Some(message) => seq![message],
        None => seq![],
    }
}

/// The buffers of a frame, if there is one.
pub open spec fn held_buffers(message: Option<FromJavaMessage>) -> Seq<u64> {
    match message {
        Some(message) => message.stereo_buffers(),
        None => seq![],
    }
}

/// The report of the frames that were dropped, if any were.
pub open spec fn drop_report(coalescer: Coalescer) -> Option<DropReport> {
    if coalescer.dropped > 0 {
        Some(
            DropReport {
                dropped: coalescer.dropped,
                kept: if coalescer.stereo_frame is Some {
                    1
                } else {
                    0
                },
            },
        )
    } else {
        None
    }
}

impl Coalescer {
    /// What is held back is of its kind.
    pub open spec fn wf(&self) -> bool {
        &&& self.touch_move matches Some(message) ==> message.pure_touch_move()
        &&& self.stereo_frame matches Some(message) ==> message.stereo_frame()
    }

    /// Holds nothing back.
    pub fn new() -> (coalescer: Coalescer)
        ensures
            coalescer.wf(),
            coalescer.touch_move is None,
            coalescer.stereo_frame is None,
            coalescer.dropped == 0,
    {
        Coalescer { touch_move: None, stereo_frame: None, dropped: 0 }
    }

    /// Handles what is held back: the touch, then the frame. Reports frames that were
    /// dropped since the last time.
    pub fn flush_coalesced_android_java_messages(&mut self) -> (coalesced: Coalesced)
        requires
            old(self).wf(),
        ensures
            final(self).wf(),
            final(self).touch_move is None,
            final(self).stereo_frame is None,
            final(self).dropped == 0,
            coalesced.handled@ == held(old(self).touch_move) + held(old(self).stereo_frame),
            coalesced.released@.len() == 0,
            coalesced.report == drop_report(*old(self)),
    {
        let mut handled: Vec<FromJavaMessage> = Vec::new();
        match self.touch_move.take() {
            Some(message) => {
                handled.push(message);
            },
            None => {},
        }
        assert(handled@ =~= held(old(self).touch_move));
        let mut kept: u64 = 0;
        match self.stereo_frame.take() {
            Some(message) => {
                handled.push(message);
                kept = 1;
            },
            None => {},
        }
        assert(handled@ =~= held(old(self).touch_move) + held(old(self).stereo_frame));
        let report: Option<DropReport> = if self.dropped > 0 {
            Some(DropReport { dropped: self.dropped, kept })
        } else {
            None
        };
        self.dropped = 0;
        Coalesced { handled, released: Vec::new(), report }
    }

    /// Takes a message. A moving touch and a frame for both eyes are held back in place
    /// of the one before; anything else first lets go what is held back.
    pub fn handle_coalesced_android_java_message(&mut self, message: FromJavaMessage) -> (coalesced:
        Coalesced)
        requires
            old(self).wf(),
        ensures
            final(self).wf(),
            coalesced_step(*old(self), message, *final(self), coalesced),
    {
        if message.is_pure_touch_move_message() {
            self.touch_move = Some(message);
            return Coalesced { handled: Vec::new(), released: Vec::new(), report: None };
        }
        if message.is_video_hardware_buffer_stereo_frame_message() {
            let mut released: Vec<u64> = Vec::new();
            match self.stereo_frame.take() {
                Some(previous) => {
                    released = previous.release_coalesced_video_hardware_buffer_stereo_message();
                    self.dropped = self.dropped.saturating_add(1);
                },
                None => {},
            }
            self.stereo_frame = Some(message);
            return Coalesced { handled: Vec::new(), released, report: None };
        }
        let mut coalesced: Coalesced = self.flush_coalesced_android_java_messages();
        coalesced.handled.push(message);
        assert(coalesced.handled@ =~= held(old(self).touch_move) + held(old(self).stereo_frame)
            + seq![message]);
        coalesced
    }
}

/// What becomes of a message.
pub open spec fn coalesced_step(
    before: Coalescer,
    message: FromJavaMessage,
    after: Coalescer,
    coalesced: Coalesced,
) -> bool {
    if message.pure_touch_move() {
        &&& after.touch_move == Some(message)
        &&& after.stereo_frame == before.stereo_frame
        &&& after.dropped == before.dropped
        &&& coalesced.handled@.len() == 0
        &&& coalesced.released@.len() == 0
        &&& coalesced.report is None
    } else if message.stereo_frame() {
        &&& after.touch_move == before.touch_move
        &&& after.stereo_frame == Some(message)
        &&& after.dropped == (if before.stereo_frame is Some && before.dropped < u64::MAX {
            before.dropped + 1
        } else {
            before.dropped as int
        })
        &&& coalesced.handled@.len() == 0
        &&& coalesced.released@ =~= held_buffers(before.stereo_frame)
        &&& coalesced.report is None
    } else {
        &&& after.touch_move is None
        &&& after.stereo_frame is None
        &&& after.dropped == 0
        &&& coalesced.handled@ =~= held(before.touch_move) + held(before.stereo_frame) + seq![
            message,
        ]
        &&& coalesced.released@.len() == 0
        &&& coalesced.report == drop_report(before)
    }
}

/// The buffers of frames for both eyes among the messages.
pub open spec fn all_buffers(messages: Seq<FromJavaMessage>) -> Seq<u64>
    decreases messages.len(),
{
    if messages.len() == 0 {
        seq![]
    } else {
        all_buffers(messages.drop_last()) + messages.last().stereo_buffers()
    }
}

/// A run of the coalescer over messages that came one after the other: its states, and
/// what came of each message.
pub open spec fn is_run(
    messages: Seq<FromJavaMessage>,
    states: Seq<Coalescer>,
    results: Seq<Coalesced>,
) -> bool {
    &&& states.len() == messages.len() + 1
    &&& results.len() == messages.len()
    &&& forall|i: int|
        0 <= i < messages.len() ==> #[trigger] coalesced_step(
            states[i],
            messages[i],
            states[i + 1],
            results[i],
        )
    &&& forall|i: int| 0 <= i < states.len() ==> (#[trigger] states[i]).wf()
}

/// The messages that are handled in a run, in order.
pub open spec fn run_handled(results: Seq<Coalesced>) -> Seq<FromJavaMessage>
    decreases results.len(),
{
    if results.len() == 0 {
        seq![]
    } else {
        run_handled(results.drop_last()) + results.last().handled@
    }
}

/// The buffers that are released in a run.
pub open spec fn run_released(results: Seq<Coalesced>) -> Seq<u64>
    decreases results.len(),
{
    if results.len() == 0 {
        seq![]
    } else {
        run_released(results.drop_last()) + results.last().released@
    }
}

proof fn lemma_buffers_append(a: Seq<FromJavaMessage>, b: Seq<FromJavaMessage>)
    ensures
        all_buffers(a + b) == all_buffers(a) + all_buffers(b),
    decreases b.len(),
{
    if b.len() == 0 {
        assert(a + b =~= a);
        assert(all_buffers(a) + all_buffers(b) =~= all_buffers(a));
    } else {
        assert((a + b).drop_last() =~= a + b.drop_last());
        lemma_buffers_append(a, b.drop_last());
        assert(all_buffers(a) + all_buffers(b.drop_last()) + b.last().stereo_buffers()
            =~= all_buffers(a) + (all_buffers(b.drop_last()) + b.last().stereo_buffers()));
    }
}

proof fn lemma_one_message(message: FromJavaMessage)
    ensures
        all_buffers(seq![message]) == message.stereo_buffers(),
{
    assert(seq![message].drop_last() =~= Seq::<FromJavaMessage>::empty());
    assert(all_buffers(seq![message].drop_last()) + message.stereo_buffers()
        =~= message.stereo_buffers());
}

proof fn lemma_held_buffers(message: Option<FromJavaMessage>)
    ensures
        all_buffers(held(message)) == held_buffers(message),
{
    match message {
        Some(message) => {
            lemma_one_message(message);
        },
        None => {},
    }
}

/// No buffer is lost and none is released twice: whatever messages come, the buffers
/// that came with frames for both eyes are those that were released, those of frames
/// that were handled, and those of the frame that is held back.
pub proof fn law_no_buffer_is_lost(
    messages: Seq<FromJavaMessage>,
    states: Seq<Coalescer>,
    results: Seq<Coalesced>,
)
    requires
        is_run(messages, states, results),
        states[0].touch_move is None,
        states[0].stereo_frame is None,
    ensures
        all_buffers(messages).to_multiset() == run_released(results).to_multiset().add(
            all_buffers(run_handled(results)).to_multiset(),
        ).add(held_buffers(states.last().stereo_frame).to_multiset()),
    decreases messages.len(),
{
    broadcast use vstd::seq_lib::group_to_multiset_ensures;

    if messages.len() == 0 {
        assert(states.last() == states[0]);
        assert(all_buffers(messages).to_multiset() =~= run_released(results).to_multiset().add(
            all_buffers(run_handled(results)).to_multiset(),
        ).add(held_buffers(states.last().stereo_frame).to_multiset()));
    } else {
        let n = messages.len() - 1;
        let before = states[n];
        let message = messages[n];
        let after = states[n + 1];
        let result = results[n];
        assert(coalesced_step(before, message, after, result));
        assert(is_run(messages.drop_last(), states.drop_last(), results.drop_last())) by {
            assert forall|i: int| 0 <= i < n implies #[trigger] coalesced_step(
                states.drop_last()[i],
                messages.drop_last()[i],
                states.drop_last()[i + 1],
                results.drop_last()[i],
            ) by {
                assert(coalesced_step(states[i], messages[i], states[i + 1], results[i]));
            }
            assert forall|i: int| 0 <= i < states.drop_last().len() implies (
            #[trigger] states.drop_last()[i]).wf() by {
                assert(states[i].wf());
            }
        }
        law_no_buffer_is_lost(messages.drop_last(), states.drop_last(), results.drop_last());
        let released_before = run_released(results.drop_last());
        let handled_before = run_handled(results.drop_last());
        lemma_buffers_append(handled_before, result.handled@);
        lemma_held_buffers(before.touch_move);
        lemma_held_buffers(before.stereo_frame);
        assert(states[n].wf());
        assert(held_buffers(before.touch_move) =~= Seq::<u64>::empty());
        vstd::seq_lib::lemma_multiset_commutative(
            all_buffers(messages.drop_last()),
            message.stereo_buffers(),
        );
        vstd::seq_lib::lemma_multiset_commutative(released_before, result.released@);
        vstd::seq_lib::lemma_multiset_commutative(
            all_buffers(handled_before),
            all_buffers(result.handled@),
        );
        if message.pure_touch_move() {
            assert(result.handled@ =~= Seq::<FromJavaMessage>::empty());
            assert(result.released@ =~= Seq::<u64>::empty());
        } else if message.stereo_frame() {
            assert(result.handled@ =~= Seq::<FromJavaMessage>::empty());
        } else {
            assert(result.released@ =~= Seq::<u64>::empty());
            let touch = held(before.touch_move);
            let frame = held(before.stereo_frame);
            lemma_buffers_append(touch + frame, seq![message]);
            lemma_buffers_append(touch, frame);
            lemma_one_message(message);
            assert(all_buffers(result.handled@) =~= held_buffers(before.stereo_frame));
        }
        assert(all_buffers(messages).to_multiset() =~= run_released(results).to_multiset().add(
            all_buffers(run_handled(results)).to_multiset(),
        ).add(held_buffers(states.last().stereo_frame).to_multiset()));
    }
}

/// A message that is not held back is handled at once, after everything that came
/// before it: nothing is left behind.
pub proof fn law_order_is_kept(
    before: Coalescer,
    message: FromJavaMessage,
    after: Coalescer,
    coalesced: Coalesced,
)
    requires
        coalesced_step(before, message, after, coalesced),
        !message.pure_touch_move(),
        !message.stereo_frame(),
    ensures
        coalesced.handled@.last() == message,
        after.touch_move is None,
        after.stereo_frame is None,
{
}

/// A move takes the place of the move that is held back, and a frame for both eyes that of
/// the frame, whose buffers are given back and which counts as dropped; anything else lets
/// both go first, the move before the frame, and reports what was dropped.
pub proof fn law_latest_is_held_back(
    before: Coalescer,
    message: FromJavaMessage,
    after: Coalescer,
    coalesced: Coalesced,
)
    requires
        before.wf(),
        coalesced_step(before, message, after, coalesced),
    ensures
        message.pure_touch_move() ==> after.touch_move == Some(message) && coalesced.handled@.len()
            == 0 && after.stereo_frame == before.stereo_frame,
        message.stereo_frame() ==> after.stereo_frame == Some(message) && coalesced.handled@.len()
            == 0 && after.touch_move == before.touch_move,
        message.stereo_frame() && before.stereo_frame is Some ==> coalesced.released@
            == before.stereo_frame->0.stereo_buffers() && (before.dropped < u64::MAX
            ==> after.dropped == before.dropped + 1),
        message.stereo_frame() && before.stereo_frame is None ==> coalesced.released@.len() == 0
            && after.dropped == before.dropped,
        !message.pure_touch_move() && !message.stereo_frame() ==> {
            let handled = coalesced.handled@;
            &&& handled.last() == message
            &&& before.touch_move is Some ==> handled[0] == before.touch_move->0
            &&& before.stereo_frame is Some ==> handled[handled.len() - 2]
                == before.stereo_frame->0
            &&& handled.len() == 1 + (if before.touch_move is Some {
                1int
            } else {
                0
            }) + (if before.stereo_frame is Some {
                1int
            } else {
                0
            })
            &&& coalesced.released@.len() == 0
            &&& coalesced.report is Some <==> before.dropped > 0
            &&& coalesced.report is Some ==> coalesced.report->0.dropped == before.dropped
        },
{
    law_moves_are_touches(message);
}

} // verus!
