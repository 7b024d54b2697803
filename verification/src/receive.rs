//! Receiving an answer: which of the frames that a server sends make up the
//! result of a call.
//!
//! A server may send keep-alives, frames with a negative payload, before and
//! between the frames of its answer. They are skipped. A plain call takes the
//! first other frame as its result. A directory call gathers frames until
//! one with a payload of zero ends the listing: the contents are joined,
//! each with a comma in place of its closing byte, and the payloads summed.

use vstd::prelude::*;
use crate::error::OwError;
use crate::response::response_wf;
use crate::response::OwResponse;
use crate::response::ResponseView;

verus! {

/// The separator between the entries of a directory listing.
pub const COMMA: u8 = 44;

/// How far a receiver has come.
pub enum Progress {
    /// No frame of the answer has come yet.
    Waiting,
    /// The frames of a listing so far, joined; more may follow.
    Gathering(ResponseView),
    /// The answer is complete.
    Done(ResponseView),
    /// The listing is longer than a payload can count.
    TooLong,
}

/// A content with a comma in place of its last byte, the zero byte that
/// closes one frame's entries.
pub open spec fn comma_closed(content: Seq<u8>) -> Seq<u8> {
    if content.len() > 0 {
        content.update(content.len() - 1, COMMA)
    } else {
        content
    }
}

/// The frames of a listing so far and the next one, joined.
pub open spec fn joined(so_far: ResponseView, next: ResponseView) -> ResponseView {
    ResponseView {
        version: so_far.version,
        payload: (so_far.payload + next.payload) as i32,
        ret: so_far.ret,
        flags: so_far.flags,
        size: so_far.size,
        offset: so_far.offset,
        content: comma_closed(so_far.content) + next.content,
    }
}

/// What one more frame does to a receiver; `many` says that a listing is
/// gathered.
pub open spec fn step(many: bool, p: Progress, frame: ResponseView) -> Progress {
    match p {
        Progress::Done(_) => p,
        Progress::TooLong => p,
        Progress::Waiting => if frame.payload < 0 {
            p
        } else if !many || frame.payload == 0 {
            Progress::Done(frame)
        } else {
            Progress::Gathering(frame)
        },
        Progress::Gathering(so_far) => if frame.payload < 0 {
            p
        } else if frame.payload == 0 {
            Progress::Done(so_far)
        } else if so_far.payload + frame.payload > i32::MAX {
            Progress::TooLong
        } else {
            Progress::Gathering(joined(so_far, frame))
        },
    }
}

/// Where a receiver stands after the frames of `frames`, in their order.
pub open spec fn run(many: bool, p: Progress, frames: Seq<ResponseView>) -> Progress
    decreases frames.len(),
{
    if frames.len() == 0 {
        p
    } else {
        step(many, run(many, p, frames.drop_last()), frames.last())
    }
}

/// Where a fresh receiver stands after `frames`.
pub open spec fn received(many: bool, frames: Seq<ResponseView>) -> Progress {
    run(many, Progress::Waiting, frames)
}

/// The frames of `frames` that are no keep-alives.
pub open spec fn without_pings(frames: Seq<ResponseView>) -> Seq<ResponseView> {
    frames.filter(|f: ResponseView| f.payload >= 0)
}

/// The responses held by a receiver are well-formed.
pub open spec fn progress_wf(p: Progress) -> bool {
    match p {
        Progress::Gathering(r) => response_wf(r) && r.payload > 0,
        Progress::Done(r) => response_wf(r),
        _ => true,
    }
}

/// The values of a list of responses.
pub open spec fn response_views(frames: Seq<OwResponse>) -> Seq<ResponseView> {
    Seq::new(frames.len(), |i: int| frames[i]@)
}

/// Ping transparency: keep-alives change nothing. A receiver stands after a
/// run of frames where it stands after the same frames without the
/// keep-alives among them.
pub proof fn lemma_ping_transparency(many: bool, p: Progress, frames: Seq<ResponseView>)
    ensures
        run(many, p, frames) == run(many, p, without_pings(frames)),
    decreases frames.len(),
{
    reveal(Seq::filter);
    if frames.len() > 0 {
        let init = frames.drop_last();
        let last = frames.last();
        lemma_ping_transparency(many, p, init);
        if last.payload >= 0 {
            let kept = without_pings(init).push(last);
            assert(without_pings(frames) == kept);
            assert(kept.drop_last() =~= without_pings(init));
            assert(kept.last() == last);
        } else {
            assert(without_pings(frames) == without_pings(init));
            let before = run(many, p, init);
            assert(step(many, before, last) == before);
        }
    }
}

/// The sum of the payloads of a run of frames.
pub open spec fn total_payload(frames: Seq<ResponseView>) -> int
    decreases frames.len(),
{
    if frames.len() == 0 {
        0
    } else {
        total_payload(frames.drop_last()) + frames.last().payload
    }
}

/// The contents of a run of frames as one listing: each content but the
/// last with a comma in place of its closing byte, end to end.
pub open spec fn gathered_content(frames: Seq<ResponseView>) -> Seq<u8>
    decreases frames.len(),
{
    if frames.len() == 0 {
        Seq::empty()
    } else if frames.len() == 1 {
        frames[0].content
    } else {
        comma_closed(gathered_content(frames.drop_last())) + frames.last().content
    }
}

/// The listing that a run of frames makes: the header of the first frame,
/// with the sum of the payloads and the contents joined.
pub open spec fn gathered(frames: Seq<ResponseView>) -> ResponseView {
    ResponseView {
        version: frames[0].version,
        payload: total_payload(frames) as i32,
        ret: frames[0].ret,
        flags: frames[0].flags,
        size: frames[0].size,
        offset: frames[0].offset,
        content: gathered_content(frames),
    }
}

/// True if every frame carries entries: its payload is positive.
pub open spec fn all_carry(frames: Seq<ResponseView>) -> bool {
    forall|i: int| 0 <= i < frames.len() ==> (#[trigger] frames[i]).payload > 0
}

/// Directory aggregation: frames that carry entries, whose payloads can be
/// summed, are gathered into one listing.
pub proof fn lemma_gathering(frames: Seq<ResponseView>)
    requires
        frames.len() >= 1,
        all_carry(frames),
        total_payload(frames) <= i32::MAX,
    ensures
        received(true, frames) == Progress::Gathering(gathered(frames)),
        total_payload(frames) >= frames.len(),
    decreases frames.len(),
{
    let init = frames.drop_last();
    let last = frames.last();
    if frames.len() == 1 {
        assert(init.len() == 0);
        assert(total_payload(init) == 0);
        assert(gathered(frames) == frames[0]);
    } else {
        assert(all_carry(init)) by {
            assert forall|i: int| 0 <= i < init.len() implies (#[trigger] init[i]).payload > 0 by {
                assert(init[i] == frames[i]);
            }
        }
        assert(total_payload(init) >= 0) by {
            lemma_payloads_positive(init);
        }
        lemma_gathering(init);
        assert(init[0] == frames[0]);
        assert(joined(gathered(init), last) == gathered(frames));
    }
}

/// The payloads of frames that carry entries sum to at least their number.
pub proof fn lemma_payloads_positive(frames: Seq<ResponseView>)
    requires
        all_carry(frames),
    ensures
        total_payload(frames) >= frames.len(),
    decreases frames.len(),
{
    if frames.len() > 0 {
        let init = frames.drop_last();
        assert forall|i: int| 0 <= i < init.len() implies (#[trigger] init[i]).payload > 0 by {
            assert(init[i] == frames[i]);
        }
        lemma_payloads_positive(init);
    }
}

/// Directory aggregation, closed: frames that carry entries and then a frame
/// with a payload of zero make the listing of the frames before the closing
/// one, which is dropped.
pub proof fn lemma_listing_closed(frames: Seq<ResponseView>, end: ResponseView)
    requires
        frames.len() >= 1,
        all_carry(frames),
        total_payload(frames) <= i32::MAX,
        end.payload == 0,
    ensures
        received(true, frames.push(end)) == Progress::Done(gathered(frames)),
{
    lemma_gathering(frames);
    assert(frames.push(end).drop_last() =~= frames);
}

/// Well-formed frames leave a receiver with well-formed responses.
pub proof fn lemma_step_wf(many: bool, p: Progress, frame: ResponseView)
    requires
        progress_wf(p),
        response_wf(frame),
    ensures
        progress_wf(step(many, p, frame)),
{
    match p {
        Progress::Gathering(so_far) => {
            if frame.payload > 0 && so_far.payload + frame.payload <= i32::MAX {
                assert(joined(so_far, frame).content.len() == so_far.payload + frame.payload);
            }
        },
        _ => {},
    }
}

/// A receiver as it stands between two frames.
#[derive(Debug, PartialEq, Eq)]
pub enum ReceiverState {
    /// No frame of the answer has come yet.
    Waiting,
    /// The frames of a listing so far, joined; more may follow.
    Gathering(OwResponse),
    /// The answer is complete.
    Done(OwResponse),
    /// The listing is longer than a payload can count.
    TooLong,
}

impl View for ReceiverState {
    type V = Progress;

    open spec fn view(&self) -> Progress {
        match self {
            ReceiverState::Waiting => Progress::Waiting,
            ReceiverState::Gathering(r) => Progress::Gathering(r@),
            ReceiverState::Done(r) => Progress::Done(r@),
            ReceiverState::TooLong => Progress::TooLong,
        }
    }
}

/// Takes the frames of one answer, one after the other, and says when the
/// answer is complete.
#[derive(Debug, PartialEq, Eq)]
pub struct Receiver {
    /// True where a directory listing is gathered from several frames.
    pub many: bool,
    /// How far the answer has come.
    pub state: ReceiverState,
}

impl Receiver {
    /// A receiver for the single frame that answers a plain call.
    pub fn single() -> (r: Receiver)
        ensures
            !r.many,
            r.state@ == Progress::Waiting,
    {
        Receiver { many: false, state: ReceiverState::Waiting }
    }

    /// A receiver for the frames of a directory listing.
    pub fn listing() -> (r: Receiver)
        ensures
            r.many,
            r.state@ == Progress::Waiting,
    {
        Receiver { many: true, state: ReceiverState::Waiting }
    }

    /// True once the answer is complete or has failed: no further frame is
    /// to be read.
    pub fn is_done(&self) -> (done: bool)
        ensures
            done == (self.state@ is Done || self.state@ is TooLong),
    {
        match &self.state {
            ReceiverState::Done(_) => true,
            ReceiverState::TooLong => true,
            _ => false,
        }
    }

    /// Takes the next frame.
    pub fn accept(self, frame: OwResponse) -> (r: Receiver)
        ensures
            r.many == self.many,
            r.state@ == step(self.many, self.state@, frame@),
            progress_wf(self.state@) && response_wf(frame@) ==> progress_wf(r.state@),
    {
        proof {
            if progress_wf(self.state@) && response_wf(frame@) {
                lemma_step_wf(self.many, self.state@, frame@);
            }
        }
        let many = self.many;
        match self.state {
            ReceiverState::Done(r) => Receiver { many, state: ReceiverState::Done(r) },
            ReceiverState::TooLong => Receiver { many, state: ReceiverState::TooLong },
            ReceiverState::Waiting => {
                if frame.payload < 0 {
                    Receiver { many, state: ReceiverState::Waiting }
                } else if !many || frame.payload == 0 {
                    Receiver { many, state: ReceiverState::Done(frame) }
                } else {
                    Receiver { many, state: ReceiverState::Gathering(frame) }
                }
            },
            ReceiverState::Gathering(so_far) => {
                if frame.payload < 0 {
                    Receiver { many, state: ReceiverState::Gathering(so_far) }
                } else if frame.payload == 0 {
                    Receiver { many, state: ReceiverState::Done(so_far) }
                } else if so_far.payload as i64 + frame.payload as i64 > i32::MAX as i64 {
                    Receiver { many, state: ReceiverState::TooLong }
                } else {
                    let mut so_far = so_far;
                    let mut frame = frame;
                    let ghost before = so_far@;
                    let ghost next = frame@;
                    let len = so_far.content.len();
                    if len > 0 {
                        so_far.content.set(len - 1, COMMA);
                    }
                    so_far.content.append(&mut frame.content);
                    so_far.payload = so_far.payload + frame.payload;
                    assert(so_far@ == joined(before, next));
                    Receiver { many, state: ReceiverState::Gathering(so_far) }
                }
            },
        }
    }

    /// The answer, once it is complete.
    ///
    /// Fails with `Input` for a listing too long to count, and with
    /// `General` where the frames so far do not make a whole answer.
    pub fn finish(self) -> (r: Result<OwResponse, OwError>)
        ensures
            finished(self.state@, r),
    {
        match self.state {
            ReceiverState::Done(answer) => Ok(answer),
            ReceiverState::TooLong => Err(OwError::Input("Directory listing too long".to_owned())),
            _ => Err(OwError::General("No complete answer".to_owned())),
        }
    }
}

/// What `finish` makes of a receiver's progress.
pub open spec fn finished(p: Progress, r: Result<OwResponse, OwError>) -> bool {
    match p {
        Progress::Done(answer) => r is Ok && r.unwrap()@ == answer,
        Progress::TooLong => r matches Err(OwError::Input(_)),
        _ => r matches Err(OwError::General(_)),
    }
}

/// The answer that a run of frames holds: keep-alives are skipped, a plain
/// call takes the first other frame, and a directory call (`many`) joins the
/// frames up to the one with a payload of zero.
///
/// Fails with `General` where the frames do not hold a whole answer, and
/// with `Input` where a listing is too long to count.
pub fn receive(many: bool, frames: Vec<OwResponse>) -> (r: Result<OwResponse, OwError>)
    ensures
        finished(received(many, response_views(frames@)), r),
        (forall|i: int| 0 <= i < frames@.len() ==> response_wf(#[trigger] frames@[i]@)) && r is Ok
            ==> response_wf(r.unwrap()@),
{
    let mut receiver = if many {
        Receiver::listing()
    } else {
        Receiver::single()
    };
    let ghost all = response_views(frames@);
    for frame in it: frames
        invariant
            it.seq() == frames@,
            all == response_views(frames@),
            receiver.many == many,
            receiver.state@ == received(many, all.take(it.index() as int)),
            (forall|i: int| 0 <= i < frames@.len() ==> response_wf(#[trigger] frames@[i]@))
                ==> progress_wf(receiver.state@),
    {
        proof {
            let upto = all.take(it.index() + 1);
            assert(upto.drop_last() =~= all.take(it.index() as int));
            assert(upto.last() == frame@);
        }
        receiver = receiver.accept(frame);
    }
    assert(all.take(all.len() as int) =~= all);
    receiver.finish()
}

} // verus!
