//! Walking a report's chain, frame by frame or answer by answer.

use core::marker::PhantomData;
use vstd::prelude::*;
use crate::frame::{ErrorType, Frame};
use crate::tag::TagId;
use crate::provider::Provider;
use crate::datum::{DatumView, Scalar};
use crate::tags::{ErrorMessage, ErrorSource, TypeTag};

verus! {

/// The frames of a report that are still to come, newest first.
#[must_use]
pub struct Chain<'r> {
    current: Option<&'r Frame>,
}

impl<'r> View for Chain<'r> {
    type V = Seq<Frame>;

    closed spec fn view(&self) -> Seq<Frame> {
        match self.current {
            Some(frame) => frame.lineage(),
            None => Seq::empty(),
        }
    }
}

impl<'r> Chain<'r> {
    /// The chain that starts at `frame` and follows its sources.
    pub(crate) fn new(frame: &'r Frame) -> (chain: Chain<'r>)
        ensures
            chain@ == frame.lineage(),
    {
        Chain { current: Some(frame) }
    }

    /// Hands out the next frame and moves on to its source. Once the chain
    /// has ended it stays ended.
    pub fn next(&mut self) -> (frame: Option<&'r Frame>)
        ensures
            match frame {
                Some(frame) => {
                    &&& old(self)@.len() > 0
                    &&& *frame == old(self)@[0]
                    &&& final(self)@ == old(self)@.drop_first()
                },
                None => old(self)@.len() == 0 && final(self)@.len() == 0,
            },
    {
        match self.current {
            Some(frame) => {
                proof {
                    frame.lemma_lineage();
                }
                self.current = frame.source();
                Some(frame)
            },
            None => None,
        }
    }

    /// All the frames that are still to come, in order.
    pub fn collect(self) -> (frames: Vec<&'r Frame>)
        ensures
            frames@.len() == self@.len(),
            forall|i: int| 0 <= i < frames@.len() ==> *frames@[i] == self@[i],
    {
        let ghost all = self@;
        let mut chain = self;
        let mut frames: Vec<&'r Frame> = Vec::new();
        loop
            invariant
                frames@.len() + chain@.len() == all.len(),
                forall|i: int| 0 <= i < frames@.len() ==> *frames@[i] == all[i],
                chain@ == all.skip(frames@.len() as int),
            ensures
                frames@.len() == all.len(),
                forall|i: int| 0 <= i < frames@.len() ==> *frames@[i] == all[i],
            decreases chain@.len(),
        {
            match chain.next() {
                Some(frame) => {
                    frames.push(frame);
                    assert(chain@ =~= all.skip(frames@.len() as int));
                },
                None => {
                    break ;
                },
            }
        }
        frames
    }

    /// The number of frames that are still to come.
    pub fn count(self) -> (count: usize)
        ensures
            count == self@.len(),
    {
        self.collect().len()
    }
}

impl<'r> Clone for Chain<'r> {
    fn clone(&self) -> (copy: Chain<'r>)
        ensures
            copy@ == self@,
    {
        Chain { current: self.current }
    }
}

/// Whether `frame` has an answer to a request for the tag `I`.
pub open spec fn yields<'p, I: TypeTag<'p>>(frame: Frame) -> bool {
    frame.provided(I::identity()) matches Some(datum) && I::carries(datum)
}

/// The position of the first frame of `frames` that has an answer to a
/// request for the tag `I`.
pub open spec fn first_yield<'p, I: TypeTag<'p>>(frames: Seq<Frame>) -> Option<int>
    decreases frames.len(),
{
    if frames.len() == 0 {
        None
    } else if yields::<I>(frames[0]) {
        Some(0)
    } else {
        match first_yield::<I>(frames.drop_first()) {
            Some(position) => Some(position + 1),
            None => None,
        }
    }
}

/// A frame answers a request for its source if, and only if, it has one,
/// and then with the frame it was wrapped around: no provider is ever
/// handed a sink that takes a frame.
pub proof fn lemma_source_is_answered_iff_present(frame: Frame)
    ensures
        yields::<ErrorSource>(frame) <==> frame.source is Some,
        frame.source matches Some(source) ==> frame.provided(ErrorSource::identity()) == Some(
            DatumView::Frame(*source),
        ),
{
    if frame.source is None {
        match frame.error {
            ErrorType::Provider(enclosure) => {
                match enclosure.attached(TagId::ErrorSource) {
                    Some(plain) => {
                        plain.lemma_datum_is_plain();
                    },
                    None => {},
                }
            },
            _ => {},
        }
    }
}

/// The answers of `frames` to a request for the tag `I`, in the order of
/// the frames. Frames without an answer leave no gap.
pub open spec fn answers_of<'p, I: TypeTag<'p>>(frames: Seq<Frame>) -> Seq<DatumView>
    decreases frames.len(),
{
    if frames.len() == 0 {
        Seq::empty()
    } else if yields::<I>(frames[0]) {
        seq![frames[0].provided(I::identity())->0] + answers_of::<I>(frames.drop_first())
    } else {
        answers_of::<I>(frames.drop_first())
    }
}

/// The answers begin with the answer of the first frame that has one and
/// go on with the answers of the frames after it.
pub proof fn lemma_answers_follow_first_yield<'p, I: TypeTag<'p>>(frames: Seq<Frame>)
    ensures
        match first_yield::<I>(frames) {
            Some(position) => {
                &&& 0 <= position < frames.len()
                &&& yields::<I>(frames[position])
                &&& answers_of::<I>(frames) == seq![
                    frames[position].provided(I::identity())->0,
                ] + answers_of::<I>(frames.skip(position + 1))
            },
            None => answers_of::<I>(frames) == Seq::<DatumView>::empty(),
        },
    decreases frames.len(),
{
    if frames.len() > 0 {
        let rest = frames.drop_first();
        if yields::<I>(frames[0]) {
            assert(frames.skip(1) =~= rest);
        } else {
            lemma_answers_follow_first_yield::<I>(rest);
            match first_yield::<I>(rest) {
                Some(position) => {
                    assert(rest[position] == frames[position + 1]);
                    assert(rest.skip(position + 1) =~= frames.skip(position + 2));
                },
                None => {},
            }
        }
    }
}

/// A request for the message is answered by every frame with its own
/// message: the answers are the messages of the frames, in the order of
/// the frames.
pub proof fn lemma_message_request_lists_every_frame(frames: Seq<Frame>)
    ensures
        answers_of::<ErrorMessage>(frames).len() == frames.len(),
        forall|i: int|
            0 <= i < frames.len() ==> (#[trigger] answers_of::<ErrorMessage>(frames)[i])
                == DatumView::Owned(Scalar::Text(frames[i].rendered())),
    decreases frames.len(),
{
    if frames.len() > 0 {
        let rest = frames.drop_first();
        lemma_message_request_lists_every_frame(rest);
        assert forall|i: int| 0 <= i < frames.len() implies (#[trigger] answers_of::<ErrorMessage>(
            frames,
        )[i]) == DatumView::Owned(Scalar::Text(frames[i].rendered())) by {
            if i > 0 {
                assert(answers_of::<ErrorMessage>(frames)[i] == answers_of::<ErrorMessage>(
                    rest,
                )[i - 1]);
                assert(rest[i - 1] == frames[i]);
            }
        }
    }
}

/// The answers that the frames of a report still have to a request for the
/// tag `I`, newest first.
#[must_use]
pub struct Request<'r, I> {
    chain: Chain<'r>,
    marker: PhantomData<I>,
}

impl<'r, I> View for Request<'r, I> {
    type V = Seq<Frame>;

    /// The frames that have not been asked yet.
    closed spec fn view(&self) -> Seq<Frame> {
        self.chain@
    }
}

impl<'r, I: TypeTag<'r>> Request<'r, I> {
    /// The request that asks every frame of `chain` in turn.
    pub(crate) fn new(chain: Chain<'r>) -> (request: Request<'r, I>)
        ensures
            request@ == chain@,
    {
        Request { chain, marker: PhantomData }
    }

    /// Asks the frames in turn and hands out the first answer, leaving the
    /// frames after it for the next call. Frames without an answer are
    /// passed over.
    pub fn next(&mut self) -> (value: Option<I::Type>)
        ensures
            match first_yield::<I>(old(self)@) {
                Some(position) => {
                    &&& 0 <= position < old(self)@.len()
                    &&& value matches Some(value)
                    &&& Some(I::encoded(value)) == old(self)@[position].provided(I::identity())
                    &&& final(self)@ == old(self)@.skip(position + 1)
                },
                None => value is None && final(self)@.len() == 0,
            },
    {
        let ghost all = self@;
        let ghost mut passed: int = 0;
        loop
            invariant
                all == old(self)@,
                0 <= passed <= all.len(),
                self@ == all.skip(passed),
                first_yield::<I>(all) == (match first_yield::<I>(self@) {
                    Some(position) => Some(position + passed),
                    None => None,
                }),
            decreases self@.len(),
        {
            let ghost rest = self@;
            match self.chain.next() {
                Some(frame) => {
                    let answer = frame.request::<I>();
                    proof {
                        assert(rest.drop_first() =~= all.skip(passed + 1));
                    }
                    match answer {
                        Some(value) => {
                            return Some(value);
                        },
                        None => {
                            proof {
                                passed = passed + 1;
                            }
                        },
                    }
                },
                None => {
                    return None;
                },
            }
        }
    }
}

impl<'r, I: TypeTag<'r>> Request<'r, I> {
    /// All the answers that are still to come, in order.
    pub fn collect(self) -> (values: Vec<I::Type>)
        ensures
            values@.len() == answers_of::<I>(self@).len(),
            forall|i: int|
                0 <= i < values@.len() ==> I::encoded(#[trigger] values@[i]) == answers_of::<I>(
                    self@,
                )[i],
    {
        let ghost all = answers_of::<I>(self@);
        let mut request = self;
        let mut values: Vec<I::Type> = Vec::new();
        loop
            invariant
                values@.len() + answers_of::<I>(request@).len() == all.len(),
                forall|i: int|
                    0 <= i < values@.len() ==> I::encoded(#[trigger] values@[i]) == all[i],
                forall|i: int|
                    0 <= i < answers_of::<I>(request@).len() ==> (#[trigger] answers_of::<I>(
                        request@,
                    )[i]) == all[values@.len() + i],
            ensures
                values@.len() == all.len(),
                forall|i: int|
                    0 <= i < values@.len() ==> I::encoded(#[trigger] values@[i]) == all[i],
            decreases request@.len(),
        {
            let ghost rest = request@;
            let ghost done = values@;
            proof {
                lemma_answers_follow_first_yield::<I>(rest);
            }
            match request.next() {
                Some(value) => {
                    values.push(value);
                    proof {
                        let position = first_yield::<I>(rest)->0;
                        let after = answers_of::<I>(rest.skip(position + 1));
                        assert(answers_of::<I>(rest)[0] == rest[position].provided(
                            I::identity(),
                        )->0);
                        assert forall|i: int| 0 <= i < after.len() implies (#[trigger] after[i])
                            == all[values@.len() + i] by {
                            assert(after[i] == answers_of::<I>(rest)[i + 1]);
                        }
                        assert forall|i: int| 0 <= i < values@.len() implies I::encoded(
                            #[trigger] values@[i],
                        ) == all[i] by {
                            if i < done.len() {
                                assert(values@[i] == done[i]);
                            }
                        }
                    }
                },
                None => {
                    break ;
                },
            }
        }
        values
    }
}

impl<'r, I> Clone for Request<'r, I> {
    fn clone(&self) -> (copy: Request<'r, I>)
        ensures
            copy@ == self@,
    {
        Request { chain: self.chain.clone(), marker: PhantomData }
    }
}

} // verus!
