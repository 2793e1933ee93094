//! One link of causation.

use vstd::prelude::*;
use vstd::string::*;
use crate::attachment::Enclosure;
use crate::datum::{DatumView, Held, Plain, PlainView, Scalar};
use crate::location::Location;
use crate::provider::{answers, Provider};
use crate::requisition::{plain_offer, Requisition};
use crate::tag::TagId;
use crate::tags::{ErrorLocation, ErrorMessage, Payload, Ref, TypeTag, Value};

verus! {

/// What a frame wraps.
pub enum ErrorType {
    /// A plain message.
    Message(String),
    /// The message of an error value defined elsewhere.
    Error(String),
    /// A provider of typed data, without a message line of its own unless
    /// it offers one under the error-message tag.
    Provider(Enclosure),
}

impl ErrorType {
    /// Whether this is `provider`, attached: typed data that answers every
    /// tag as `provider` does when it is asked on its own.
    pub open spec fn attaches<P: Provider + Send + Sync + 'static>(self, provider: P) -> bool {
        self matches ErrorType::Provider(enclosure) && enclosure.holds(provider)
    }

    /// Attaches `provider`: it is kept as it is and asked anew at every
    /// request.
    pub fn provider<P: Provider + Send + Sync + 'static>(provider: P) -> (error: ErrorType)
        ensures
            error.attaches(provider),
    {
        ErrorType::Provider(Enclosure::of(provider))
    }
}

/// One link of a report's chain: what was wrapped, where, and the frame it
/// was wrapped around.
pub struct Frame {
    pub error: ErrorType,
    pub location: Location,
    pub source: Option<Box<Frame>>,
}

/// The text shown for a frame whose provider offers no message.
pub open spec fn unknown_error() -> Seq<char> {
    "<Unknown error>"@
}

impl Frame {
    /// The frame's message: the wrapped message, or what the wrapped
    /// provider offers as its message, or a fixed text where it offers
    /// none. The source is not part of it.
    pub open spec fn rendered(&self) -> Seq<char> {
        match self.error {
            ErrorType::Message(message) => message@,
            ErrorType::Error(message) => message@,
            ErrorType::Provider(attachment) => match attachment.attached(TagId::ErrorMessage) {
                Some(PlainView::Owned(Scalar::Text(message))) => message,
                _ => unknown_error(),
            },
        }
    }

    /// This frame followed by the frames it was wrapped around, newest
    /// first.
    pub open spec fn lineage(&self) -> Seq<Frame>
        decreases self,
    {
        match self.source {
            Some(source) => seq![*self] + source.lineage(),
            None => seq![*self],
        }
    }

    /// A lineage starts with the frame itself and goes on with the lineage
    /// of its source.
    pub proof fn lemma_lineage(&self)
        ensures
            self.lineage().len() >= 1,
            self.lineage()[0] == *self,
            self.lineage().drop_first() == (match self.source {
                Some(source) => source.lineage(),
                None => Seq::empty(),
            }),
    {
        match self.source {
            Some(source) => {
                assert((seq![*self] + source.lineage()).drop_first() =~= source.lineage());
            },
            None => {
                assert(seq![*self].drop_first() =~= Seq::<Frame>::empty());
            },
        }
    }

    /// A frame without a source.
    pub fn leaf(error: ErrorType, location: Location) -> (frame: Frame)
        ensures
            frame == (Frame { error, location, source: None }),
    {
        Frame { error, location, source: None }
    }

    /// A frame around `previous`, which becomes its source.
    pub fn wrap(error: ErrorType, location: Location, previous: Frame) -> (frame: Frame)
        ensures
            frame == (Frame { error, location, source: Some(Box::new(previous)) }),
    {
        Frame { error, location, source: Some(Box::new(previous)) }
    }

    /// Renders the frame's message.
    pub fn message(&self) -> (message: String)
        ensures
            message@ == self.rendered(),
    {
        match &self.error {
            ErrorType::Message(message) => message.clone(),
            ErrorType::Error(message) => message.clone(),
            ErrorType::Provider(attachment) => {
                match attachment.answer(&TagId::ErrorMessage) {
                    Some(Plain::Text(Held::Owned(message))) => message,
                    _ => String::from_str("<Unknown error>"),
                }
            },
        }
    }

    /// Where the frame was attached.
    pub fn location(&self) -> (location: Location)
        ensures
            location == self.location,
    {
        self.location
    }

    /// The frame that this one was wrapped around.
    pub fn source(&self) -> (source: Option<&Frame>)
        ensures
            match source {
                Some(source) => self.source == Some(Box::new(*source)),
                None => self.source is None,
            },
    {
        match &self.source {
            Some(source) => Some(&**source),
            None => None,
        }
    }

    /// Requests the value tagged `I` from this frame alone: runs the
    /// frame once against a fresh requisition bound to `I` and reads the
    /// slot. The requisition is linked, so the frame may lend its source.
    pub fn request<'p, I: TypeTag<'p>>(&'p self) -> (value: Option<I::Type>)
        ensures
            answers::<I>(self.provided(I::identity()), value),
    {
        let mut requisition = Requisition::new(I::id(), true);
        self.provide(&mut requisition);
        match requisition.into_slot() {
            Some(datum) => I::decode(datum),
            None => None,
        }
    }

    /// Requests a reference to a `T` from this frame alone.
    pub fn request_ref<'p, T: Payload>(&'p self) -> (value: Option<&'p T>)
        ensures
            answers::<Ref<T>>(self.provided(Ref::<T>::identity()), value),
    {
        self.request::<Ref<T>>()
    }

    /// Requests a `T` from this frame alone.
    pub fn request_value<'p, T: Payload>(&'p self) -> (value: Option<T>)
        ensures
            answers::<Value<T>>(self.provided(Value::<T>::identity()), value),
    {
        self.request::<Value<T>>()
    }
}

/// A frame hands on what the provider attached to it has, for every tag
/// that the frame does not answer itself: asked through the frame, the
/// provider answers as it does when asked on its own.
pub proof fn lemma_attached_provider_is_handed_on<P: Provider + Send + Sync + 'static>(
    frame: Frame,
    provider: P,
    tag: TagId,
)
    requires
        frame.error.attaches(provider),
        tag != TagId::ErrorLocation,
        tag != TagId::ErrorMessage,
        !(tag == TagId::ErrorSource && frame.source is Some),
    ensures
        frame.provided(tag) == plain_offer(provider.provided(tag)),
        provider.provided(tag) is None ==> frame.provided(tag) is None,
        provider.provided(tag) matches Some(datum) && datum.plain() is Some ==> frame.provided(tag)
            == provider.provided(tag),
{
    match provider.provided(tag) {
        Some(datum) => {
            datum.lemma_plain_is_same();
        },
        None => {},
    }
}

impl Provider for Frame {
    /// A frame offers its location, its message and its source, each under
    /// its own tag, and then whatever the provider attached to it has.
    /// The source is a frame, so only a linked sink takes it.
    open spec fn provided(&self, tag: TagId) -> Option<DatumView> {
        if tag == TagId::ErrorLocation {
            Some(DatumView::Owned(Scalar::Location(self.location@)))
        } else if tag == TagId::ErrorMessage {
            Some(DatumView::Owned(Scalar::Text(self.rendered())))
        } else if tag == TagId::ErrorSource && self.source is Some {
            Some(DatumView::Frame(*self.source->0))
        } else {
            match self.error {
                ErrorType::Provider(attachment) => match attachment.attached(tag) {
                    Some(plain) => Some(plain.datum()),
                    None => None,
                },
                _ => None,
            }
        }
    }

    fn provide<'p>(&'p self, requisition: &mut Requisition<'p>) {
        requisition.provide::<ErrorLocation>(self.location);
        if requisition.accepts(&TagId::ErrorMessage) {
            requisition.provide::<ErrorMessage>(self.message());
        }
        let lends = requisition.accepts(&TagId::ErrorSource) && self.source.is_some();
        if lends {
            if requisition.is_linked() {
                if let Some(cause) = &self.source {
                    requisition.lend(&**cause);
                }
            }
        } else if let ErrorType::Provider(attachment) = &self.error {
            if let Some(tag) = requisition.wanted() {
                if let Some(plain) = attachment.answer(tag) {
                    proof {
                        plain@.lemma_datum_is_plain();
                    }
                    requisition.fill(plain.into_datum());
                }
            }
        }
    }
}

} // verus!
