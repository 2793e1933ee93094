//! The values that travel through a requisition.
//!
//! A [`Datum`] is one payload in transit: a plain value, owned or lent, a
//! reference to a frame, or one of those wrapped by a combinator. Its view,
//! a [`DatumView`], is what contracts speak of: text as a sequence of
//! characters, and whether the value was handed over or only lent.

use vstd::prelude::*;
use crate::frame::Frame;
use crate::location::{Location, LocationView};
use crate::tag::Kind;

verus! {

/// A value handed over for good, or lent for the lifetime `'p`.
pub enum Held<'p, T> {
    /// The value itself.
    Owned(T),
    /// A shared reference to the value.
    Lent(&'p T),
}

impl<'p, T> Held<'p, T> {
    /// The value itself, however it is held.
    pub open spec fn value(self) -> T {
        match self {
            Held::Owned(value) => value,
            Held::Lent(value) => *value,
        }
    }
}

/// One payload in transit.
pub enum Datum<'p> {
    Flag(Held<'p, bool>),
    Unsigned(Held<'p, u64>),
    Signed(Held<'p, i64>),
    Text(Held<'p, String>),
    Location(Held<'p, Location>),
    /// A frame is only ever lent: it belongs to the chain that holds it.
    Frame(&'p Frame),
    /// A payload that may be absent.
    Maybe(Option<Box<Datum<'p>>>),
    /// One of two payloads.
    Outcome(Result<Box<Datum<'p>>, Box<Datum<'p>>>),
}

/// A plain value as contracts see it.
pub ghost enum Scalar {
    Flag(bool),
    Unsigned(u64),
    Signed(i64),
    Text(Seq<char>),
    Location(LocationView),
}

impl Scalar {
    /// The payload type of this value.
    pub open spec fn kind(self) -> Kind {
        match self {
            Scalar::Flag(_) => Kind::Flag,
            Scalar::Unsigned(_) => Kind::Unsigned,
            Scalar::Signed(_) => Kind::Signed,
            Scalar::Text(_) => Kind::Text,
            Scalar::Location(_) => Kind::Location,
        }
    }
}

/// A [`Datum`] as contracts see it.
pub ghost enum DatumView {
    Owned(Scalar),
    Lent(Scalar),
    Frame(Frame),
    Maybe(Option<Box<DatumView>>),
    Outcome(Result<Box<DatumView>, Box<DatumView>>),
}

/// The view of a plain value that is held as `held` says.
pub open spec fn plain<'p, T>(held: Held<'p, T>, scalar: Scalar) -> DatumView {
    match held {
        Held::Owned(_) => DatumView::Owned(scalar),
        Held::Lent(_) => DatumView::Lent(scalar),
    }
}

impl<'p> Datum<'p> {
    /// The datum as contracts see it.
    pub open spec fn view(&self) -> DatumView
        decreases self,
    {
        match self {
            Datum::Flag(held) => plain(*held, Scalar::Flag(held.value())),
            Datum::Unsigned(held) => plain(*held, Scalar::Unsigned(held.value())),
            Datum::Signed(held) => plain(*held, Scalar::Signed(held.value())),
            Datum::Text(held) => plain(*held, Scalar::Text(held.value()@)),
            Datum::Location(held) => plain(*held, Scalar::Location(held.value()@)),
            Datum::Frame(frame) => DatumView::Frame(**frame),
            Datum::Maybe(None) => DatumView::Maybe(None),
            Datum::Maybe(Some(inner)) => DatumView::Maybe(Some(Box::new(inner.view()))),
            Datum::Outcome(Ok(inner)) => DatumView::Outcome(Ok(Box::new(inner.view()))),
            Datum::Outcome(Err(inner)) => DatumView::Outcome(Err(Box::new(inner.view()))),
        }
    }

    /// Copies a datum: owned values are cloned, lent ones are lent again.
    pub fn duplicate(&self) -> (copy: Datum<'p>)
        ensures
            copy@ == self@,
        decreases self,
    {
        match self {
            Datum::Flag(Held::Owned(value)) => Datum::Flag(Held::Owned(*value)),
            Datum::Flag(Held::Lent(value)) => Datum::Flag(Held::Lent(*value)),
            Datum::Unsigned(Held::Owned(value)) => Datum::Unsigned(Held::Owned(*value)),
            Datum::Unsigned(Held::Lent(value)) => Datum::Unsigned(Held::Lent(*value)),
            Datum::Signed(Held::Owned(value)) => Datum::Signed(Held::Owned(*value)),
            Datum::Signed(Held::Lent(value)) => Datum::Signed(Held::Lent(*value)),
            Datum::Text(Held::Owned(value)) => Datum::Text(Held::Owned(value.clone())),
            Datum::Text(Held::Lent(value)) => Datum::Text(Held::Lent(*value)),
            Datum::Location(Held::Owned(value)) => Datum::Location(Held::Owned(*value)),
            Datum::Location(Held::Lent(value)) => Datum::Location(Held::Lent(*value)),
            Datum::Frame(frame) => Datum::Frame(*frame),
            Datum::Maybe(None) => Datum::Maybe(None),
            Datum::Maybe(Some(inner)) => Datum::Maybe(Some(Box::new(inner.duplicate()))),
            Datum::Outcome(Ok(inner)) => Datum::Outcome(Ok(Box::new(inner.duplicate()))),
            Datum::Outcome(Err(inner)) => Datum::Outcome(Err(Box::new(inner.duplicate()))),
        }
    }
}

/// A payload that holds no frame: a plain value, owned or lent, or one of
/// those wrapped by a combinator. This is what a frame's attachment can
/// hand out.
pub enum Plain<'p> {
    Flag(Held<'p, bool>),
    Unsigned(Held<'p, u64>),
    Signed(Held<'p, i64>),
    Text(Held<'p, String>),
    Location(Held<'p, Location>),
    /// A payload that may be absent.
    Maybe(Option<Box<Plain<'p>>>),
    /// One of two payloads.
    Outcome(Result<Box<Plain<'p>>, Box<Plain<'p>>>),
}

/// A [`Plain`] as contracts see it.
pub ghost enum PlainView {
    Owned(Scalar),
    Lent(Scalar),
    Maybe(Option<Box<PlainView>>),
    Outcome(Result<Box<PlainView>, Box<PlainView>>),
}

/// The view of a plain value, held as `held` says, among the payloads
/// without a frame.
pub open spec fn plain_of<'p, T>(held: Held<'p, T>, scalar: Scalar) -> PlainView {
    match held {
        Held::Owned(_) => PlainView::Owned(scalar),
        Held::Lent(_) => PlainView::Lent(scalar),
    }
}

impl PlainView {
    /// The same payload among all payloads.
    pub open spec fn datum(self) -> DatumView
        decreases self,
    {
        match self {
            PlainView::Owned(scalar) => DatumView::Owned(scalar),
            PlainView::Lent(scalar) => DatumView::Lent(scalar),
            PlainView::Maybe(None) => DatumView::Maybe(None),
            PlainView::Maybe(Some(inner)) => DatumView::Maybe(Some(Box::new(inner.datum()))),
            PlainView::Outcome(Ok(inner)) => DatumView::Outcome(Ok(Box::new(inner.datum()))),
            PlainView::Outcome(Err(inner)) => DatumView::Outcome(Err(Box::new(inner.datum()))),
        }
    }

    /// A payload without a frame stays one among all payloads, and comes
    /// back as it was.
    pub proof fn lemma_datum_is_plain(self)
        ensures
            self.datum().plain() == Some(self),
            !(self.datum() is Frame),
        decreases self,
    {
        match self {
            PlainView::Maybe(Some(inner)) => {
                inner.lemma_datum_is_plain();
            },
            PlainView::Outcome(Ok(inner)) => {
                inner.lemma_datum_is_plain();
            },
            PlainView::Outcome(Err(inner)) => {
                inner.lemma_datum_is_plain();
            },
            _ => {},
        }
    }
}

impl DatumView {
    /// A payload with no frame in it is the one that its frame-free form
    /// stands for.
    pub proof fn lemma_plain_is_same(self)
        ensures
            self.plain() matches Some(plain) ==> plain.datum() == self,
        decreases self,
    {
        match self {
            DatumView::Maybe(Some(inner)) => {
                inner.lemma_plain_is_same();
            },
            DatumView::Outcome(Ok(inner)) => {
                inner.lemma_plain_is_same();
            },
            DatumView::Outcome(Err(inner)) => {
                inner.lemma_plain_is_same();
            },
            _ => {},
        }
    }

    /// The same payload among those without a frame, or `None` where a
    /// frame is in it.
    pub open spec fn plain(self) -> Option<PlainView>
        decreases self,
    {
        match self {
            DatumView::Owned(scalar) => Some(PlainView::Owned(scalar)),
            DatumView::Lent(scalar) => Some(PlainView::Lent(scalar)),
            DatumView::Frame(_) => None,
            DatumView::Maybe(None) => Some(PlainView::Maybe(None)),
            DatumView::Maybe(Some(inner)) => match inner.plain() {
                Some(inner) => Some(PlainView::Maybe(Some(Box::new(inner)))),
                None => None,
            },
            DatumView::Outcome(Ok(inner)) => match inner.plain() {
                Some(inner) => Some(PlainView::Outcome(Ok(Box::new(inner)))),
                None => None,
            },
            DatumView::Outcome(Err(inner)) => match inner.plain() {
                Some(inner) => Some(PlainView::Outcome(Err(Box::new(inner)))),
                None => None,
            },
        }
    }
}

impl<'p> Plain<'p> {
    /// The payload as contracts see it.
    pub open spec fn view(&self) -> PlainView
        decreases self,
    {
        match self {
            Plain::Flag(held) => plain_of(*held, Scalar::Flag(held.value())),
            Plain::Unsigned(held) => plain_of(*held, Scalar::Unsigned(held.value())),
            Plain::Signed(held) => plain_of(*held, Scalar::Signed(held.value())),
            Plain::Text(held) => plain_of(*held, Scalar::Text(held.value()@)),
            Plain::Location(held) => plain_of(*held, Scalar::Location(held.value()@)),
            Plain::Maybe(None) => PlainView::Maybe(None),
            Plain::Maybe(Some(inner)) => PlainView::Maybe(Some(Box::new(inner.view()))),
            Plain::Outcome(Ok(inner)) => PlainView::Outcome(Ok(Box::new(inner.view()))),
            Plain::Outcome(Err(inner)) => PlainView::Outcome(Err(Box::new(inner.view()))),
        }
    }

    /// Copies a payload: owned values are cloned, lent ones are lent
    /// again.
    pub fn duplicate(&self) -> (copy: Plain<'p>)
        ensures
            copy@ == self@,
        decreases self,
    {
        match self {
            Plain::Flag(Held::Owned(value)) => Plain::Flag(Held::Owned(*value)),
            Plain::Flag(Held::Lent(value)) => Plain::Flag(Held::Lent(*value)),
            Plain::Unsigned(Held::Owned(value)) => Plain::Unsigned(Held::Owned(*value)),
            Plain::Unsigned(Held::Lent(value)) => Plain::Unsigned(Held::Lent(*value)),
            Plain::Signed(Held::Owned(value)) => Plain::Signed(Held::Owned(*value)),
            Plain::Signed(Held::Lent(value)) => Plain::Signed(Held::Lent(*value)),
            Plain::Text(Held::Owned(value)) => Plain::Text(Held::Owned(value.clone())),
            Plain::Text(Held::Lent(value)) => Plain::Text(Held::Lent(*value)),
            Plain::Location(Held::Owned(value)) => Plain::Location(Held::Owned(*value)),
            Plain::Location(Held::Lent(value)) => Plain::Location(Held::Lent(*value)),
            Plain::Maybe(None) => Plain::Maybe(None),
            Plain::Maybe(Some(inner)) => Plain::Maybe(Some(Box::new(inner.duplicate()))),
            Plain::Outcome(Ok(inner)) => Plain::Outcome(Ok(Box::new(inner.duplicate()))),
            Plain::Outcome(Err(inner)) => Plain::Outcome(Err(Box::new(inner.duplicate()))),
        }
    }

    /// The same payload as a datum.
    pub fn into_datum(self) -> (datum: Datum<'p>)
        ensures
            datum@ == self@.datum(),
        decreases self,
    {
        match self {
            Plain::Flag(held) => Datum::Flag(held),
            Plain::Unsigned(held) => Datum::Unsigned(held),
            Plain::Signed(held) => Datum::Signed(held),
            Plain::Text(held) => Datum::Text(held),
            Plain::Location(held) => Datum::Location(held),
            Plain::Maybe(None) => Datum::Maybe(None),
            Plain::Maybe(Some(inner)) => Datum::Maybe(Some(Box::new((*inner).into_datum()))),
            Plain::Outcome(Ok(inner)) => Datum::Outcome(Ok(Box::new((*inner).into_datum()))),
            Plain::Outcome(Err(inner)) => Datum::Outcome(Err(Box::new((*inner).into_datum()))),
        }
    }
}

impl<'p> Datum<'p> {
    /// The same payload without a frame, or `None` where a frame is in
    /// it.
    pub fn into_plain(self) -> (plain: Option<Plain<'p>>)
        ensures
            match plain {
                Some(plain) => self@.plain() == Some(plain@),
                None => self@.plain() is None,
            },
        decreases self,
    {
        match self {
            Datum::Flag(held) => Some(Plain::Flag(held)),
            Datum::Unsigned(held) => Some(Plain::Unsigned(held)),
            Datum::Signed(held) => Some(Plain::Signed(held)),
            Datum::Text(held) => Some(Plain::Text(held)),
            Datum::Location(held) => Some(Plain::Location(held)),
            Datum::Frame(_) => None,
            Datum::Maybe(None) => Some(Plain::Maybe(None)),
            Datum::Maybe(Some(inner)) => match (*inner).into_plain() {
                Some(inner) => Some(Plain::Maybe(Some(Box::new(inner)))),
                None => None,
            },
            Datum::Outcome(Ok(inner)) => match (*inner).into_plain() {
                Some(inner) => Some(Plain::Outcome(Ok(Box::new(inner)))),
                None => None,
            },
            Datum::Outcome(Err(inner)) => match (*inner).into_plain() {
                Some(inner) => Some(Plain::Outcome(Err(Box::new(inner)))),
                None => None,
            },
        }
    }
}

} // verus!
