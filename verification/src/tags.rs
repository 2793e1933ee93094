//! Tags as types: markers that name what is requested and say what type
//! comes back.
//!
//! A tag is never instantiated. It ties an identity ([`TagId`]) to a
//! payload type and to the way a value of that type travels as a
//! [`Datum`]. Several tags may share a payload type; their identities
//! still differ.

use core::marker::PhantomData;
use vstd::prelude::*;
use crate::datum::{plain, Datum, DatumView, Held, Scalar};
use crate::frame::Frame;
use crate::location::Location;
use crate::sealed::Sealed;
use crate::tag::{Kind, TagId};

verus! {

/// A plain type that can travel through a requisition, owned or lent.
///
/// The payload types are `bool`, `u64`, `i64`, `String` and [`Location`],
/// and no others: each has a kind of its own, so that a kind names one
/// type.
pub trait Payload: Sealed + Sized + 'static {
    /// The kind that stands for this type in tag identities.
    spec fn kind() -> Kind;

    /// The value as contracts see it.
    spec fn scalar(&self) -> Scalar;

    /// Every value of the type is of the type's kind.
    proof fn lemma_scalar_kind(&self)
        ensures
            self.scalar().kind() == Self::kind(),
    ;

    /// The kind that stands for this type.
    fn payload_kind() -> (kind: Kind)
        ensures
            kind == Self::kind(),
    ;

    /// Wraps a value for transit, keeping it owned or lent as it came.
    fn pack<'p>(held: Held<'p, Self>) -> (datum: Datum<'p>)
        ensures
            datum@ == plain(held, held.value().scalar()),
    ;

    /// Takes a value of this type out of a datum, if that is what it holds.
    fn unpack<'p>(datum: Datum<'p>) -> (held: Option<Held<'p, Self>>)
        ensures
            match held {
                Some(held) => datum@ == plain(held, held.value().scalar()),
                None => match datum@ {
                    DatumView::Owned(scalar) => scalar.kind() != Self::kind(),
                    DatumView::Lent(scalar) => scalar.kind() != Self::kind(),
                    _ => true,
                },
            },
    ;
}

impl Sealed for bool {
}

impl Payload for bool {
    open spec fn kind() -> Kind {
        Kind::Flag
    }

    open spec fn scalar(&self) -> Scalar {
        Scalar::Flag(*self)
    }

    proof fn lemma_scalar_kind(&self) {
    }

    fn payload_kind() -> (kind: Kind) {
        Kind::Flag
    }

    fn pack<'p>(held: Held<'p, Self>) -> (datum: Datum<'p>) {
        Datum::Flag(held)
    }

    fn unpack<'p>(datum: Datum<'p>) -> (held: Option<Held<'p, Self>>) {
        match datum {
            Datum::Flag(held) => Some(held),
            _ => None,
        }
    }
}

impl Sealed for u64 {
}

impl Payload for u64 {
    open spec fn kind() -> Kind {
        Kind::Unsigned
    }

    open spec fn scalar(&self) -> Scalar {
        Scalar::Unsigned(*self)
    }

    proof fn lemma_scalar_kind(&self) {
    }

    fn payload_kind() -> (kind: Kind) {
        Kind::Unsigned
    }

    fn pack<'p>(held: Held<'p, Self>) -> (datum: Datum<'p>) {
        Datum::Unsigned(held)
    }

    fn unpack<'p>(datum: Datum<'p>) -> (held: Option<Held<'p, Self>>) {
        match datum {
            Datum::Unsigned(held) => Some(held),
            _ => None,
        }
    }
}

impl Sealed for i64 {
}

impl Payload for i64 {
    open spec fn kind() -> Kind {
        Kind::Signed
    }

    open spec fn scalar(&self) -> Scalar {
        Scalar::Signed(*self)
    }

    proof fn lemma_scalar_kind(&self) {
    }

    fn payload_kind() -> (kind: Kind) {
        Kind::Signed
    }

    fn pack<'p>(held: Held<'p, Self>) -> (datum: Datum<'p>) {
        Datum::Signed(held)
    }

    fn unpack<'p>(datum: Datum<'p>) -> (held: Option<Held<'p, Self>>) {
        match datum {
            Datum::Signed(held) => Some(held),
            _ => None,
        }
    }
}

impl Sealed for String {
}

impl Payload for String {
    open spec fn kind() -> Kind {
        Kind::Text
    }

    open spec fn scalar(&self) -> Scalar {
        Scalar::Text(self@)
    }

    proof fn lemma_scalar_kind(&self) {
    }

    fn payload_kind() -> (kind: Kind) {
        Kind::Text
    }

    fn pack<'p>(held: Held<'p, Self>) -> (datum: Datum<'p>) {
        Datum::Text(held)
    }

    fn unpack<'p>(datum: Datum<'p>) -> (held: Option<Held<'p, Self>>) {
        match datum {
            Datum::Text(held) => Some(held),
            _ => None,
        }
    }
}

impl Sealed for Location {
}

impl Payload for Location {
    open spec fn kind() -> Kind {
        Kind::Location
    }

    open spec fn scalar(&self) -> Scalar {
        Scalar::Location(self@)
    }

    proof fn lemma_scalar_kind(&self) {
    }

    fn payload_kind() -> (kind: Kind) {
        Kind::Location
    }

    fn pack<'p>(held: Held<'p, Self>) -> (datum: Datum<'p>) {
        Datum::Location(held)
    }

    fn unpack<'p>(datum: Datum<'p>) -> (held: Option<Held<'p, Self>>) {
        match datum {
            Datum::Location(held) => Some(held),
            _ => None,
        }
    }
}

/// A tag: an identity, the type of the values requested under it, and how
/// such a value travels.
///
/// The tags are the markers of this module and no others. Each has an
/// identity that no other marker has; a consumer's own tags are made with
/// [`Custom`].
pub trait TypeTag<'p>: Sealed + Sized {
    /// The type of the values that this tag names.
    type Type;

    /// The tag's identity.
    spec fn identity() -> TagId;

    /// The datum that carries `value` under this tag.
    spec fn encoded(value: Self::Type) -> DatumView;

    /// Whether `datum` is the shape in which values travel under this tag.
    spec fn carries(datum: DatumView) -> bool;

    /// Every value travels in the tag's own shape.
    proof fn lemma_encoded_is_carried(value: Self::Type)
        ensures
            Self::carries(Self::encoded(value)),
    ;

    /// The tag's identity.
    fn id() -> (id: TagId)
        ensures
            id == Self::identity(),
    ;

    /// Wraps a value for transit.
    fn encode(value: Self::Type) -> (datum: Datum<'p>)
        ensures
            datum@ == Self::encoded(value),
    ;

    /// Takes the value out of a datum: the value that travels as `datum`
    /// where `datum` has this tag's shape, and `None` where it has not.
    fn decode(datum: Datum<'p>) -> (value: Option<Self::Type>)
        ensures
            value is Some <==> Self::carries(datum@),
            value matches Some(value) ==> Self::encoded(value) == datum@,
    ;
}

/// A tag whose values hold no frame. These are the tags under which a
/// provider can deposit: all but the error-source tag and the combinators
/// around it, which only a frame answers, from its own chain.
pub trait PlainTag<'p>: TypeTag<'p> {
    /// No value of the tag holds a frame.
    proof fn lemma_encoded_is_plain(value: Self::Type)
        ensures
            Self::encoded(value).plain() is Some,
    ;
}

/// Shared-reference access to a `T`.
#[derive(Debug)]
pub struct Ref<T>(PhantomData<T>);

/// Owned access to a `T`.
#[derive(Debug)]
pub struct Value<T>(PhantomData<T>);

/// The tag `I`, with its value wrapped in an `Option`.
#[derive(Debug)]
pub struct OptionTag<I>(PhantomData<I>);

/// The tags `I` and `E`, with a value of either wrapped in a `Result`.
#[derive(Debug)]
pub struct ResultTag<I, E>(PhantomData<(I, E)>);

/// A tag private to one consumer: owned access to a `T` under the
/// consumer's own number `N`, apart from every other tag for a `T` and
/// from the consumer's tags for other types.
#[derive(Debug)]
pub struct Custom<const N: u64, T>(PhantomData<T>);

/// The place where a frame was attached.
#[derive(Debug)]
pub struct ErrorLocation;

/// The frame that a frame was wrapped around.
#[derive(Debug)]
pub struct ErrorSource;

/// The rendered message of a frame.
#[derive(Debug)]
pub struct ErrorMessage;

impl<T> Sealed for Ref<T> {
}

impl<T> Sealed for Value<T> {
}

impl<const N: u64, T> Sealed for Custom<N, T> {
}

impl<I> Sealed for OptionTag<I> {
}

impl<I, E> Sealed for ResultTag<I, E> {
}

impl Sealed for ErrorLocation {
}

impl Sealed for ErrorSource {
}

impl Sealed for ErrorMessage {
}

/// The five payload types have five kinds.
pub proof fn lemma_payload_kinds()
    ensures
        <bool as Payload>::kind() == Kind::Flag,
        <u64 as Payload>::kind() == Kind::Unsigned,
        <i64 as Payload>::kind() == Kind::Signed,
        <String as Payload>::kind() == Kind::Text,
        <Location as Payload>::kind() == Kind::Location,
{
}

/// Two type-based tags of one access mode have the same identity only for
/// the same payload type, and the two access modes never meet.
pub proof fn lemma_type_tags_differ<'p, T: Payload, U: Payload>()
    ensures
        Ref::<T>::identity() == Ref::<U>::identity() <==> T::kind() == U::kind(),
        Value::<T>::identity() == Value::<U>::identity() <==> T::kind() == U::kind(),
        Ref::<T>::identity() != Value::<U>::identity(),
{
}

/// Two private tags have the same identity only if they agree in both
/// number and payload type, and a private tag is never a type-based or a
/// semantic tag.
pub proof fn lemma_private_tags_differ<'p, const N: u64, const M: u64, T: Payload, U: Payload>()
    ensures
        Custom::<N, T>::identity() == Custom::<M, U>::identity() <==> N == M && T::kind()
            == U::kind(),
        Custom::<N, T>::identity() != Value::<U>::identity(),
        Custom::<N, T>::identity() != Ref::<U>::identity(),
        Custom::<N, T>::identity() != ErrorMessage::identity(),
        Custom::<N, T>::identity() != ErrorLocation::identity(),
        Custom::<N, T>::identity() != ErrorSource::identity(),
{
}

/// Tags of different families never share an identity: a combinator is
/// never a type-based, a private or a semantic tag, and the three
/// semantic tags differ from each other.
pub proof fn lemma_families_differ<
    'p,
    const N: u64,
    T: Payload,
    I: TypeTag<'p>,
    E: TypeTag<'p>,
>()
    ensures
        OptionTag::<I>::identity() != Ref::<T>::identity(),
        OptionTag::<I>::identity() != Value::<T>::identity(),
        OptionTag::<I>::identity() != Custom::<N, T>::identity(),
        OptionTag::<I>::identity() != ErrorMessage::identity(),
        OptionTag::<I>::identity() != ErrorLocation::identity(),
        OptionTag::<I>::identity() != ErrorSource::identity(),
        ResultTag::<I, E>::identity() != Ref::<T>::identity(),
        ResultTag::<I, E>::identity() != Value::<T>::identity(),
        ResultTag::<I, E>::identity() != Custom::<N, T>::identity(),
        ResultTag::<I, E>::identity() != ErrorMessage::identity(),
        ResultTag::<I, E>::identity() != ErrorLocation::identity(),
        ResultTag::<I, E>::identity() != ErrorSource::identity(),
        ErrorMessage::identity() != ErrorLocation::identity(),
        ErrorMessage::identity() != ErrorSource::identity(),
        ErrorLocation::identity() != ErrorSource::identity(),
{
}

/// A combinator keeps identities apart: two wrapped tags have the same
/// identity only if the tags inside have.
pub proof fn lemma_combinators_keep_tags_apart<
    'p,
    I: TypeTag<'p>,
    J: TypeTag<'p>,
    E: TypeTag<'p>,
    F: TypeTag<'p>,
>()
    ensures
        OptionTag::<I>::identity() == OptionTag::<J>::identity() <==> I::identity()
            == J::identity(),
        ResultTag::<I, E>::identity() == ResultTag::<J, F>::identity() <==> I::identity()
            == J::identity() && E::identity() == F::identity(),
        OptionTag::<I>::identity() != ResultTag::<J, F>::identity(),
{
}

impl<'p, T: Payload> TypeTag<'p> for Ref<T> {
    type Type = &'p T;

    open spec fn identity() -> TagId {
        TagId::Ref(T::kind())
    }

    open spec fn encoded(value: Self::Type) -> DatumView {
        DatumView::Lent(value.scalar())
    }

    open spec fn carries(datum: DatumView) -> bool {
        datum matches DatumView::Lent(scalar) && scalar.kind() == T::kind()
    }

    proof fn lemma_encoded_is_carried(value: Self::Type) {
        value.lemma_scalar_kind();
    }

    fn id() -> (id: TagId) {
        TagId::Ref(T::payload_kind())
    }

    fn encode(value: Self::Type) -> (datum: Datum<'p>) {
        T::pack(Held::Lent(value))
    }

    fn decode(datum: Datum<'p>) -> (value: Option<Self::Type>) {
        match T::unpack(datum) {
            Some(Held::Lent(value)) => {
                proof {
                    value.lemma_scalar_kind();
                }
                Some(value)
            },
            Some(Held::Owned(_)) => None,
            None => None,
        }
    }
}

impl<'p, T: Payload> TypeTag<'p> for Value<T> {
    type Type = T;

    open spec fn identity() -> TagId {
        TagId::Value(T::kind())
    }

    open spec fn encoded(value: Self::Type) -> DatumView {
        DatumView::Owned(value.scalar())
    }

    open spec fn carries(datum: DatumView) -> bool {
        datum matches DatumView::Owned(scalar) && scalar.kind() == T::kind()
    }

    proof fn lemma_encoded_is_carried(value: Self::Type) {
        value.lemma_scalar_kind();
    }

    fn id() -> (id: TagId) {
        TagId::Value(T::payload_kind())
    }

    fn encode(value: Self::Type) -> (datum: Datum<'p>) {
        T::pack(Held::Owned(value))
    }

    fn decode(datum: Datum<'p>) -> (value: Option<Self::Type>) {
        match T::unpack(datum) {
            Some(Held::Owned(value)) => {
                proof {
                    value.lemma_scalar_kind();
                }
                Some(value)
            },
            Some(Held::Lent(_)) => None,
            None => None,
        }
    }
}

impl<'p, const N: u64, T: Payload> TypeTag<'p> for Custom<N, T> {
    type Type = T;

    open spec fn identity() -> TagId {
        TagId::Custom(N, T::kind())
    }

    open spec fn encoded(value: Self::Type) -> DatumView {
        DatumView::Owned(value.scalar())
    }

    open spec fn carries(datum: DatumView) -> bool {
        datum matches DatumView::Owned(scalar) && scalar.kind() == T::kind()
    }

    proof fn lemma_encoded_is_carried(value: Self::Type) {
        value.lemma_scalar_kind();
    }

    fn id() -> (id: TagId) {
        TagId::Custom(N, T::payload_kind())
    }

    fn encode(value: Self::Type) -> (datum: Datum<'p>) {
        T::pack(Held::Owned(value))
    }

    fn decode(datum: Datum<'p>) -> (value: Option<Self::Type>) {
        match T::unpack(datum) {
            Some(Held::Owned(value)) => {
                proof {
                    value.lemma_scalar_kind();
                }
                Some(value)
            },
            Some(Held::Lent(_)) => None,
            None => None,
        }
    }
}

impl<'p, I: TypeTag<'p>> TypeTag<'p> for OptionTag<I> {
    type Type = Option<I::Type>;

    open spec fn identity() -> TagId {
        TagId::OptionOf(Box::new(I::identity()))
    }

    open spec fn encoded(value: Self::Type) -> DatumView {
        match value {
            None => DatumView::Maybe(None),
            Some(inner) => DatumView::Maybe(Some(Box::new(I::encoded(inner)))),
        }
    }

    open spec fn carries(datum: DatumView) -> bool {
        match datum {
            DatumView::Maybe(None) => true,
            DatumView::Maybe(Some(inner)) => I::carries(*inner),
            _ => false,
        }
    }

    proof fn lemma_encoded_is_carried(value: Self::Type) {
        match value {
            None => {},
            Some(inner) => {
                I::lemma_encoded_is_carried(inner);
            },
        }
    }

    fn id() -> (id: TagId) {
        TagId::OptionOf(Box::new(I::id()))
    }

    fn encode(value: Self::Type) -> (datum: Datum<'p>) {
        match value {
            None => Datum::Maybe(None),
            Some(inner) => Datum::Maybe(Some(Box::new(I::encode(inner)))),
        }
    }

    fn decode(datum: Datum<'p>) -> (value: Option<Self::Type>) {
        match datum {
            Datum::Maybe(None) => Some(None),
            Datum::Maybe(Some(inner)) => match I::decode(*inner) {
                Some(value) => Some(Some(value)),
                None => None,
            },
            _ => None,
        }
    }
}

impl<'p, I: TypeTag<'p>, E: TypeTag<'p>> TypeTag<'p> for ResultTag<I, E> {
    type Type = Result<I::Type, E::Type>;

    open spec fn identity() -> TagId {
        TagId::ResultOf(Box::new(I::identity()), Box::new(E::identity()))
    }

    open spec fn encoded(value: Self::Type) -> DatumView {
        match value {
            Ok(inner) => DatumView::Outcome(Ok(Box::new(I::encoded(inner)))),
            Err(inner) => DatumView::Outcome(Err(Box::new(E::encoded(inner)))),
        }
    }

    open spec fn carries(datum: DatumView) -> bool {
        match datum {
            DatumView::Outcome(Ok(inner)) => I::carries(*inner),
            DatumView::Outcome(Err(inner)) => E::carries(*inner),
            _ => false,
        }
    }

    proof fn lemma_encoded_is_carried(value: Self::Type) {
        match value {
            Ok(inner) => {
                I::lemma_encoded_is_carried(inner);
            },
            Err(inner) => {
                E::lemma_encoded_is_carried(inner);
            },
        }
    }

    fn id() -> (id: TagId) {
        TagId::ResultOf(Box::new(I::id()), Box::new(E::id()))
    }

    fn encode(value: Self::Type) -> (datum: Datum<'p>) {
        match value {
            Ok(inner) => Datum::Outcome(Ok(Box::new(I::encode(inner)))),
            Err(inner) => Datum::Outcome(Err(Box::new(E::encode(inner)))),
        }
    }

    fn decode(datum: Datum<'p>) -> (value: Option<Self::Type>) {
        match datum {
            Datum::Outcome(Ok(inner)) => match I::decode(*inner) {
                Some(value) => Some(Ok(value)),
                None => None,
            },
            Datum::Outcome(Err(inner)) => match E::decode(*inner) {
                Some(value) => Some(Err(value)),
                None => None,
            },
            _ => None,
        }
    }
}

impl<'p> TypeTag<'p> for ErrorLocation {
    type Type = Location;

    open spec fn identity() -> TagId {
        TagId::ErrorLocation
    }

    open spec fn encoded(value: Self::Type) -> DatumView {
        DatumView::Owned(Scalar::Location(value@))
    }

    open spec fn carries(datum: DatumView) -> bool {
        datum matches DatumView::Owned(scalar) && scalar is Location
    }

    proof fn lemma_encoded_is_carried(value: Self::Type) {
    }

    fn id() -> (id: TagId) {
        TagId::ErrorLocation
    }

    fn encode(value: Self::Type) -> (datum: Datum<'p>) {
        Datum::Location(Held::Owned(value))
    }

    fn decode(datum: Datum<'p>) -> (value: Option<Self::Type>) {
        match datum {
            Datum::Location(Held::Owned(location)) => Some(location),
            _ => None,
        }
    }
}

impl<'p> TypeTag<'p> for ErrorSource {
    type Type = &'p Frame;

    open spec fn identity() -> TagId {
        TagId::ErrorSource
    }

    open spec fn encoded(value: Self::Type) -> DatumView {
        DatumView::Frame(*value)
    }

    open spec fn carries(datum: DatumView) -> bool {
        datum is Frame
    }

    proof fn lemma_encoded_is_carried(value: Self::Type) {
    }

    fn id() -> (id: TagId) {
        TagId::ErrorSource
    }

    fn encode(value: Self::Type) -> (datum: Datum<'p>) {
        Datum::Frame(value)
    }

    fn decode(datum: Datum<'p>) -> (value: Option<Self::Type>) {
        match datum {
            Datum::Frame(frame) => Some(frame),
            _ => None,
        }
    }
}

impl<'p> TypeTag<'p> for ErrorMessage {
    type Type = String;

    open spec fn identity() -> TagId {
        TagId::ErrorMessage
    }

    open spec fn encoded(value: Self::Type) -> DatumView {
        DatumView::Owned(Scalar::Text(value@))
    }

    open spec fn carries(datum: DatumView) -> bool {
        datum matches DatumView::Owned(scalar) && scalar is Text
    }

    proof fn lemma_encoded_is_carried(value: Self::Type) {
    }

    fn id() -> (id: TagId) {
        TagId::ErrorMessage
    }

    fn encode(value: Self::Type) -> (datum: Datum<'p>) {
        Datum::Text(Held::Owned(value))
    }

    fn decode(datum: Datum<'p>) -> (value: Option<Self::Type>) {
        match datum {
            Datum::Text(Held::Owned(message)) => Some(message),
            _ => None,
        }
    }
}

impl<'p, T: Payload> PlainTag<'p> for Ref<T> {
    proof fn lemma_encoded_is_plain(value: Self::Type) {
    }
}

impl<'p, T: Payload> PlainTag<'p> for Value<T> {
    proof fn lemma_encoded_is_plain(value: Self::Type) {
    }
}

impl<'p, const N: u64, T: Payload> PlainTag<'p> for Custom<N, T> {
    proof fn lemma_encoded_is_plain(value: Self::Type) {
    }
}

impl<'p, I: PlainTag<'p>> PlainTag<'p> for OptionTag<I> {
    proof fn lemma_encoded_is_plain(value: Self::Type) {
        match value {
            None => {},
            Some(inner) => {
                I::lemma_encoded_is_plain(inner);
            },
        }
    }
}

impl<'p, I: PlainTag<'p>, E: PlainTag<'p>> PlainTag<'p> for ResultTag<I, E> {
    proof fn lemma_encoded_is_plain(value: Self::Type) {
        match value {
            Ok(inner) => {
                I::lemma_encoded_is_plain(inner);
            },
            Err(inner) => {
                E::lemma_encoded_is_plain(inner);
            },
        }
    }
}

impl<'p> PlainTag<'p> for ErrorLocation {
    proof fn lemma_encoded_is_plain(value: Self::Type) {
    }
}

impl<'p> PlainTag<'p> for ErrorMessage {
    proof fn lemma_encoded_is_plain(value: Self::Type) {
    }
}

} // verus!
