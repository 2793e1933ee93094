//! Providers: whatever can deposit typed values into a requisition.

use vstd::prelude::*;
use crate::datum::{DatumView, Plain};
use crate::requisition::{
    lemma_plain_offer_is_taken,
    plain_offer,
    Requisition,
    RequisitionView,
};
use crate::tag::TagId;
use crate::tags::{PlainTag, TypeTag};

verus! {

/// Something that carries typed data and hands it out on request.
///
/// A provider is asked with a requisition and deposits everything it has.
/// It does not know, and need not ask, which tag is wanted: the
/// requisition keeps the first value deposited under its own tag and drops
/// the rest. Providing changes nothing in the provider.
///
/// What a provider deposits are plain values. The one provider that has
/// more is a frame, which lends the frame it was wrapped around; only a
/// requisition that a chain made for its frames takes that.
pub trait Provider {
    /// What this provider has for `tag`: the first value it would deposit
    /// under that tag, if it deposits any.
    spec fn provided(&self, tag: TagId) -> Option<DatumView>;

    /// Deposits into `requisition` every value this provider can supply.
    fn provide<'p>(&'p self, requisition: &mut Requisition<'p>)
        ensures
            final(requisition)@ == old(requisition)@.offer(self.provided(old(requisition)@.tag)),
    ;
}

/// Whether `value` is what a request for the tag `I` returns where the
/// provider has `offer` for that tag: the value that travels as the
/// offered datum, or nothing where there is no offer or the offer does not
/// have the tag's shape.
pub open spec fn answers<'p, I: TypeTag<'p>>(
    offer: Option<DatumView>,
    value: Option<I::Type>,
) -> bool {
    match offer {
        Some(datum) => {
            &&& value is Some <==> I::carries(datum)
            &&& value matches Some(value) ==> I::encoded(value) == datum
        },
        None => value is None,
    }
}

/// Requests the value tagged `I` from `provider`: runs the provider once
/// against a fresh requisition bound to `I` and reads the slot. The
/// requisition is not linked to a chain, so no frame is lent to it.
pub fn request_by_type_tag<'p, I: TypeTag<'p>, P: Provider + ?Sized>(provider: &'p P) -> (value:
    Option<I::Type>)
    ensures
        answers::<I>(plain_offer(provider.provided(I::identity())), value),
{
    let mut requisition = Requisition::new(I::id(), false);
    provider.provide(&mut requisition);
    match requisition.into_slot() {
        Some(datum) => I::decode(datum),
        None => None,
    }
}

/// Requests the value tagged `I` from `fill`: calls it once with a fresh
/// requisition bound to `I` and reads the slot. The requisition is not
/// linked to a chain, so no frame is lent to it.
pub fn request_by_tag<'p, I: TypeTag<'p>, F: FnOnce(&mut Requisition<'p>)>(fill: F) -> (value:
    Option<I::Type>)
    requires
        forall|requisition: &mut Requisition<'p>|
            (*requisition)@ == RequisitionView::empty(I::identity()) ==> #[trigger] fill.requires(
                (requisition,),
            ),
    ensures
        exists|requisition: &mut Requisition<'p>|
            {
                &&& (*requisition)@ == RequisitionView::empty(I::identity())
                &&& #[trigger] fill.ensures((requisition,), ())
                &&& answers::<I>((*final(requisition))@.slot, value)
            },
{
    let mut requisition = Requisition::new(I::id(), false);
    fill(&mut requisition);
    match requisition.into_slot() {
        Some(datum) => I::decode(datum),
        None => None,
    }
}

/// One offer: a value without a frame, and the tag it is offered under.
struct Offer {
    tag: TagId,
    plain: Plain<'static>,
}

/// A provider made of an ordered list of offers: values, each under its
/// tag. Earlier offers take precedence.
pub struct Provisions {
    entries: Vec<Offer>,
}

/// The first datum offered under `tag` in `offers`.
pub open spec fn first_offer(offers: Seq<(TagId, DatumView)>, tag: TagId) -> Option<DatumView>
    decreases offers.len(),
{
    if offers.len() == 0 {
        None
    } else if offers[0].0 == tag {
        Some(offers[0].1)
    } else {
        first_offer(offers.drop_first(), tag)
    }
}

/// The sink after every offer of `offers` was deposited in turn.
pub open spec fn deposit_all(sink: RequisitionView, offers: Seq<(TagId, DatumView)>) ->
    RequisitionView
    decreases offers.len(),
{
    if offers.len() == 0 {
        sink
    } else {
        deposit_all(sink.deposit(offers[0].0, offers[0].1), offers.drop_first())
    }
}

/// Depositing a list of offers in turn stores the first one made under the
/// sink's tag, and only if the sink was empty.
pub proof fn lemma_deposit_all_keeps_first(sink: RequisitionView, offers: Seq<(TagId, DatumView)>)
    ensures
        deposit_all(sink, offers) == (match first_offer(offers, sink.tag) {
            Some(datum) => sink.deposit(sink.tag, datum),
            None => sink,
        }),
    decreases offers.len(),
{
    if offers.len() > 0 {
        let next = sink.deposit(offers[0].0, offers[0].1);
        lemma_deposit_all_keeps_first(next, offers.drop_first());
        if sink.slot is Some {
            lemma_full_sink_keeps_its_value(sink, offers);
        }
    }
}

/// Offers made under other tags never answer a request: where no offer
/// of the list was made under `tag`, the list has nothing for `tag`.
pub proof fn lemma_other_tags_never_answer(offers: Seq<(TagId, DatumView)>, tag: TagId)
    requires
        forall|i: int| 0 <= i < offers.len() ==> (#[trigger] offers[i]).0 != tag,
    ensures
        first_offer(offers, tag) is None,
    decreases offers.len(),
{
    if offers.len() > 0 {
        let rest = offers.drop_first();
        assert forall|i: int| 0 <= i < rest.len() implies (#[trigger] rest[i]).0 != tag by {
            assert(rest[i] == offers[i + 1]);
        }
        lemma_other_tags_never_answer(rest, tag);
    }
}

/// Of two offers made under one tag, the earlier is the answer.
pub proof fn lemma_earlier_offer_wins(tag: TagId, first: DatumView, second: DatumView)
    ensures
        first_offer(seq![(tag, first), (tag, second)], tag) == Some(first),
        deposit_all(RequisitionView::empty(tag), seq![(tag, first), (tag, second)]).slot == Some(
            first,
        ),
{
    lemma_deposit_all_keeps_first(RequisitionView::empty(tag), seq![(tag, first), (tag, second)]);
}

/// A sink that already holds a value is changed by no list of offers.
pub proof fn lemma_full_sink_keeps_its_value(sink: RequisitionView, offers: Seq<(TagId, DatumView)>)
    requires
        sink.slot is Some,
    ensures
        deposit_all(sink, offers) == sink,
    decreases offers.len(),
{
    if offers.len() > 0 {
        lemma_full_sink_keeps_its_value(sink, offers.drop_first());
    }
}

/// Where no offer of a list holds a frame, neither does its answer.
pub proof fn lemma_first_offer_is_plain(offers: Seq<(TagId, DatumView)>, tag: TagId)
    requires
        forall|i: int| 0 <= i < offers.len() ==> (#[trigger] offers[i]).1.plain() is Some,
    ensures
        first_offer(offers, tag) matches Some(datum) ==> datum.plain() is Some,
    decreases offers.len(),
{
    if offers.len() > 0 && offers[0].0 != tag {
        let rest = offers.drop_first();
        assert forall|i: int| 0 <= i < rest.len() implies (#[trigger] rest[i]).1.plain()
            is Some by {
            assert(rest[i] == offers[i + 1]);
        }
        lemma_first_offer_is_plain(rest, tag);
    }
}

impl View for Provisions {
    type V = Seq<(TagId, DatumView)>;

    closed spec fn view(&self) -> Seq<(TagId, DatumView)> {
        Seq::new(
            self.entries@.len(),
            |i: int| (self.entries@[i].tag, self.entries@[i].plain@.datum()),
        )
    }
}

impl Provisions {
    /// No offer of a list of provisions holds a frame.
    pub proof fn lemma_offers_are_plain(&self)
        ensures
            forall|i: int| 0 <= i < self@.len() ==> (#[trigger] self@[i]).1.plain() is Some,
            forall|tag: TagId|
                #[trigger] self.provided(tag) matches Some(datum) ==> datum.plain() is Some,
    {
        assert forall|i: int| 0 <= i < self@.len() implies (#[trigger] self@[i]).1.plain()
            is Some by {
            self.entries@[i].plain@.lemma_datum_is_plain();
        }
        assert forall|tag: TagId| #[trigger]
            self.provided(tag) matches Some(datum) ==> datum.plain() is Some by {
            lemma_first_offer_is_plain(self@, tag);
        }
    }

    /// No offers.
    pub fn new() -> (provisions: Provisions)
        ensures
            provisions@ == Seq::<(TagId, DatumView)>::empty(),
    {
        let provisions = Provisions { entries: Vec::new() };
        assert(provisions@ =~= Seq::<(TagId, DatumView)>::empty());
        provisions
    }

    /// These offers, followed by `value` under the tag `I`.
    pub fn with<I: PlainTag<'static>>(self, value: I::Type) -> (provisions: Provisions)
        ensures
            provisions@ == self@.push((I::identity(), I::encoded(value))),
    {
        proof {
            I::lemma_encoded_is_plain(value);
            I::encoded(value).lemma_plain_is_same();
        }
        let mut entries = self.entries;
        match I::encode(value).into_plain() {
            Some(plain) => {
                entries.push(Offer { tag: I::id(), plain });
            },
            None => {
                assert(false);
            },
        }
        let provisions = Provisions { entries };
        assert(provisions@ =~= self@.push((I::identity(), I::encoded(value))));
        provisions
    }

    /// The number of offers.
    pub fn len(&self) -> (len: usize)
        ensures
            len == self@.len(),
    {
        self.entries.len()
    }

    /// Whether there is no offer.
    pub fn is_empty(&self) -> (empty: bool)
        ensures
            empty == (self@.len() == 0),
    {
        self.entries.len() == 0
    }
}

impl Provider for Provisions {
    open spec fn provided(&self, tag: TagId) -> Option<DatumView> {
        first_offer(self@, tag)
    }

    fn provide<'p>(&'p self, requisition: &mut Requisition<'p>) {
        let ghost before = requisition@;
        let mut i: usize = 0;
        assert(self@.skip(0) =~= self@);
        while i < self.entries.len()
            invariant
                i <= self.entries.len(),
                deposit_all(requisition@, self@.skip(i as int)) == deposit_all(before, self@),
            decreases self.entries.len() - i,
        {
            let entry = &self.entries[i];
            proof {
                let rest = self@.skip(i as int);
                assert(rest[0] == (entry.tag, entry.plain@.datum()));
                assert(rest.drop_first() =~= self@.skip(i + 1));
            }
            if requisition.accepts(&entry.tag) {
                requisition.fill(entry.plain.duplicate().into_datum());
            }
            i += 1;
        }
        proof {
            assert(self@.skip(i as int).len() == 0);
            lemma_deposit_all_keeps_first(before, self@);
            self.lemma_offers_are_plain();
            lemma_plain_offer_is_taken(before, self.provided(before.tag));
        }
    }
}

} // verus!
