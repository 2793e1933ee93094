use engine::{ErrorMessage, Frame, OptionTag, Provisions, Ref, Report, Tagged, Value};

#[test]
fn tagged_value_knows_its_tag() {
    let tagged = Tagged::tag::<Value<u64>>(5);
    assert!(tagged.is::<Value<u64>>());
    assert!(!tagged.is::<Ref<u64>>());
    assert!(!tagged.is::<Value<i64>>());
    assert!(!tagged.is::<OptionTag<Value<u64>>>());
}

#[test]
fn downcast_gives_the_value_back_under_its_own_tag() {
    let tagged = Tagged::tag::<Value<u64>>(5);
    assert_eq!(tagged.downcast_ref::<Value<u64>>(), Some(5));
    assert_eq!(tagged.downcast_ref::<Value<u64>>(), Some(5));
    assert_eq!(tagged.downcast::<Value<u64>>().ok(), Some(5));

    let text = "lent".to_string();
    let tagged = Tagged::tag::<Ref<String>>(&text);
    assert_eq!(tagged.downcast_ref::<Ref<String>>(), Some(&text));
}

#[test]
fn downcast_under_another_tag_hands_the_value_back() {
    let tagged = Tagged::tag::<ErrorMessage>("message".to_string());
    assert_eq!(tagged.downcast_ref::<Value<String>>(), None);
    let tagged = match tagged.downcast::<Value<String>>() {
        Ok(_) => panic!("the tags differ"),
        Err(tagged) => tagged,
    };
    assert!(tagged.is::<ErrorMessage>());
    assert_eq!(tagged.downcast::<ErrorMessage>().ok(), Some("message".to_string()));
}

#[test]
fn tag_alone_does_not_decide_a_downcast() {
    let mut tagged = Tagged::tag::<Value<u64>>(5);
    tagged.tag = <Value<i64> as engine::TypeTag>::id();
    assert!(tagged.is::<Value<i64>>());
    assert_eq!(tagged.downcast_ref::<Value<i64>>(), None);
    assert!(tagged.downcast::<Value<i64>>().is_err());
}

#[test]
fn copies_keep_tag_and_value() {
    let tagged = Tagged::tag::<OptionTag<ErrorMessage>>(Some("m".to_string()));
    let copy = tagged.duplicate();
    assert!(copy.is::<OptionTag<ErrorMessage>>());
    assert_eq!(copy.downcast::<OptionTag<ErrorMessage>>().ok(), Some(Some("m".to_string())));
    assert_eq!(tagged.downcast::<OptionTag<ErrorMessage>>().ok(), Some(Some("m".to_string())));
}

fn shareable<T: Send + Sync + 'static>() {}

#[test]
fn reports_can_cross_threads() {
    shareable::<Report>();
    shareable::<Frame>();
    shareable::<Provisions>();
    shareable::<Tagged<'static>>();
}
