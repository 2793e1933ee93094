use engine::{
    request_by_type_tag, ErrorMessage, OptionTag, Provisions, Ref, ResultTag, Value,
};

#[test]
fn empty_provisions_offer_nothing() {
    let provisions = Provisions::new();
    assert!(provisions.is_empty());
    assert_eq!(provisions.len(), 0);
    assert_eq!(request_by_type_tag::<Value<u64>, _>(&provisions), None);
    assert_eq!(request_by_type_tag::<ErrorMessage, _>(&provisions), None);
}

#[test]
fn provider_that_deposits_twice_stores_the_first() {
    let provisions = Provisions::new()
        .with::<Value<u64>>(10)
        .with::<Value<u64>>(11)
        .with::<Value<u64>>(12)
        .with::<ErrorMessage>("ExampleWrappingError".to_string());
    assert_eq!(provisions.len(), 4);
    assert!(!provisions.is_empty());
    assert_eq!(request_by_type_tag::<Value<u64>, _>(&provisions), Some(10));
    assert_eq!(
        request_by_type_tag::<ErrorMessage, _>(&provisions),
        Some("ExampleWrappingError".to_string())
    );
}

#[test]
fn providing_is_repeatable() {
    let provisions = Provisions::new().with::<Value<String>>("kept".to_string());
    assert_eq!(request_by_type_tag::<Value<String>, _>(&provisions), Some("kept".to_string()));
    assert_eq!(request_by_type_tag::<Value<String>, _>(&provisions), Some("kept".to_string()));
}

#[test]
fn distinct_tags_never_answer_for_each_other() {
    let provisions = Provisions::new().with::<Ref<u64>>(&5);
    assert_eq!(request_by_type_tag::<Value<u64>, _>(&provisions), None);
    assert_eq!(request_by_type_tag::<Ref<u64>, _>(&provisions), Some(&5));

    let provisions = Provisions::new().with::<Value<String>>("raw".to_string());
    assert_eq!(request_by_type_tag::<ErrorMessage, _>(&provisions), None);
    assert_eq!(request_by_type_tag::<Ref<String>, _>(&provisions), None);
}

#[test]
fn each_tag_has_its_own_first_offer() {
    let provisions = Provisions::new()
        .with::<Value<i64>>(-1)
        .with::<Value<u64>>(1)
        .with::<Value<bool>>(true)
        .with::<Value<i64>>(-2)
        .with::<Value<bool>>(false);
    assert_eq!(request_by_type_tag::<Value<i64>, _>(&provisions), Some(-1));
    assert_eq!(request_by_type_tag::<Value<u64>, _>(&provisions), Some(1));
    assert_eq!(request_by_type_tag::<Value<bool>, _>(&provisions), Some(true));
}

#[test]
fn combinators_travel_through_provisions() {
    let provisions = Provisions::new()
        .with::<OptionTag<Value<u64>>>(None)
        .with::<ResultTag<Value<u64>, ErrorMessage>>(Err("failed".to_string()))
        .with::<OptionTag<Value<u64>>>(Some(4));
    assert_eq!(request_by_type_tag::<OptionTag<Value<u64>>, _>(&provisions), Some(None));
    assert_eq!(
        request_by_type_tag::<ResultTag<Value<u64>, ErrorMessage>, _>(&provisions),
        Some(Err("failed".to_string()))
    );
    assert_eq!(request_by_type_tag::<Value<u64>, _>(&provisions), None);
    assert_eq!(request_by_type_tag::<OptionTag<OptionTag<Value<u64>>>, _>(&provisions), None);
}
