use engine::{
    request_by_type_tag, ErrorLocation, ErrorMessage, ErrorSource, ErrorType, Frame, Location,
    Provisions, Ref, Value,
};

fn at(line: u32) -> Location {
    Location::new("lib.rs", line, 9)
}

#[test]
fn leaf_has_no_source() {
    let frame = Frame::leaf(ErrorType::Message("origin".to_string()), at(1));
    assert!(frame.source().is_none());
    assert_eq!(frame.message(), "origin");
    assert_eq!(frame.location().line(), 1);
    assert_eq!(frame.location().column(), 9);
    assert_eq!(frame.location().file(), "lib.rs");
}

#[test]
fn wrap_owns_the_previous_frame() {
    let origin = Frame::leaf(ErrorType::Error("io failed".to_string()), at(1));
    let frame = Frame::wrap(ErrorType::Message("while reading".to_string()), at(2), origin);
    assert_eq!(frame.message(), "while reading");
    let source = frame.source().unwrap();
    assert_eq!(source.message(), "io failed");
    assert_eq!(source.location().line(), 1);
    assert!(source.source().is_none());
}

#[test]
fn message_does_not_include_the_source() {
    let origin = Frame::leaf(ErrorType::Message("inner".to_string()), at(1));
    let frame = Frame::wrap(ErrorType::Message("outer".to_string()), at(2), origin);
    assert_eq!(frame.message(), "outer");
}

#[test]
fn frame_offers_message_location_and_source() {
    let origin = Frame::leaf(ErrorType::Message("inner".to_string()), at(1));
    let frame = Frame::wrap(ErrorType::Message("outer".to_string()), at(2), origin);
    assert_eq!(frame.request::<ErrorMessage>(), Some("outer".to_string()));
    let location = frame.request::<ErrorLocation>().unwrap();
    assert_eq!(location.line(), 2);
    let source = frame.request::<ErrorSource>().unwrap();
    assert_eq!(source.message(), "inner");
    assert!(source.request::<ErrorSource>().is_none());
    assert_eq!(source.request::<ErrorLocation>().unwrap().line(), 1);
}

#[test]
fn frame_facts_are_not_reachable_under_type_tags() {
    let origin = Frame::leaf(ErrorType::Message("inner".to_string()), at(1));
    let frame = Frame::wrap(ErrorType::Message("outer".to_string()), at(2), origin);
    assert_eq!(frame.request::<Value<String>>(), None);
    assert_eq!(frame.request_value::<String>(), None);
    assert!(frame.request_value::<Location>().is_none());
    assert!(frame.request_ref::<String>().is_none());
}

#[test]
fn frame_forwards_to_its_provider() {
    let provisions = Provisions::new()
        .with::<Value<u64>>(10)
        .with::<Value<u64>>(11)
        .with::<Ref<i64>>(&-4);
    let frame = Frame::leaf(ErrorType::provider(provisions), at(3));
    assert_eq!(frame.request_value::<u64>(), Some(10));
    assert_eq!(frame.request_ref::<i64>(), Some(&-4));
    assert_eq!(frame.request_value::<i64>(), None);
    assert_eq!(request_by_type_tag::<Value<u64>, Frame>(&frame), Some(10));
}

#[test]
fn provider_without_message_is_an_unknown_error() {
    let frame = Frame::leaf(ErrorType::provider(Provisions::new().with::<Value<u64>>(1)), at(3));
    assert_eq!(frame.message(), "<Unknown error>");
    assert_eq!(frame.request::<ErrorMessage>(), Some("<Unknown error>".to_string()));
}

#[test]
fn provider_message_is_the_frame_message() {
    let provisions = Provisions::new()
        .with::<Value<u64>>(1)
        .with::<ErrorMessage>("ExampleWrappingError".to_string());
    let frame = Frame::leaf(ErrorType::provider(provisions), at(3));
    assert_eq!(frame.message(), "ExampleWrappingError");
    assert_eq!(frame.request::<ErrorMessage>(), Some("ExampleWrappingError".to_string()));
}

#[test]
fn provider_message_of_another_shape_is_not_a_message() {
    let provisions = Provisions::new().with::<Value<String>>("by value".to_string());
    let frame = Frame::leaf(ErrorType::provider(provisions), at(3));
    assert_eq!(frame.message(), "<Unknown error>");
}

#[test]
fn frame_facts_come_before_the_provider() {
    let provisions = Provisions::new().with::<ErrorLocation>(at(99));
    let frame = Frame::leaf(ErrorType::provider(provisions), at(3));
    assert_eq!(frame.request::<ErrorLocation>().unwrap().line(), 3);
}

#[test]
fn a_frame_lends_its_source_only_to_its_chain() {
    let origin = Frame::leaf(ErrorType::Message("own".to_string()), at(1));
    let wrapped = Frame::wrap(ErrorType::Message("outer".to_string()), at(3), origin);
    assert_eq!(wrapped.request::<ErrorSource>().unwrap().message(), "own");
    assert!(request_by_type_tag::<ErrorSource, Frame>(&wrapped).is_none());
    assert_eq!(
        request_by_type_tag::<ErrorMessage, Frame>(&wrapped),
        Some("outer".to_string())
    );
    assert_eq!(request_by_type_tag::<ErrorLocation, Frame>(&wrapped).unwrap().line(), 3);
}

#[test]
fn attachment_hands_out_combinators() {
    let provisions = Provisions::new()
        .with::<engine::OptionTag<Value<u64>>>(Some(3))
        .with::<engine::ResultTag<Value<bool>, ErrorMessage>>(Err("no".to_string()));
    let frame = Frame::leaf(ErrorType::provider(provisions), at(3));
    assert_eq!(frame.request::<engine::OptionTag<Value<u64>>>(), Some(Some(3)));
    assert_eq!(
        frame.request::<engine::ResultTag<Value<bool>, ErrorMessage>>(),
        Some(Err("no".to_string()))
    );
    assert_eq!(frame.request::<engine::OptionTag<Value<i64>>>(), None);
}
