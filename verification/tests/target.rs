use engine::target::{ENUM_MAX_TARGET, ENUM_MIN_TARGET};
use engine::Target;

#[test]
fn known_targets_have_names() {
    assert_eq!(Target(0).variant_name(), Some("Python"));
    assert_eq!(Target(1).variant_name(), Some("JavaScript"));
    assert_eq!(Target(2).variant_name(), Some("Rust"));
    assert_eq!(Target(3).variant_name(), Some("Main"));
    assert_eq!(Target(4).variant_name(), Some("Dynamic"));
}

#[test]
fn unknown_targets_have_no_name() {
    assert_eq!(Target(5).variant_name(), None);
    assert_eq!(Target(-1).variant_name(), None);
    assert_eq!(Target(i8::MAX).variant_name(), None);
    assert_eq!(Target(i8::MIN).variant_name(), None);
}

#[test]
fn named_constructors_match_the_bytes() {
    assert!(Target::python() == Target(0));
    assert!(Target::java_script() == Target(1));
    assert!(Target::rust() == Target(2));
    assert!(Target::main() == Target(3));
    assert!(Target::dynamic() == Target(4));
    assert!(Target::default() == Target::python());
    assert_eq!(ENUM_MIN_TARGET, 0);
    assert_eq!(ENUM_MAX_TARGET, 4);
}

#[test]
fn target_is_one_byte_on_the_wire() {
    let buf = [0u8, 3, 255, 128];
    assert!(Target::follow(&buf, 0) == Target(0));
    assert!(Target::follow(&buf, 1) == Target(3));
    assert!(Target::follow(&buf, 2) == Target(-1));
    assert!(Target::follow(&buf, 3) == Target(i8::MIN));

    let mut dst = [9u8, 9];
    Target(4).push(&mut dst);
    assert_eq!(dst, [4, 9]);
    Target(-2).push(&mut dst);
    assert_eq!(dst, [254, 9]);
    assert!(Target::follow(&dst, 0) == Target(-2));
}

#[test]
fn byte_order_leaves_a_target_unchanged() {
    assert!(Target(3).to_little_endian() == Target(3));
    assert!(Target(-7).from_little_endian() == Target(-7));
}

#[test]
fn known_targets_show_their_names() {
    assert_eq!(Target(0).debug(), "Python");
    assert_eq!(Target(1).debug(), "JavaScript");
    assert_eq!(Target(2).debug(), "Rust");
    assert_eq!(Target(3).debug(), "Main");
    assert_eq!(Target(4).debug(), "Dynamic");
}

#[test]
fn unknown_targets_show_their_byte() {
    assert_eq!(Target(5).debug(), "<UNKNOWN 5>");
    assert_eq!(Target(-1).debug(), "<UNKNOWN -1>");
    assert_eq!(Target(i8::MAX).debug(), "<UNKNOWN 127>");
    assert_eq!(Target(i8::MIN).debug(), "<UNKNOWN -128>");
    assert_eq!(Target(-7).debug(), format!("<UNKNOWN {:?}>", -7i8));
}
