use engine::{
    ErrorLocation, ErrorMessage, ErrorSource, Location, Provisions, Report, Value,
};

fn here(line: u32) -> Location {
    Location::new("src/main.rs", line, 5)
}

fn built(first: &str, contexts: &[&str]) -> Report {
    let mut report = Report::from_message(first.to_string(), here(1));
    let mut line = 2;
    for context in contexts {
        report = report.context(context.to_string(), here(line));
        line += 1;
    }
    report
}

#[test]
fn display_shows_newest_message() {
    let report = Report::from_message("x".to_string(), here(1)).context("y".to_string(), here(2));
    assert_eq!(report.display(), "y");
    assert_eq!(report.display_alternate(), "y: x");
}

#[test]
fn display_of_a_single_frame() {
    let report = Report::from_message("x".to_string(), here(1));
    assert_eq!(report.display(), "x");
    assert_eq!(report.display_alternate(), "x");
}

#[test]
fn alternate_display_stops_at_the_direct_cause() {
    let report = built("a", &["b", "c"]);
    assert_eq!(report.display(), "c");
    assert_eq!(report.display_alternate(), "c: b");
}

#[test]
fn request_messages_newest_first() {
    let report = Report::from_message("a".to_string(), here(1))
        .context("b".to_string(), here(2))
        .context("c".to_string(), here(3));
    let mut request = report.request::<ErrorMessage>();
    let mut seen = Vec::new();
    while let Some(message) = request.next() {
        seen.push(message);
    }
    assert_eq!(seen, vec!["c".to_string(), "b".to_string(), "a".to_string()]);
    assert_eq!(request.next(), None);
}

#[test]
fn collected_answers_come_newest_first() {
    let report = Report::from_message("a".to_string(), here(1))
        .provide(Provisions::new().with::<Value<u64>>(10).with::<Value<u64>>(11), here(2))
        .context("b".to_string(), here(3))
        .provide(Provisions::new().with::<Value<u64>>(20), here(4))
        .context("c".to_string(), here(5));
    assert_eq!(report.request_value::<u64>().collect(), vec![20, 10]);
    assert_eq!(report.request_value::<bool>().collect(), Vec::<bool>::new());
    assert_eq!(
        report.request::<ErrorMessage>().collect(),
        vec!["c", "<Unknown error>", "b", "<Unknown error>", "a"]
    );
    let mut request = report.request::<ErrorMessage>();
    assert_eq!(request.next(), Some("c".to_string()));
    assert_eq!(request.collect(), vec!["<Unknown error>", "b", "<Unknown error>", "a"]);
}

#[test]
fn chain_has_one_frame_per_context_and_one_more() {
    for n in 1..6usize {
        let contexts: Vec<String> = (0..n).map(|i| format!("context {}", i)).collect();
        let names: Vec<&str> = contexts.iter().map(|c| c.as_str()).collect();
        let report = built("m0", &names);
        assert_eq!(report.chain().count(), n + 1);
        let frames = report.chain().collect();
        assert_eq!(frames.len(), n + 1);
        assert_eq!(frames[n].message(), "m0");
        assert_eq!(frames[0].message(), format!("context {}", n - 1));
        for (i, frame) in frames.iter().take(n).enumerate() {
            assert_eq!(frame.message(), format!("context {}", n - 1 - i));
        }
    }
}

#[test]
fn chain_of_a_fresh_report_has_one_frame() {
    let report = Report::from_message("only".to_string(), here(1));
    assert_eq!(report.chain().count(), 1);
    let mut chain = report.chain();
    assert_eq!(chain.next().unwrap().message(), "only");
    assert!(chain.next().is_none());
    assert!(chain.next().is_none());
}

#[test]
fn chain_restarts_on_every_call() {
    let report = built("a", &["b"]);
    let mut first = report.chain();
    assert_eq!(first.next().unwrap().message(), "b");
    let mut second = report.chain();
    assert_eq!(second.next().unwrap().message(), "b");
    assert_eq!(first.next().unwrap().message(), "a");
    let copy = second.clone();
    assert_eq!(copy.count(), 1);
    assert_eq!(second.count(), 1);
}

#[test]
fn wrapping_the_same_message_many_times_stays_finite() {
    let mut report = Report::from_message("same".to_string(), here(1));
    for _ in 0..100 {
        report = report.context("same".to_string(), here(1));
    }
    assert_eq!(report.chain().count(), 101);
}

#[test]
fn backtrace_is_carried_unchanged_through_wraps() {
    let report = Report::from_message("a".to_string(), here(1));
    let status = format!("{:?}", report.backtrace().status());
    let text = format!("{}", report.backtrace());
    let spans = format!("{}", report.span_trace());
    let report = report.context("b".to_string(), here(2));
    assert_eq!(format!("{:?}", report.backtrace().status()), status);
    assert_eq!(format!("{}", report.backtrace()), text);
    let report = report
        .provide(Provisions::new().with::<Value<u64>>(1), here(3))
        .context("c".to_string(), here(4));
    assert_eq!(format!("{:?}", report.backtrace().status()), status);
    assert_eq!(format!("{}", report.backtrace()), text);
    assert_eq!(format!("{}", report.span_trace()), spans);
}

#[test]
fn request_passes_over_frames_without_an_answer() {
    let report = Report::from_message("a".to_string(), here(1))
        .provide(Provisions::new().with::<Value<u64>>(10).with::<Value<u64>>(11), here(2))
        .context("b".to_string(), here(3))
        .provide(Provisions::new().with::<Value<u64>>(20), here(4))
        .context("c".to_string(), here(5));
    let mut request = report.request_value::<u64>();
    assert_eq!(request.next(), Some(20));
    let rest = request.clone();
    assert_eq!(request.next(), Some(10));
    assert_eq!(request.next(), None);
    assert_eq!(request.next(), None);
    let mut rest = rest;
    assert_eq!(rest.next(), Some(10));

    let mut none = report.request_value::<i64>();
    assert_eq!(none.next(), None);
    let mut lent = report.request_ref::<u64>();
    assert_eq!(lent.next(), None);
}

#[test]
fn request_locations_and_sources() {
    let report = built("a", &["b", "c"]);
    let mut locations = report.request::<ErrorLocation>();
    assert_eq!(locations.next().unwrap().line(), 3);
    assert_eq!(locations.next().unwrap().line(), 2);
    assert_eq!(locations.next().unwrap().line(), 1);
    assert!(locations.next().is_none());

    let mut sources = report.request::<ErrorSource>();
    assert_eq!(sources.next().unwrap().message(), "b");
    assert_eq!(sources.next().unwrap().message(), "a");
    assert!(sources.next().is_none());
}

#[test]
fn provide_adds_a_frame_without_a_message_of_its_own() {
    let report = Report::from_message("a".to_string(), here(1))
        .provide(Provisions::new().with::<Value<u64>>(1), here(2));
    assert_eq!(report.chain().count(), 2);
    assert_eq!(report.display(), "<Unknown error>");
    assert_eq!(report.display_alternate(), "<Unknown error>: a");
}

#[test]
fn from_provider_and_from_error_begin_a_report() {
    let report = Report::from_provider(
        Provisions::new().with::<ErrorMessage>("provided".to_string()),
        here(1),
    );
    assert_eq!(report.chain().count(), 1);
    assert_eq!(report.display(), "provided");

    let parse = "x".parse::<u32>().unwrap_err();
    let report = Report::from_error(parse, here(2));
    assert_eq!(report.chain().count(), 1);
    assert_eq!(report.display(), "invalid digit found in string");

    let report = Report::from_displayed_error("already shown".to_string(), here(3));
    assert_eq!(report.display(), "already shown");
}

#[test]
fn debug_lists_causes() {
    let report = Report::from_message("a".to_string(), here(1))
        .context("b".to_string(), here(2))
        .context("c".to_string(), here(30));
    let text = report.debug_with(None, None);
    assert_eq!(
        text,
        "c\n             at src/main.rs:30:5\n\nCaused by:\n   0: b\n             at src/main.rs:2:5\n   1: a\n             at src/main.rs:1:5"
    );
}

#[test]
fn debug_of_a_single_frame_has_no_causes() {
    let report = Report::from_message("a".to_string(), here(1));
    assert_eq!(report.debug_with(None, None), "a\n             at src/main.rs:1:5");
}

#[test]
fn debug_appends_the_traces_that_are_given() {
    let report = Report::from_message("a".to_string(), here(1)).context("b".to_string(), here(2));
    let head = "b\n             at src/main.rs:2:5\n\nCaused by:\n   0: a\n             at src/main.rs:1:5";
    assert_eq!(
        report.debug_with(Some("frames"), None),
        format!("{}\n\nStack backtrace:\nframes", head)
    );
    assert_eq!(
        report.debug_with(None, Some("spans")),
        format!("{}\n\nSpan trace:\nspans", head)
    );
    assert_eq!(
        report.debug_with(Some("frames"), Some("spans")),
        format!("{}\n\nStack backtrace:\nframes\n\nSpan trace:\nspans", head)
    );
}

#[test]
fn debug_numbers_causes_past_nine() {
    let mut report = Report::from_message("m".to_string(), here(1));
    for _ in 0..12 {
        report = report.context("m".to_string(), here(1));
    }
    let text = report.debug_with(None, None);
    assert!(text.contains("\n   9: m\n"));
    assert!(text.contains("\n   10: m\n"));
    assert!(text.ends_with("\n   11: m\n             at src/main.rs:1:5"));
}

#[test]
fn debug_shows_a_given_trace_only_if_it_was_captured() {
    let report = Report::from_message("a".to_string(), here(1));
    let head = "a\n             at src/main.rs:1:5";
    assert_eq!(report.debug_given(false, "frames", false, "spans"), head);
    assert_eq!(
        report.debug_given(true, "frames", false, "spans"),
        format!("{}\n\nStack backtrace:\nframes", head)
    );
    assert_eq!(
        report.debug_given(false, "frames", true, "spans"),
        format!("{}\n\nSpan trace:\nspans", head)
    );
    assert_eq!(
        report.debug_given(true, "frames", true, "spans"),
        format!("{}\n\nStack backtrace:\nframes\n\nSpan trace:\nspans", head)
    );
    assert_eq!(report.debug_given(true, "", true, ""), format!("{}\n\nStack backtrace:\n\n\nSpan trace:\n", head));
}

#[test]
fn debug_shows_a_trace_only_if_it_was_captured() {
    let report = Report::from_message("a".to_string(), here(1)).context("b".to_string(), here(2));
    let text = report.debug();
    let mut expected = report.debug_with(None, None);
    if format!("{:?}", report.backtrace().status()) == "Captured" {
        expected.push_str("\n\nStack backtrace:\n");
        expected.push_str(&format!("{}", report.backtrace()));
    }
    assert_eq!(text, expected);
    assert!(!text.contains("Span trace"));
}
