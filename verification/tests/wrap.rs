use engine::{ErrorMessage, Location, Provisions, Report, Value, WrapReport};

fn here(line: u32) -> Location {
    Location::new("wrap.rs", line, 1)
}

fn never_made() -> Provisions {
    panic!("not called")
}

fn messages(report: &Report) -> Vec<String> {
    report.chain().collect().iter().map(|frame| frame.message()).collect()
}

#[test]
fn success_passes_through() {
    let ok: Result<u8, Report> = Ok(3);
    assert_eq!(ok.wrap_err("unused".to_string(), here(1)).ok(), Some(3));
    let ok: Result<u8, Report> = Ok(3);
    assert_eq!(ok.wrap_err_with(|| panic!("not called"), here(1)).ok(), Some(3));
    let ok: Result<u8, Report> = Ok(3);
    assert_eq!(WrapReport::provide(ok, Provisions::new(), here(1)).ok(), Some(3));
    let ok: Result<u8, Report> = Ok(3);
    assert_eq!(WrapReport::provide_with(ok, never_made, here(1)).ok(), Some(3));

    assert_eq!(Some(4).wrap_err("unused".to_string(), here(1)).ok(), Some(4));
    assert_eq!(Some(4).wrap_err_with(|| panic!("not called"), here(1)).ok(), Some(4));
    assert_eq!(WrapReport::provide(Some(4), Provisions::new(), here(1)).ok(), Some(4));
    assert_eq!(WrapReport::provide_with(Some(4), never_made, here(1)).ok(), Some(4));

    let parsed = "12".parse::<u32>();
    assert_eq!(parsed.wrap_err("unused".to_string(), here(1)).ok(), Some(12));
    let parsed = "12".parse::<u32>();
    assert_eq!(parsed.wrap_err_with(|| panic!("not called"), here(1)).ok(), Some(12));
}

#[test]
fn failing_report_gets_one_more_frame() {
    let failed: Result<u8, Report> = Err(Report::from_message("one".to_string(), here(1)));
    let report = failed.wrap_err("two".to_string(), here(2)).unwrap_err();
    assert_eq!(messages(&report), vec!["two", "one"]);

    let failed: Result<u8, Report> = Err(report);
    let report = failed.wrap_err_with(|| format!("This is #{}", 3), here(3)).unwrap_err();
    assert_eq!(messages(&report), vec!["This is #3", "two", "one"]);

    let failed: Result<u8, Report> = Err(report);
    let report =
        WrapReport::provide(failed, Provisions::new().with::<Value<u64>>(10), here(4)).unwrap_err();
    assert_eq!(report.chain().count(), 4);
    assert_eq!(report.request_value::<u64>().next(), Some(10));

    let failed: Result<u8, Report> = Err(report);
    let report = WrapReport::provide_with(
        failed,
        || Provisions::new().with::<ErrorMessage>("made".to_string()),
        here(5),
    )
    .unwrap_err();
    assert_eq!(report.chain().count(), 5);
    assert_eq!(report.display(), "made");
    assert_eq!(report.chain().next().unwrap().location().line(), 5);
}

#[test]
fn failing_error_becomes_two_frames() {
    let report = "x".parse::<u32>().wrap_err("parsing".to_string(), here(7)).unwrap_err();
    assert_eq!(messages(&report), vec!["parsing", "invalid digit found in string"]);
    let frames = report.chain().collect();
    assert_eq!(frames[0].location().line(), 7);
    assert_eq!(frames[1].location().line(), 7);

    let report = "x".parse::<u32>().wrap_err_with(|| "lazily".to_string(), here(8)).unwrap_err();
    assert_eq!(messages(&report), vec!["lazily", "invalid digit found in string"]);

    let report = WrapReport::provide(
        "x".parse::<u32>(),
        Provisions::new().with::<Value<u64>>(1),
        here(9),
    )
    .unwrap_err();
    assert_eq!(messages(&report), vec!["<Unknown error>", "invalid digit found in string"]);
    assert_eq!(report.request_value::<u64>().next(), Some(1));

    let report = WrapReport::provide_with(
        "x".parse::<u32>(),
        || Provisions::new().with::<Value<u64>>(2),
        here(9),
    )
    .unwrap_err();
    assert_eq!(report.chain().count(), 2);
    assert_eq!(report.request_value::<u64>().next(), Some(2));
}

#[test]
fn none_becomes_a_report_of_one_frame() {
    let none: Option<u8> = None;
    let report = none.wrap_err("missing".to_string(), here(1)).unwrap_err();
    assert_eq!(messages(&report), vec!["missing"]);
    assert_eq!(report.chain().next().unwrap().location().line(), 1);

    let none: Option<u8> = None;
    let report = none.wrap_err_with(|| "missing too".to_string(), here(2)).unwrap_err();
    assert_eq!(messages(&report), vec!["missing too"]);

    let none: Option<u8> = None;
    let report =
        WrapReport::provide(none, Provisions::new().with::<Value<i64>>(-1), here(3)).unwrap_err();
    assert_eq!(report.chain().count(), 1);
    assert_eq!(report.request_value::<i64>().next(), Some(-1));

    let none: Option<u8> = None;
    let report = WrapReport::provide_with(
        none,
        || Provisions::new().with::<Value<bool>>(true),
        here(4),
    )
    .unwrap_err();
    assert_eq!(report.chain().count(), 1);
    assert_eq!(report.request_value::<bool>().next(), Some(true));
}
