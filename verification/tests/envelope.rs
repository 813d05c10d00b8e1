use location_error::{
    decode, encode, AddLocation, DisplayString, Location, LocationError, ToLocation, WireError,
};

fn site(file: &str, line: u32, col: u32) -> Location {
    Location::new(String::from(file), line, col)
}

fn failure(message: &str) -> anyhow::Error {
    anyhow::Error::msg(String::from(message))
}

#[test]
fn location_error_serde() {
    let err: LocationError = Err::<(), anyhow::Error>(failure("Some message"))
        .loc(site("lib.rs", 200, 15))
        .unwrap_err();

    let wire: WireError = encode(&err);
    assert_eq!(wire.source, "Some message");
    assert_eq!(wire.backtrace.len(), 1);

    let recovered = decode(wire);
    assert_eq!(encode(&recovered).source, "Some message");
    assert_eq!(recovered.backtrace, vec![site("lib.rs", 200, 15)]);
}

#[test]
fn create_then_append_grows_in_call_order() {
    let a = site("a.rs", 1, 1);
    let b = site("b.rs", 2, 2);
    let c = site("c.rs", 3, 3);
    let e = LocationError::new(failure("boom"), a.clone());
    assert_eq!(e.backtrace.len(), 1);
    let e = e.add_location(b.clone());
    let e = e.add_location(c.clone());
    assert_eq!(e.backtrace.len(), 3);
    assert_eq!(e.backtrace, vec![a, b, c]);
}

#[test]
fn silent_capture_starts_empty_and_appends_still_work() {
    let r: Result<u32, anyhow::Error> = Err(failure("quiet"));
    let e = r.no_loc().unwrap_err();
    assert_eq!(e.backtrace.len(), 0);

    let later = site("later.rs", 7, 8);
    let r2: Result<u32, LocationError> = Err(e);
    let e2 = r2.loc(later.clone()).unwrap_err();
    assert_eq!(e2.backtrace, vec![later]);
}

#[test]
fn location_ordering_is_lexicographic() {
    let l1 = site("a.txt", 1, 1);
    let l2 = site("a.txt", 1, 2);
    let l3 = site("a.txt", 2, 1);
    let l4 = site("b.txt", 0, 0);
    assert!(l1 < l2);
    assert!(l2 < l3);
    assert!(l3 < l4);
    assert!(l4 > l1);
    assert_eq!(l1, site("a.txt", 1, 1));
    assert_eq!(
        l1.partial_cmp(&site("a.txt", 1, 1)),
        Some(std::cmp::Ordering::Equal)
    );
}

#[test]
fn context_never_changes_backtrace_length() {
    let e = LocationError::new(failure("root"), site("x.rs", 5, 5));
    let e = e.context(String::from("outer"));
    assert_eq!(e.backtrace.len(), 1);

    let r: Result<u32, anyhow::Error> = Err(failure("root"));
    let e2 = r.no_loc().unwrap_err();
    let e2 = e2.context(String::from("outer"));
    assert_eq!(e2.backtrace.len(), 0);

    let r3: Result<u32, LocationError> = Err(e2);
    let e3 = r3.context(String::from("outermost")).unwrap_err();
    assert_eq!(e3.backtrace.len(), 0);
}

#[test]
fn absent_option_captures_sentinel_message() {
    let o: Option<u32> = None;
    let e = o.loc(site("opt.rs", 3, 9)).unwrap_err();
    assert_eq!(encode(&e).source, "Option was None");
    assert_eq!(e.backtrace.len(), 1);

    let o2: Option<u32> = None;
    let e2 = o2.no_loc().unwrap_err();
    assert_eq!(encode(&e2).source, "Option was None");
    assert_eq!(e2.backtrace.len(), 0);

    let o3: Option<u32> = Some(17);
    assert!(matches!(o3.loc(site("opt.rs", 4, 1)), Ok(17)));
    let o4: Option<u32> = Some(18);
    assert!(matches!(o4.no_loc(), Ok(18)));
}

#[test]
fn context_layers_render_outermost_first() {
    let e = LocationError::new(failure("root cause"), site("deep.rs", 9, 9));
    let e = e.context(String::from("while reading"));
    let e = e.context(String::from("request failed"));
    assert_eq!(
        encode(&e).source,
        "request failed: while reading: root cause"
    );
}

#[test]
fn encoding_is_stable_from_second_pass_onward() {
    let e = LocationError::new(failure("root"), site("a.rs", 1, 2));
    let e = e.context(String::from("ctx"));
    let first = encode(&e);
    assert_eq!(first.source, "ctx: root");

    let second = encode(&decode(encode(&e)));
    assert_eq!(second.source, first.source);
    assert_eq!(second.backtrace, first.backtrace);

    let third = encode(&decode(second));
    assert_eq!(third.source, first.source);
    assert_eq!(third.backtrace, first.backtrace);
}

#[test]
fn end_to_end_disk_full() {
    let created = site("create.rs", 10, 4);
    let a = site("caller_a.rs", 20, 8);
    let b = site("caller_b.rs", 30, 2);

    let e = LocationError::new(failure("disk full"), created.clone());
    let r: Result<(), LocationError> = Err(e);
    let r = r.loc(a.clone());
    let r = r.loc(b.clone());
    let e = r.unwrap_err();
    assert_eq!(e.backtrace, vec![created.clone(), a.clone(), b.clone()]);

    let rendered_before = encode(&e).source;
    let recovered = decode(encode(&e));
    assert_eq!(encode(&recovered).source, rendered_before);
    assert_eq!(recovered.backtrace, vec![created, a, b]);
}

#[test]
fn renders_chain_then_backtrace_lines() {
    let e = LocationError::new(failure("root"), site("a.rs", 1, 2));
    let e = e.add_location(site("b.rs", 10, 42));
    let e = e.context(String::from("ctx"));
    assert_eq!(e.render(), "ctx: root\na.rs:1:2\nb.rs:10:42");

    let lone = site("main.rs", 1234567890, 0);
    assert_eq!(lone.render(), "main.rs:1234567890:0");

    let extreme = site("m.rs", u32::MAX, u32::MAX);
    assert_eq!(extreme.render(), "m.rs:4294967295:4294967295");
}

#[test]
fn display_string_holds_message_verbatim() {
    let d = DisplayString::from(String::from("kept as is"));
    assert_eq!(d.text(), "kept as is");
    assert_eq!(String::from(d), "kept as is");
    let empty = DisplayString::default();
    assert_eq!(empty.text(), "");
}

#[test]
fn result_capture_keeps_success_and_wraps_failure() {
    let ok: Result<u32, anyhow::Error> = Ok(5);
    assert!(matches!(ok.loc(site("r.rs", 1, 1)), Ok(5)));

    let err: Result<u32, anyhow::Error> = Err(failure("bad state"));
    let e = err.loc(site("r.rs", 2, 2)).unwrap_err();
    assert_eq!(encode(&e).source, "bad state");
    assert_eq!(e.backtrace, vec![site("r.rs", 2, 2)]);
}
