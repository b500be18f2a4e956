use lokerro::Error;
use lokerro::ErrorExt as _;
use lokerro::ErrorExtCompat as _;
use lokerro::ErrorExtTrait as _;
use lokerro::ForeignError;
use lokerro::Location;
use lokerro::LokerroResult;

#[test]
fn success_passes_through_every_contract() {
    let l = Location::new("app.rs", 1, 1);
    let from_option: LokerroResult<u32> = Some(7).loc(l);
    assert_eq!(from_option.ok(), Some(7));
    let from_option_msg: LokerroResult<u32> = Some(8).loc_msg("unused", l);
    assert_eq!(from_option_msg.ok(), Some(8));
    let own: LokerroResult<u32> = Ok(9);
    assert_eq!(own.loc(l).ok(), Some(9));
    let own_msg: LokerroResult<u32> = Ok(10);
    assert_eq!(own_msg.loc_msg("unused", l).ok(), Some(10));
    let structured: Result<u32, ForeignError> = Ok(11);
    assert_eq!(structured.loc(l).ok(), Some(11));
    let structured_msg: Result<u32, ForeignError> = Ok(12);
    assert_eq!(structured_msg.loc_msg("unused", l).ok(), Some(12));
    let opaque: Result<u32, bool> = Ok(13);
    assert_eq!(opaque.loc_compat("bool", l).ok(), Some(13));
    let opaque_msg: Result<u32, bool> = Ok(14);
    assert_eq!(opaque_msg.loc_compat_msg("bool", "unused", l).ok(), Some(14));
}

#[test]
fn depth_matches_line_count_and_order() {
    let base: LokerroResult<()> = None.loc(Location::new("a.rs", 1, 2));
    let once: LokerroResult<()> = base.loc(Location::new("b.rs", 3, 4));
    let twice: LokerroResult<()> = once.loc(Location::new("c.rs", 5, 6));
    let rendered = twice.unwrap_err().render();
    let lines: Vec<&str> = rendered.lines().collect();
    assert_eq!(lines.len(), 3);
    assert_eq!(lines[0], "lokerro::Error in c.rs:5:6");
    assert_eq!(lines[1], "Caused by: lokerro::Error in b.rs:3:4");
    assert_eq!(lines[2], "Caused by: Option in a.rs:1:2");
}

#[test]
fn rendering_twice_yields_identical_text() {
    let f = ForeignError::new("demo::Flaky", String::from("gone"), None);
    let failed: Result<(), ForeignError> = Err(f);
    let err = failed
        .loc_msg("poll failed", Location::new("poll.rs", 17, 9))
        .unwrap_err();
    let first = err.render();
    let second = err.render();
    assert_eq!(first, second);
}

#[test]
fn compat_discards_the_foreign_cause() {
    let nested = ForeignError::new("demo::Inner", String::from("root cause"), None);
    let outer = ForeignError::new("demo::Outer", String::from("outer"), Some(nested));
    let failed: Result<(), ForeignError> = Err(outer);
    let rendered = failed
        .loc_compat("demo::Outer", Location::new("app.rs", 40, 8))
        .unwrap_err()
        .render();
    assert_eq!(rendered, "demo::Outer in app.rs:40:8\n");
    assert!(!rendered.contains("Caused by:"));
    assert!(!rendered.contains("root cause"));
}

#[test]
fn structured_two_level_cause_gives_three_lines() {
    let inner = ForeignError::new("demo::Inner", String::from("disk gone"), None);
    let outer = ForeignError::new("demo::Outer", String::from("open failed"), Some(inner));
    let failed: Result<(), ForeignError> = Err(outer);
    let rendered = failed
        .loc(Location::new("app.rs", 21, 14))
        .unwrap_err()
        .render();
    let lines: Vec<&str> = rendered.lines().collect();
    assert_eq!(lines.len(), 3);
    assert_eq!(lines[0], "demo::Outer in app.rs:21:14");
    assert_eq!(lines[1], "Caused by: demo::Outer -> `open failed` in app.rs:21:14");
    assert_eq!(lines[2], "Caused by: demo::Inner -> `disk gone` in app.rs:21:14");
}

#[test]
fn messaged_own_result_over_foreign_boom() {
    let f = ForeignError::new("demo::BoomError", String::from("boom"), None);
    let cause = Error::from_foreign(&f, Location::new("src/config.rs", 14, 20));
    let failed: LokerroResult<()> = Err(cause);
    let rendered = failed
        .loc_msg("Loading settings failed", Location::new("app.rs", 5, 10))
        .unwrap_err()
        .render();
    assert_eq!(
        rendered,
        "lokerro::Error -> `Loading settings failed` in app.rs:5:10\nCaused by: demo::BoomError -> `boom` in src/config.rs:14:20\n"
    );
}

#[test]
fn absent_optional_renders_one_line() {
    let absent: Option<u32> = None;
    let rendered = absent
        .loc(Location::new("app.rs", 9, 3))
        .unwrap_err()
        .render();
    assert_eq!(rendered, "Option in app.rs:9:3\n");
    assert!(!rendered.contains("Caused by:"));
}

#[test]
fn absent_optional_with_message() {
    let absent: Option<u32> = None;
    let rendered = absent
        .loc_msg("missing key", Location::new("cfg.rs", 12, 7))
        .unwrap_err()
        .render();
    assert_eq!(rendered, "Option -> `missing key` in cfg.rs:12:7\n");
}

#[test]
fn compat_with_message() {
    let failed: Result<(), u8> = Err(3);
    let rendered = failed
        .loc_compat_msg("u8", "bad byte", Location::new("io.rs", 2, 1))
        .unwrap_err()
        .render();
    assert_eq!(rendered, "u8 -> `bad byte` in io.rs:2:1\n");
}

#[test]
fn decimal_rendering_is_exact() {
    let err = Error::new(
        "demo::Edge",
        None,
        Location::new("edge.rs", 4294967295, 907),
        None,
    );
    assert_eq!(err.render(), "demo::Edge in edge.rs:4294967295:907\n");
    let small = Error::new("demo::Edge", None, Location::new("edge.rs", 1, 1), None);
    assert_eq!(small.render(), "demo::Edge in edge.rs:1:1\n");
    let round = Error::new("demo::Edge", None, Location::new("edge.rs", 100, 10), None);
    assert_eq!(round.render(), "demo::Edge in edge.rs:100:10\n");
}

#[test]
fn empty_message_still_renders_backticks() {
    let err = Error::new(
        "demo::Empty",
        Some(String::new()),
        Location::new("e.rs", 6, 2),
        None,
    );
    assert_eq!(err.render(), "demo::Empty -> `` in e.rs:6:2\n");
}

#[test]
fn bridge_converts_whole_declared_chain() {
    let deepest = ForeignError::new("demo::Deepest", String::from("level two"), None);
    let middle = ForeignError::new("demo::Middle", String::from("level one"), Some(deepest));
    let top = ForeignError::new("demo::Top", String::from("level zero"), Some(middle));
    let rendered = Error::from_foreign(&top, Location::new("bridge.rs", 30, 22)).render();
    assert_eq!(
        rendered,
        "demo::Top -> `level zero` in bridge.rs:30:22\nCaused by: demo::Middle -> `level one` in bridge.rs:30:22\nCaused by: demo::Deepest -> `level two` in bridge.rs:30:22\n"
    );
}
