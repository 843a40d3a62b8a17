use avlog::level::FilterLevel;
use avlog::Level;
use avlog::LevelError;

fn all_levels() -> Vec<Level> {
    vec![
        Level::Quiet,
        Level::Trace,
        Level::Debug,
        Level::Verbose,
        Level::Info,
        Level::Warning,
        Level::Error,
        Level::Fatal,
        Level::Panic,
    ]
}

#[test]
fn severity_round_trip() {
    for l in all_levels() {
        assert_eq!(Level::from_native(l.to_native()), Ok(l));
    }
}

#[test]
fn native_value_round_trip() {
    for v in [-8, 0, 8, 16, 24, 32, 40, 48, 56] {
        let l = Level::from_native(v).expect("defined native value");
        assert_eq!(l.to_native(), v);
    }
}

#[test]
fn native_table_is_exact() {
    assert_eq!(Level::Quiet.to_native(), -8);
    assert_eq!(Level::Panic.to_native(), 0);
    assert_eq!(Level::Fatal.to_native(), 8);
    assert_eq!(Level::Error.to_native(), 16);
    assert_eq!(Level::Warning.to_native(), 24);
    assert_eq!(Level::Info.to_native(), 32);
    assert_eq!(Level::Verbose.to_native(), 40);
    assert_eq!(Level::Debug.to_native(), 48);
    assert_eq!(Level::Trace.to_native(), 56);
}

#[test]
fn undefined_native_is_rejected() {
    assert_eq!(Level::from_native(-9), Err(LevelError));
    assert_eq!(Level::from_native(i32::MIN), Err(LevelError));
    assert_eq!(Level::from_native(i32::MAX), Err(LevelError));
    assert_eq!(Level::from_native(1), Err(LevelError));
    assert_eq!(Level::from_native(57), Err(LevelError));
}

#[test]
fn undefined_native_falls_back_to_info() {
    assert_eq!(Level::from_native_or_default(-9), Level::Info);
    assert_eq!(Level::from_native_or_default(i32::MIN), Level::Info);
    assert_eq!(Level::from_native_or_default(24), Level::Warning);
}

#[test]
fn filter_table_is_exact() {
    assert_eq!(Level::Quiet.to_filter(), FilterLevel::Off);
    assert_eq!(Level::Trace.to_filter(), FilterLevel::Trace);
    assert_eq!(Level::Debug.to_filter(), FilterLevel::Debug);
    assert_eq!(Level::Verbose.to_filter(), FilterLevel::Debug);
    assert_eq!(Level::Info.to_filter(), FilterLevel::Info);
    assert_eq!(Level::Warning.to_filter(), FilterLevel::Warn);
    assert_eq!(Level::Error.to_filter(), FilterLevel::Error);
    assert_eq!(Level::Fatal.to_filter(), FilterLevel::Error);
    assert_eq!(Level::Panic.to_filter(), FilterLevel::Error);
}

#[test]
fn filter_is_monotone_over_native_order() {
    let mut by_native = all_levels();
    by_native.sort_by_key(|l| l.to_native());
    for pair in by_native.windows(2) {
        assert!(pair[0].to_filter().rank() <= pair[1].to_filter().rank());
    }
}

#[test]
fn urgency_rank_follows_declaration_order() {
    let ranks: Vec<u8> = all_levels().into_iter().map(|l| l.rank()).collect();
    assert_eq!(ranks, vec![0, 1, 2, 3, 4, 5, 6, 7, 8]);
}
