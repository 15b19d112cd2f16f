use render_harness::loader::{translate, Image, ImageLoad};
use render_harness::error::LoadError;
use render_harness::signal::{LoadOutcome, LoadSignal};

fn failed(reason: &str) -> LoadOutcome {
    LoadOutcome::Failed { reason: reason.to_string() }
}

#[test]
fn fresh_signal_is_pending() {
    let mut signal = LoadSignal::create();
    assert!(!signal.is_resolved());
    assert_eq!(signal.take_outcome(), None);
    assert!(!signal.is_resolved());
}

#[test]
fn first_report_is_recorded() {
    let mut signal = LoadSignal::create();
    assert!(signal.resolve(LoadOutcome::Ready));
    assert!(signal.is_resolved());
    assert_eq!(signal.take_outcome(), Some(LoadOutcome::Ready));
}

#[test]
fn success_then_error_yields_success() {
    let mut signal = LoadSignal::create();
    assert!(signal.resolve(LoadOutcome::Ready));
    assert!(!signal.resolve(failed("late")));
    assert_eq!(signal.take_outcome(), Some(LoadOutcome::Ready));
}

#[test]
fn error_then_success_yields_error() {
    let mut signal = LoadSignal::create();
    assert!(signal.resolve(failed("decode")));
    assert!(!signal.resolve(LoadOutcome::Ready));
    assert_eq!(signal.take_outcome(), Some(failed("decode")));
}

#[test]
fn outcome_is_handed_out_once() {
    let mut signal = LoadSignal::create();
    signal.resolve(failed("first"));
    assert_eq!(signal.take_outcome(), Some(failed("first")));
    assert_eq!(signal.take_outcome(), None);
    assert!(signal.is_resolved());
}

#[test]
fn report_after_collection_is_ignored() {
    let mut signal = LoadSignal::create();
    signal.resolve(LoadOutcome::Ready);
    assert_eq!(signal.take_outcome(), Some(LoadOutcome::Ready));
    assert!(!signal.resolve(failed("too late")));
    assert_eq!(signal.take_outcome(), None);
}

#[test]
fn interleaved_reports_and_collections_yield_the_first_report_once() {
    let mut signal = LoadSignal::create();
    let mut seen: Vec<LoadOutcome> = Vec::new();
    if let Some(o) = signal.take_outcome() {
        seen.push(o);
    }
    signal.resolve(failed("a"));
    signal.resolve(LoadOutcome::Ready);
    if let Some(o) = signal.take_outcome() {
        seen.push(o);
    }
    signal.resolve(failed("b"));
    if let Some(o) = signal.take_outcome() {
        seen.push(o);
    }
    assert_eq!(seen, vec![failed("a")]);
}

#[test]
fn many_reports_never_panic() {
    let mut signal = LoadSignal::create();
    let mut accepted = 0;
    for i in 0..100 {
        let outcome = if i % 2 == 0 { LoadOutcome::Ready } else { failed("odd") };
        if signal.resolve(outcome) {
            accepted += 1;
        }
    }
    assert_eq!(accepted, 1);
    assert_eq!(signal.take_outcome(), Some(LoadOutcome::Ready));
}

#[test]
fn translate_ready_gives_the_image() {
    assert_eq!(
        translate("rhb.png".to_string(), LoadOutcome::Ready),
        Ok(Image { source: "rhb.png".to_string() })
    );
}

#[test]
fn translate_failure_gives_a_load_error() {
    assert_eq!(
        translate("rhb.png".to_string(), failed("404")),
        Err(LoadError { path: "rhb.png".to_string(), reason: "404".to_string() })
    );
}

#[test]
fn image_load_stays_pending_until_the_host_reports() {
    let mut load = ImageLoad::begin("rhb.png".to_string());
    assert_eq!(load.source_path(), "rhb.png");
    assert_eq!(load.finish(), None);
    assert_eq!(load.finish(), None);
}

#[test]
fn image_load_success() {
    let mut load = ImageLoad::begin("rhb.png".to_string());
    assert!(load.on_success());
    assert_eq!(load.finish(), Some(Ok(Image { source: "rhb.png".to_string() })));
    assert_eq!(load.finish(), None);
}

#[test]
fn image_load_failure() {
    let mut load = ImageLoad::begin("missing.png".to_string());
    assert!(load.on_error("not found".to_string()));
    assert_eq!(
        load.finish(),
        Some(Err(LoadError { path: "missing.png".to_string(), reason: "not found".to_string() }))
    );
}

#[test]
fn image_load_both_callbacks_first_wins() {
    let mut load = ImageLoad::begin("rhb.png".to_string());
    assert!(load.on_error("aborted".to_string()));
    assert!(!load.on_success());
    assert_eq!(
        load.finish(),
        Some(Err(LoadError { path: "rhb.png".to_string(), reason: "aborted".to_string() }))
    );

    let mut load = ImageLoad::begin("rhb.png".to_string());
    assert!(load.on_success());
    assert!(!load.on_error("aborted".to_string()));
    assert_eq!(load.finish(), Some(Ok(Image { source: "rhb.png".to_string() })));
}
