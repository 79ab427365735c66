use stl_thumb::context::{ContextCascade, ContextStrategy};
use stl_thumb::error::Error;
use stl_thumb::present::{present_step, PresentAction, PresentEvent};

#[test]
fn cascade_third_strategy_after_two_failures() {
    let mut c = ContextCascade::new(false, true);
    assert_eq!(c.current(), Some(ContextStrategy::Surfaceless));
    c.report_failure();
    assert_eq!(c.current(), Some(ContextStrategy::OffscreenBuffer));
    c.report_failure();
    assert_eq!(c.current(), Some(ContextStrategy::SoftwareRasterizer));
    c.report_success();
    assert_eq!(c.current(), None);
    assert_eq!(c.outcome(), Ok(ContextStrategy::SoftwareRasterizer));
}

#[test]
fn cascade_headless_order() {
    let mut c = ContextCascade::new(false, true);
    let mut seen = Vec::new();
    while let Some(s) = c.current() {
        seen.push(s);
        c.report_failure();
    }
    assert_eq!(
        seen,
        vec![
            ContextStrategy::Surfaceless,
            ContextStrategy::OffscreenBuffer,
            ContextStrategy::SoftwareRasterizer,
            ContextStrategy::HiddenWindow,
        ]
    );
    assert_eq!(c.outcome(), Err(Error::ContextError));
}

#[test]
fn cascade_no_display_server() {
    let mut c = ContextCascade::new(false, false);
    assert_eq!(c.current(), Some(ContextStrategy::SoftwareRasterizer));
    c.report_failure();
    assert_eq!(c.current(), Some(ContextStrategy::HiddenWindow));
    c.report_failure();
    assert_eq!(c.current(), None);
    assert_eq!(c.outcome(), Err(Error::ContextError));
}

#[test]
fn cascade_visible_single_attempt() {
    let mut c = ContextCascade::new(true, true);
    assert_eq!(c.current(), Some(ContextStrategy::Windowed));
    c.report_failure();
    assert_eq!(c.current(), None);
    assert_eq!(c.outcome(), Err(Error::ContextError));
}

#[test]
fn cascade_first_success_wins() {
    let mut c = ContextCascade::new(false, true);
    c.report_success();
    assert_eq!(c.current(), None);
    assert_eq!(c.outcome(), Ok(ContextStrategy::Surfaceless));
}

#[test]
fn present_loop_decisions() {
    assert_eq!(present_step(PresentEvent::Started), PresentAction::RenderThenPresent);
    assert_eq!(present_step(PresentEvent::Tick), PresentAction::Present);
    assert_eq!(present_step(PresentEvent::CloseRequested), PresentAction::Exit);
}
