use mp3cd::burn::{BurnProgressWindow, BurnStage, ConversionState};

#[test]
fn folder_list_test_conversion_state_new() {
    let state = ConversionState::new();

    assert!(!state.is_converting());
    let (completed, failed, total) = state.progress();
    assert_eq!(completed, 0);
    assert_eq!(failed, 0);
    assert_eq!(total, 0);
}

#[test]
fn folder_list_test_conversion_state_reset() {
    let mut state = ConversionState::new();

    state.reset(24);

    assert!(state.is_converting());
    let (completed, failed, total) = state.progress();
    assert_eq!(completed, 0);
    assert_eq!(failed, 0);
    assert_eq!(total, 24);
}

#[test]
fn folder_list_test_conversion_state_finish() {
    let mut state = ConversionState::new();
    state.reset(10);
    assert!(state.is_converting());

    state.finish();

    assert!(!state.is_converting());
}

#[test]
fn folder_list_test_conversion_state_progress_updates() {
    let mut state = ConversionState::new();
    state.reset(5);

    state.add_completed(1);
    state.add_completed(1);
    state.add_failed(1);

    let (completed, failed, total) = state.progress();
    assert_eq!(completed, 2);
    assert_eq!(failed, 1);
    assert_eq!(total, 5);
}

#[test]
fn folder_list_test_conversion_state_cancellation() {
    let mut state = ConversionState::new();
    state.reset(10);

    assert!(!state.is_cancelled());

    state.request_cancel();

    assert!(state.is_cancelled());
    assert!(state.is_converting());
}

#[test]
fn folder_list_test_conversion_state_reset_clears_cancel() {
    let mut state = ConversionState::new();
    state.reset(10);
    state.request_cancel();
    assert!(state.is_cancelled());

    state.reset(5);
    assert!(!state.is_cancelled());
    assert!(state.is_converting());
}

#[test]
fn tests_test_conversion_state_new() {
    let state = ConversionState::new();

    assert!(!state.is_converting());
    let (completed, failed, total) = state.progress();
    assert_eq!(completed, 0);
    assert_eq!(failed, 0);
    assert_eq!(total, 0);
}

#[test]
fn tests_test_conversion_state_reset() {
    let mut state = ConversionState::new();

    state.reset(24);

    assert!(state.is_converting());
    let (completed, failed, total) = state.progress();
    assert_eq!(completed, 0);
    assert_eq!(failed, 0);
    assert_eq!(total, 24);
}

#[test]
fn tests_test_conversion_state_finish() {
    let mut state = ConversionState::new();
    state.reset(10);
    assert!(state.is_converting());

    state.finish();

    assert!(!state.is_converting());
}

#[test]
fn tests_test_conversion_state_progress_updates() {
    let mut state = ConversionState::new();
    state.reset(5);

    state.add_completed(1);
    state.add_completed(1);
    state.add_failed(1);

    let (completed, failed, total) = state.progress();
    assert_eq!(completed, 2);
    assert_eq!(failed, 1);
    assert_eq!(total, 5);
}

#[test]
fn tests_test_conversion_state_cancellation() {
    let mut state = ConversionState::new();
    state.reset(10);

    assert!(!state.is_cancelled());

    state.request_cancel();

    assert!(state.is_cancelled());
    assert!(state.is_converting());
}

#[test]
fn tests_test_conversion_state_reset_clears_cancel() {
    let mut state = ConversionState::new();
    state.reset(10);
    state.request_cancel();
    assert!(state.is_cancelled());

    state.reset(5);
    assert!(!state.is_cancelled());
    assert!(state.is_converting());
}

#[test]
fn burn_window_stage_texts() {
    let mut window = BurnProgressWindow { conversion_state: ConversionState::new() };
    window.conversion_state.set_stage(BurnStage::Burning);
    assert_eq!(window.stage_text(), "Burning CD...");
    window.conversion_state.set_stage(BurnStage::Complete);
    assert_eq!(window.stage_text(), "Complete!");
    window.conversion_state.set_stage(BurnStage::Cancelled);
    assert_eq!(window.stage_text(), "Cancelled");
}

#[test]
fn burn_window_progress_text() {
    let idle = BurnProgressWindow { conversion_state: ConversionState::new() };
    assert_eq!(idle.progress_text(), "...");
    assert!(idle.should_quit());
    let mut window = BurnProgressWindow { conversion_state: ConversionState::new() };
    window.conversion_state.set_stage(BurnStage::Burning);
    window.conversion_state.set_burn_progress(42);
    assert_eq!(window.progress_text(), "42%");
}
