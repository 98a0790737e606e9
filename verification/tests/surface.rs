use realtime_shaders::surface::{preferred_format, Recovery, SurfaceError};

#[test]
fn passing_errors_ask_for_another_redraw() {
    assert_eq!(SurfaceError::Timeout.recovery(), Recovery::Redraw);
    assert_eq!(SurfaceError::Outdated.recovery(), Recovery::Redraw);
}

#[test]
fn fatal_errors_shut_down() {
    assert_eq!(SurfaceError::Lost.recovery(), Recovery::Shutdown);
    assert_eq!(SurfaceError::OutOfMemory.recovery(), Recovery::Shutdown);
}

#[test]
fn first_srgb_format_is_preferred() {
    assert_eq!(preferred_format(&[false, true, true]), Some(1));
    assert_eq!(preferred_format(&[true, false]), Some(0));
    assert_eq!(preferred_format(&[false, false, false, true]), Some(3));
}

#[test]
fn without_srgb_the_first_format_is_taken() {
    assert_eq!(preferred_format(&[false]), Some(0));
    assert_eq!(preferred_format(&[false, false, false]), Some(0));
}

#[test]
fn without_formats_there_is_no_choice() {
    assert_eq!(preferred_format(&[]), None);
}
