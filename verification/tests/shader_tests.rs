use viewer3d::fx::{clamp, fx_div, fx_mul};
use viewer3d::shader::{compile_outcome, link_outcome, GlError};

#[test]
fn compile_creation_failure_is_reported() {
    assert_eq!(compile_outcome(false, true, None), Err(GlError::ResourceCreationFailed));
}

#[test]
fn compile_success_is_ok() {
    assert_eq!(compile_outcome(true, true, None), Ok(()));
    assert_eq!(compile_outcome(true, true, Some("ignored".to_string())), Ok(()));
}

#[test]
fn compile_failure_carries_the_driver_log() {
    let r = compile_outcome(true, false, Some("bad shader".to_string()));
    assert_eq!(r, Err(GlError::CompileFailed("bad shader".to_string())));
}

#[test]
fn compile_failure_without_log_uses_the_fallback() {
    let r = compile_outcome(true, false, None);
    assert_eq!(r, Err(GlError::CompileFailed("Unknown error creating shader".to_string())));
}

#[test]
fn link_creation_failure_is_reported() {
    assert_eq!(link_outcome(false, false, None), Err(GlError::ResourceCreationFailed));
}

#[test]
fn link_success_is_ok() {
    assert_eq!(link_outcome(true, true, None), Ok(()));
}

#[test]
fn link_failure_carries_the_driver_log() {
    let r = link_outcome(true, false, Some("no main".to_string()));
    assert_eq!(r, Err(GlError::LinkFailed("no main".to_string())));
}

#[test]
fn link_failure_without_log_uses_the_fallback() {
    let r = link_outcome(true, false, None);
    assert_eq!(r, Err(GlError::LinkFailed("Unknown error creating program object".to_string())));
}

#[test]
fn fixed_point_arithmetic_truncates_toward_zero() {
    assert_eq!(fx_mul(4096, 4096), 4096);
    assert_eq!(fx_mul(-6144, 2048), -3072);
    assert_eq!(fx_mul(-1, 4095), 0);
    assert_eq!(fx_div(1, 3), 1365);
    assert_eq!(fx_div(-4096, 4096), -4096);
    assert_eq!(clamp(100, 50), 50);
    assert_eq!(clamp(-100, 50), -50);
    assert_eq!(clamp(7, 50), 7);
}

#[test]
fn compile_failure_with_empty_log_uses_the_fallback() {
    let r = compile_outcome(true, false, Some(String::new()));
    assert_eq!(r, Err(GlError::CompileFailed("Unknown error creating shader".to_string())));
}

#[test]
fn link_failure_with_empty_log_uses_the_fallback() {
    let r = link_outcome(true, false, Some(String::new()));
    assert_eq!(r, Err(GlError::LinkFailed("Unknown error creating program object".to_string())));
}
