use cube_renderer::diagnostic::{BuildFailure, BuildUnit};
use cube_renderer::inquiry::BuildReport;
use cube_renderer::shader::{ShaderStage, StageKind};

fn report(status: i32, raw_log: &[u8]) -> BuildReport {
    BuildReport { status, raw_log: raw_log.to_vec() }
}

#[test]
fn accepted_source_gives_a_compiled_stage() {
    let stage = ShaderStage::from_report(3, StageKind::Vertex, report(1, b""));
    assert!(stage.is_compiled());
    assert_eq!(stage.handle(), 3);
    assert_eq!(stage.kind(), StageKind::Vertex);
    assert_eq!(stage.log(), None);
}

#[test]
fn compiled_stage_has_no_log_whatever_the_buffer_holds() {
    let stage = ShaderStage::from_report(4, StageKind::Fragment, report(1, b"warning\0"));
    assert!(stage.is_compiled());
    assert_eq!(stage.kind(), StageKind::Fragment);
    assert_eq!(stage.log(), None);
}

#[test]
fn refused_source_gives_no_usable_stage() {
    let stage = ShaderStage::from_report(5, StageKind::Vertex, report(0, b"0:3: syntax error\0"));
    assert!(!stage.is_compiled());
    assert_eq!(stage.handle(), 5);
    assert_eq!(stage.log(), Some("0:3: syntax error".to_string()));
    let failure = stage.checked().unwrap_err();
    assert_eq!(
        failure,
        BuildFailure { unit: BuildUnit::Shader, log: Some("0:3: syntax error".to_string()) }
    );
    assert_eq!(failure.message(), "0:3: syntax error");
}

#[test]
fn refused_source_with_an_empty_log() {
    let stage = ShaderStage::from_report(5, StageKind::Fragment, report(0, b""));
    assert!(!stage.is_compiled());
    assert_eq!(stage.log(), Some(String::new()));
    assert_eq!(stage.checked().unwrap_err().message(), "");
}

#[test]
fn refused_source_with_an_unreadable_log() {
    let stage = ShaderStage::from_report(5, StageKind::Fragment, report(0, &[0xff, 0]));
    assert!(!stage.is_compiled());
    assert_eq!(stage.log(), None);
    let failure = stage.checked().unwrap_err();
    assert_eq!(failure, BuildFailure { unit: BuildUnit::Shader, log: None });
    assert_eq!(failure.message(), "ShaderInfoLog not valid utf8");
}

#[test]
fn compiled_stage_passes_the_check_unchanged() {
    let stage = ShaderStage::from_report(9, StageKind::Vertex, report(1, b""));
    let checked = stage.checked().unwrap();
    assert_eq!(checked, ShaderStage::from_report(9, StageKind::Vertex, report(1, b"")));
}

#[test]
fn any_status_but_success_is_a_failure() {
    for status in [0, -1, 2, 255, i32::MIN] {
        let stage = ShaderStage::from_report(1, StageKind::Vertex, report(status, b"x\0"));
        assert!(!stage.is_compiled());
        assert!(stage.checked().is_err());
    }
}
