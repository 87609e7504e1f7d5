use cube_renderer::diagnostic::{BuildFailure, BuildUnit};
use cube_renderer::inquiry::BuildReport;
use cube_renderer::program::{Program, UniformHandle, TRANSFORM_UNIFORM, UNRESOLVED_LOCATION};
use cube_renderer::shader::{ShaderStage, StageKind};

fn compiled(handle: u32, kind: StageKind) -> ShaderStage {
    ShaderStage::from_report(handle, kind, BuildReport { status: 1, raw_log: Vec::new() })
}

fn linked(handle: u32) -> Program {
    Program::from_report(
        handle,
        compiled(1, StageKind::Vertex),
        compiled(2, StageKind::Fragment),
        BuildReport { status: 1, raw_log: Vec::new() },
    )
}

#[test]
fn accepted_stages_link_into_a_usable_program() {
    let program = linked(7);
    assert!(program.is_linked());
    assert!(program.is_usable());
    assert_eq!(program.handle(), 7);
    assert_eq!(program.log(), None);
    let program = program.checked().unwrap();
    assert!(program.is_usable());
    assert_eq!(program.handle(), 7);
}

#[test]
fn refused_link_gives_no_usable_program() {
    let program = Program::from_report(
        8,
        compiled(1, StageKind::Vertex),
        compiled(2, StageKind::Fragment),
        BuildReport { status: 0, raw_log: b"error: undefined varying\0".to_vec() },
    );
    assert!(!program.is_linked());
    assert!(!program.is_usable());
    assert_eq!(program.log(), Some("error: undefined varying".to_string()));
    let failure = program.checked().unwrap_err();
    assert_eq!(
        failure,
        BuildFailure { unit: BuildUnit::Program, log: Some("error: undefined varying".to_string()) }
    );
    assert_eq!(failure.message(), "error: undefined varying");
}

#[test]
fn refused_link_with_an_unreadable_log() {
    let program = Program::from_report(
        8,
        compiled(1, StageKind::Vertex),
        compiled(2, StageKind::Fragment),
        BuildReport { status: 0, raw_log: vec![0x80, 0] },
    );
    assert_eq!(program.log(), None);
    let failure = program.checked().unwrap_err();
    assert_eq!(failure, BuildFailure { unit: BuildUnit::Program, log: None });
    assert_eq!(failure.message(), "Error had invalid utf8");
}

#[test]
fn linked_program_has_no_log_whatever_the_buffer_holds() {
    let program = Program::from_report(
        8,
        compiled(1, StageKind::Vertex),
        compiled(2, StageKind::Fragment),
        BuildReport { status: 1, raw_log: b"note\0".to_vec() },
    );
    assert!(program.is_usable());
    assert_eq!(program.log(), None);
}

#[test]
fn negative_location_does_not_resolve() {
    assert_eq!(UNRESOLVED_LOCATION, -1);
    assert!(!UniformHandle::unresolved().is_valid());
    assert_eq!(UniformHandle::unresolved().location, -1);
    assert!(!UniformHandle::from_location(-1).is_valid());
    assert!(!UniformHandle::from_location(i32::MIN).is_valid());
}

#[test]
fn location_from_zero_on_resolves() {
    assert!(UniformHandle::from_location(0).is_valid());
    assert!(UniformHandle::from_location(5).is_valid());
    assert_eq!(UniformHandle::from_location(5).location, 5);
    assert!(UniformHandle::from_location(i32::MAX).is_valid());
}

#[test]
fn transform_uniform_is_called_mvp() {
    assert_eq!(TRANSFORM_UNIFORM, "mvp");
}

#[test]
fn fresh_program_has_no_uniform_resolved() {
    let program = linked(7);
    assert_eq!(program.cached_uniform("mvp"), None);
    assert_eq!(program.cached_uniform(""), None);
}

#[test]
fn resolved_uniform_is_remembered() {
    let mut program = linked(7);
    let handle = program.remember_uniform("mvp", 3);
    assert_eq!(handle, UniformHandle { location: 3 });
    assert_eq!(program.cached_uniform("mvp"), Some(UniformHandle { location: 3 }));
    assert_eq!(program.cached_uniform("mv"), None);
    assert_eq!(program.cached_uniform("mvpx"), None);
    assert_eq!(program.cached_uniform("MVP"), None);
}

#[test]
fn first_resolution_of_a_name_stands() {
    let mut program = linked(7);
    assert_eq!(program.remember_uniform("mvp", 3).location, 3);
    assert_eq!(program.remember_uniform("mvp", 9).location, 3);
    assert_eq!(program.cached_uniform("mvp"), Some(UniformHandle { location: 3 }));
}

#[test]
fn absent_uniform_is_remembered_as_absent() {
    let mut program = linked(7);
    let handle = program.remember_uniform("missing", -1);
    assert!(!handle.is_valid());
    assert_eq!(program.cached_uniform("missing"), Some(UniformHandle { location: -1 }));
}

#[test]
fn uniforms_are_kept_apart_by_name() {
    let mut program = linked(7);
    program.remember_uniform("mvp", 0);
    program.remember_uniform("tint", 4);
    program.remember_uniform("time", 2);
    assert_eq!(program.cached_uniform("mvp"), Some(UniformHandle { location: 0 }));
    assert_eq!(program.cached_uniform("tint"), Some(UniformHandle { location: 4 }));
    assert_eq!(program.cached_uniform("time"), Some(UniformHandle { location: 2 }));
    assert_eq!(program.cached_uniform("other"), None);
    assert!(program.is_usable());
    assert_eq!(program.handle(), 7);
}
