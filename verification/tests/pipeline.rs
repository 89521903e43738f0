use shader_pipeline::errors::PipelineError;
use shader_pipeline::program::{
    link_error_from_log, stage_resource_names, Program, ProgramBinding,
};
use shader_pipeline::resources::{resource_name_to_path, Resources, ShaderSource};
use shader_pipeline::shader::{compile_error_from_log, Shader, ShaderKind};
use shader_pipeline::string_utils::create_whitespace_cstring_with_len;

#[test]
fn vert_suffix_names_vertex_stage() {
    assert_eq!(
        ShaderKind::from_resource_name("triangle.vert"),
        Ok(ShaderKind::Vertex)
    );
}

#[test]
fn frag_suffix_names_fragment_stage() {
    assert_eq!(
        ShaderKind::from_resource_name("shaders/triangle.frag"),
        Ok(ShaderKind::Fragment)
    );
}

#[test]
fn unknown_suffix_is_rejected() {
    let r = ShaderKind::from_resource_name("triangle.glsl");
    match r {
        Err(PipelineError::UnknownShaderKind(m)) => {
            assert_eq!(m, "Can not determine shader type for resource triangle.glsl");
        }
        other => panic!("expected UnknownShaderKind, got {:?}", other),
    }
}

#[test]
fn name_shorter_than_suffix_is_rejected() {
    let r = ShaderKind::from_resource_name("vert");
    assert!(matches!(r, Err(PipelineError::UnknownShaderKind(_))));
}

#[test]
fn resource_path_joins_root_and_name() {
    let p = resource_name_to_path("/opt/app/assets", "shaders/triangle.vert");
    assert_eq!(p, "/opt/app/assets/shaders/triangle.vert");
}

#[test]
fn resource_resolution_is_idempotent() {
    let first = resource_name_to_path("/opt/app/assets", "shaders/triangle.vert");
    let second = resource_name_to_path("/opt/app/assets", "shaders/triangle.vert");
    assert_eq!(first, second);
}

#[test]
fn root_comes_from_exe_directory_and_offset() {
    let res = Resources::from_relative_exe_path("/opt/app/bin/demo", "../../assets");
    assert_eq!(res.root_path(), "/opt/app/bin/../../assets");
}

#[test]
fn whitespace_buffer_is_spaces_then_nul() {
    assert_eq!(create_whitespace_cstring_with_len(4), vec![32, 32, 32, 32, 0]);
    assert_eq!(create_whitespace_cstring_with_len(0), vec![0]);
}

#[test]
fn source_gets_a_nul_terminator() {
    let src = ShaderSource::from_bytes(b"void main() {}".to_vec());
    assert_eq!(src.as_bytes(), b"void main() {}\0");
}

#[test]
fn failed_read_is_io_error_and_never_a_source() {
    let r = ShaderSource::from_read_result(Err("No such file or directory".to_string()));
    match r {
        Err(PipelineError::IoError(m)) => {
            assert_eq!(m, "Can't open path No such file or directory");
        }
        Ok(_) => panic!("a failed read must not yield a source buffer"),
        Err(other) => panic!("expected IoError, got {:?}", other),
    }
}

#[test]
fn successful_read_yields_terminated_source() {
    let r = ShaderSource::from_read_result(Ok(b"#version 450 core".to_vec()));
    let src = r.expect("a successful read yields a source buffer");
    assert_eq!(src.as_bytes(), b"#version 450 core\0");
}

#[test]
fn successful_compile_yields_the_handle() {
    let s = Shader::from_compile_status(7, 1).expect("nonzero status accepts the shader");
    assert_eq!(s.id(), 7);
}

#[test]
fn failed_compile_yields_no_handle() {
    assert!(Shader::from_compile_status(7, 0).is_none());
}

#[test]
fn compile_error_carries_the_driver_log() {
    let log = b"0:1(5): error: syntax error\0    ".to_vec();
    let e = compile_error_from_log(&log);
    match e {
        PipelineError::CompileError(m) => {
            assert_eq!(m, "0:1(5): error: syntax error");
            assert!(!m.is_empty());
        }
        other => panic!("expected CompileError, got {:?}", other),
    }
}

#[test]
fn invalid_log_bytes_become_replacement_characters() {
    let log = vec![0xff, 0xfe, 0];
    let e = compile_error_from_log(&log);
    match e {
        PipelineError::CompileError(m) => assert_eq!(m, "\u{fffd}\u{fffd}"),
        other => panic!("expected CompileError, got {:?}", other),
    }
}

#[test]
fn log_without_nul_is_kept_whole() {
    let log = b"warning only".to_vec();
    let e = compile_error_from_log(&log);
    match e {
        PipelineError::CompileError(m) => assert_eq!(m, "warning only"),
        other => panic!("expected CompileError, got {:?}", other),
    }
}

#[test]
fn error_message_is_the_carried_text() {
    let e = PipelineError::IoError("Can't open path x".to_string());
    assert_eq!(e.message(), "Can't open path x");
}

#[test]
fn resource_context_wraps_the_message() {
    let e = PipelineError::IoError("Can't open path x".to_string());
    let wrapped = e.with_resource_context("shaders/triangle.vert");
    match wrapped {
        PipelineError::IoError(m) => {
            assert_eq!(
                m,
                "Error loading resource shaders/triangle.vert: Can't open path x"
            );
        }
        other => panic!("the wrapped error keeps its kind, got {:?}", other),
    }
}

#[test]
fn stage_names_append_the_two_suffixes() {
    let (vert, frag) = stage_resource_names("shaders/triangle");
    assert_eq!(vert, "shaders/triangle.vert");
    assert_eq!(frag, "shaders/triangle.frag");
}

#[test]
fn successful_link_yields_the_handle() {
    let p = Program::from_link_status(3, 1).expect("nonzero status accepts the program");
    assert_eq!(p.id(), 3);
}

#[test]
fn failed_link_yields_no_handle_and_link_error() {
    assert!(Program::from_link_status(3, 0).is_none());
    let e = link_error_from_log(&b"error: no vertex shader\0".to_vec());
    match e {
        PipelineError::LinkError(m) => assert_eq!(m, "error: no vertex shader"),
        other => panic!("expected LinkError, got {:?}", other),
    }
}

#[test]
fn triangle_program_end_to_end() {
    let root = Resources::from_relative_exe_path("/opt/app/bin/demo", "../../assets");
    let (vert_name, frag_name) = stage_resource_names("shaders/triangle");
    assert_eq!(
        resource_name_to_path(root.root_path(), &vert_name),
        "/opt/app/bin/../../assets/shaders/triangle.vert"
    );

    let vert_kind = ShaderKind::from_resource_name(&vert_name).unwrap();
    let frag_kind = ShaderKind::from_resource_name(&frag_name).unwrap();
    assert_eq!(vert_kind, ShaderKind::Vertex);
    assert_eq!(frag_kind, ShaderKind::Fragment);

    let vert_src = ShaderSource::from_read_result(Ok(
        b"#version 450 core\nlayout (location = 0) in vec3 Position;\nvoid main() { gl_Position = vec4(Position, 1.0); }\n".to_vec(),
    ))
    .unwrap();
    let frag_src = ShaderSource::from_read_result(Ok(
        b"#version 450 core\nout vec4 Color;\nvoid main() { Color = vec4(1.0, 0.0, 0.0, 1.0); }\n"
            .to_vec(),
    ))
    .unwrap();
    assert_eq!(*vert_src.as_bytes().last().unwrap(), 0);
    assert_eq!(*frag_src.as_bytes().last().unwrap(), 0);

    let vert = Shader::from_compile_status(11, 1).unwrap();
    let frag = Shader::from_compile_status(12, 1).unwrap();
    let program = Program::from_link_status(20, 1).unwrap();

    let mut binding = ProgramBinding::new();
    assert!(!binding.is_active(&program));
    binding.mark_as_used(&program);
    assert!(binding.is_active(&program));

    let other = Program::from_link_status(21, 1).unwrap();
    assert!(!binding.is_active(&other));
    binding.mark_as_used(&other);
    assert!(binding.is_active(&other));
    assert!(!binding.is_active(&program));

    assert_eq!(vert.id(), 11);
    assert_eq!(frag.id(), 12);
    assert_eq!(program.id(), 20);
}
