use render_gl::shader::{
    compile_result, fragment_resource_name, program_resource_names, shader_kind_for_name,
    stage_from_load, str_ends_with, vertex_resource_name, Error, LinkState, ProgramBuilder,
    ResourceError, ShaderKind,
};

#[test]
fn suffixes_decide_the_stage_kind() {
    assert_eq!(shader_kind_for_name("triangle.vert"), Some(ShaderKind::Vertex));
    assert_eq!(shader_kind_for_name("triangle.frag"), Some(ShaderKind::Fragment));
    assert_eq!(shader_kind_for_name("shaders/triangle.vert"), Some(ShaderKind::Vertex));
    assert_eq!(shader_kind_for_name("triangle.geom"), None);
    assert_eq!(shader_kind_for_name("triangle"), None);
    assert_eq!(shader_kind_for_name(""), None);
    assert_eq!(shader_kind_for_name(".vert"), Some(ShaderKind::Vertex));
}

#[test]
fn ends_with_handles_edges() {
    assert!(str_ends_with("abc.vert", ".vert"));
    assert!(!str_ends_with("abc.vertx", ".vert"));
    assert!(!str_ends_with("rt", ".vert"));
    assert!(str_ends_with("anything", ""));
    assert!(str_ends_with("", ""));
}

#[test]
fn logical_names_resolve_to_both_stage_resources() {
    assert_eq!(vertex_resource_name("shaders/triangle"), "shaders/triangle.vert");
    assert_eq!(fragment_resource_name("shaders/triangle"), "shaders/triangle.frag");
    let names = program_resource_names("shaders/triangle");
    assert_eq!(names.len(), 2);
    assert_eq!(names[0], "shaders/triangle.vert");
    assert_eq!(names[1], "shaders/triangle.frag");
    // The derived names are always recognized, whatever the logical name.
    assert_eq!(shader_kind_for_name(&names[0]), Some(ShaderKind::Vertex));
    assert_eq!(shader_kind_for_name(&names[1]), Some(ShaderKind::Fragment));
}

#[test]
fn stage_from_load_passes_loaded_source_through() {
    let r = stage_from_load("shaders/triangle.vert", Ok(String::from("void main() {}")));
    match r {
        Ok((kind, src)) => {
            assert_eq!(kind, ShaderKind::Vertex);
            assert_eq!(src, "void main() {}");
        }
        Err(_) => panic!("a recognized name with a loaded source must compile on"),
    }
}

#[test]
fn stage_from_load_reports_unknown_suffix_before_the_loader() {
    // The suffix is judged first: even a successful load cannot rescue an
    // unrecognized name.
    let r = stage_from_load("shaders/triangle.tess", Ok(String::from("src")));
    match r {
        Err(Error::UnknownShaderType { name }) => assert_eq!(name, "shaders/triangle.tess"),
        _ => panic!("an unrecognized suffix must fail as UnknownShaderType"),
    }
}

#[test]
fn stage_from_load_wraps_loader_failures() {
    let r = stage_from_load(
        "shaders/triangle.frag",
        Err(ResourceError {
            message: String::from("file not found"),
        }),
    );
    match r {
        Err(Error::ResourceLoad { name, inner }) => {
            assert_eq!(name, "shaders/triangle.frag");
            assert_eq!(inner.message, "file not found");
        }
        _ => panic!("a loader failure must surface as ResourceLoad"),
    }
}

#[test]
fn compile_failure_keeps_the_driver_log_verbatim() {
    let r = compile_result("triangle.vert", 7, false, String::from("0:1(1): error: syntax error"));
    match r {
        Err(Error::CompileError { name, message }) => {
            assert_eq!(name, "triangle.vert");
            assert_eq!(message, "0:1(1): error: syntax error");
        }
        _ => panic!("a failed compile must surface as CompileError"),
    }
}

#[test]
fn compile_failure_with_empty_log_keeps_the_empty_string() {
    let r = compile_result("triangle.vert", 7, false, String::new());
    match r {
        Err(Error::CompileError { message, .. }) => assert_eq!(message, ""),
        _ => panic!("a failed compile must surface as CompileError"),
    }
}

#[test]
fn compile_success_hands_the_stage_on() {
    let r = compile_result("triangle.vert", 42, true, String::new());
    match r {
        Ok(id) => assert_eq!(id, 42),
        Err(_) => panic!("a successful compile must hand the stage handle on"),
    }
}

#[test]
fn successful_link_detaches_every_stage() {
    let mut b = ProgramBuilder::new(11);
    b.attach(3);
    b.attach(4);
    let r = b.record_link("shaders/triangle", true, String::new());
    match r {
        Ok(detach) => assert_eq!(detach, vec![3, 4]),
        Err(_) => panic!("a successful link must not fail"),
    }
    assert_eq!(b.state, LinkState::Linked);
    assert_eq!(b.attached.len(), 0);
    assert_eq!(b.program_id, 11);
}

#[test]
fn failed_link_detaches_nothing() {
    let mut b = ProgramBuilder::new(11);
    b.attach(3);
    b.attach(4);
    let r = b.record_link("shaders/triangle", false, String::from("undeclared varying"));
    match r {
        Err(Error::LinkError { name, message }) => {
            assert_eq!(name, "shaders/triangle");
            assert_eq!(message, "undeclared varying");
        }
        _ => panic!("a failed link must surface as LinkError"),
    }
    // Both stages are still attached, inspectable as they were.
    assert_eq!(b.state, LinkState::LinkFailed);
    assert_eq!(b.attached, vec![3, 4]);
}

#[test]
fn program_build_from_logical_name_with_both_resources_present() {
    // Walk the whole decision path of building a program from a logical
    // name, with the loader and the driver answering success throughout.
    let names = program_resource_names("shaders/triangle");
    let mut builder = ProgramBuilder::new(1);
    let mut next_stage: u32 = 10;
    for name in &names {
        let loaded: Result<String, ResourceError> = Ok(String::from("void main() {}"));
        let (kind, _src) = stage_from_load(name, loaded).expect("present resources must load");
        match kind {
            ShaderKind::Vertex => assert!(name.ends_with(".vert")),
            ShaderKind::Fragment => assert!(name.ends_with(".frag")),
        }
        let stage = compile_result(name, next_stage, true, String::new())
            .expect("valid sources must compile");
        builder.attach(stage);
        next_stage += 1;
    }
    let detach = builder
        .record_link("shaders/triangle", true, String::new())
        .expect("a linking driver must yield a usable program");
    assert_eq!(detach, vec![10, 11]);
    assert_eq!(builder.state, LinkState::Linked);
}

#[test]
fn program_build_fails_as_resource_load_when_one_resource_is_absent() {
    let names = program_resource_names("shaders/triangle");
    // The vertex stage loads; the fragment resource is absent.
    let outcomes: Vec<Result<String, ResourceError>> = vec![
        Ok(String::from("void main() {}")),
        Err(ResourceError {
            message: String::from("missing"),
        }),
    ];
    let mut failure: Option<Error> = None;
    for (name, loaded) in names.iter().zip(outcomes.into_iter()) {
        if let Err(e) = stage_from_load(name, loaded) {
            failure = Some(e);
            break;
        }
    }
    match failure {
        Some(Error::ResourceLoad { name, inner }) => {
            assert_eq!(name, "shaders/triangle.frag");
            assert_eq!(inner.message, "missing");
        }
        _ => panic!("an absent resource must fail the build as ResourceLoad"),
    }
}
