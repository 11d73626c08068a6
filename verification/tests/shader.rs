use glframe::report::heading;
use glframe::shader::{
    BuildAction, BuildError, BuildStep, DriverReply, Phase, ProgramBuilder, ProtocolError, Stage,
    LOG_CAPACITY, STATUS_TRUE,
};
use glframe::source::{ShaderSource, SourceError};

fn source() -> ShaderSource {
    ShaderSource::new("void main() {}".to_string(), "void main() { }".to_string()).unwrap()
}

/// Plays a whole build against a driver that gives these statuses and logs.
fn build(
    vertex: (i32, &[u8]),
    fragment: (i32, &[u8]),
    link: (i32, &[u8]),
) -> (Vec<BuildAction>, ProgramBuilder) {
    let mut builder = ProgramBuilder::new(source());
    let mut actions = Vec::new();
    loop {
        let action = builder.pending();
        actions.push(action);
        let reply = match action {
            BuildAction::Compile { stage: Stage::Vertex } => {
                DriverReply::Compiled { shader: 11, status: vertex.0 }
            }
            BuildAction::Compile { stage: Stage::Fragment } => {
                DriverReply::Compiled { shader: 12, status: fragment.0 }
            }
            BuildAction::ReadStageLog { stage: Stage::Vertex, .. } => {
                DriverReply::Log { bytes: vertex.1.to_vec() }
            }
            BuildAction::ReadStageLog { stage: Stage::Fragment, .. } => {
                DriverReply::Log { bytes: fragment.1.to_vec() }
            }
            BuildAction::Link { .. } => DriverReply::Linked { program: 7, status: link.0 },
            BuildAction::ReadProgramLog { .. } => DriverReply::Log { bytes: link.1.to_vec() },
            BuildAction::Release { .. } => DriverReply::Released,
            BuildAction::Finish => break,
        };
        assert_eq!(builder.advance(reply), Ok(()));
    }
    (actions, builder)
}

#[test]
fn accepted_pair_gives_program_and_no_diagnostic() {
    let (actions, builder) = build((STATUS_TRUE, b""), (STATUS_TRUE, b""), (STATUS_TRUE, b""));
    assert_eq!(
        actions,
        vec![
            BuildAction::Compile { stage: Stage::Vertex },
            BuildAction::Compile { stage: Stage::Fragment },
            BuildAction::Link { vertex: 11, fragment: 12 },
            BuildAction::Release { vertex: 11, fragment: 12 },
            BuildAction::Finish,
        ]
    );
    assert_eq!(builder.phase(), Phase::Finished);
    let program = builder.finish().unwrap();
    assert_eq!(program.id(), 7);
}

#[test]
fn rejected_vertex_stage_is_the_only_stage_reported() {
    let (actions, builder) = build((0, b"0:1: syntax error"), (STATUS_TRUE, b""), (0, b"no vs"));
    assert_eq!(
        actions,
        vec![
            BuildAction::Compile { stage: Stage::Vertex },
            BuildAction::ReadStageLog { stage: Stage::Vertex, shader: 11, capacity: 512 },
            BuildAction::Compile { stage: Stage::Fragment },
            BuildAction::Link { vertex: 11, fragment: 12 },
            BuildAction::ReadProgramLog { program: 7, capacity: 512 },
            BuildAction::Release { vertex: 11, fragment: 12 },
            BuildAction::Finish,
        ]
    );
    match builder.finish() {
        Err(BuildError::Failed(failure)) => {
            assert_eq!(failure.program, 7);
            assert_eq!(failure.diagnostics.vertex, Some(b"0:1: syntax error".to_vec()));
            assert_eq!(failure.diagnostics.fragment, None);
            assert_eq!(failure.diagnostics.link, Some(b"no vs".to_vec()));
            assert_eq!(
                failure.diagnostics.report(),
                b"Vertex compilation failed\n0:1: syntax error\nProgram compilation failed\nno vs\n"
                    .to_vec()
            );
        }
        other => panic!("unexpected outcome: {:?}", other),
    }
}

#[test]
fn rejected_fragment_stage_is_the_only_stage_reported() {
    let (_, builder) = build((STATUS_TRUE, b""), (-1, b"bad"), (STATUS_TRUE, b""));
    match builder.finish() {
        Err(BuildError::Failed(failure)) => {
            assert_eq!(failure.diagnostics.vertex, None);
            assert_eq!(failure.diagnostics.fragment, Some(b"bad".to_vec()));
            assert_eq!(failure.diagnostics.link, None);
            assert_eq!(
                failure.diagnostics.report(),
                b"Fragment compilation failed\nbad\n".to_vec()
            );
        }
        other => panic!("unexpected outcome: {:?}", other),
    }
}

#[test]
fn rejected_link_is_reported_even_with_an_empty_log() {
    let (_, builder) = build((STATUS_TRUE, b""), (STATUS_TRUE, b""), (0, b""));
    match builder.finish() {
        Err(BuildError::Failed(failure)) => {
            assert_eq!(failure.diagnostics.vertex, None);
            assert_eq!(failure.diagnostics.fragment, None);
            assert_eq!(failure.diagnostics.link, Some(Vec::new()));
            let report = failure.diagnostics.report();
            assert!(!report.is_empty());
            assert_eq!(report, b"Program compilation failed\n\n".to_vec());
        }
        other => panic!("unexpected outcome: {:?}", other),
    }
}

#[test]
fn any_status_but_true_is_a_failure() {
    for status in [0, 2, -1, i32::MAX, i32::MIN] {
        let (_, builder) = build((status, b"x"), (STATUS_TRUE, b""), (STATUS_TRUE, b""));
        assert!(matches!(builder.finish(), Err(BuildError::Failed(_))));
    }
}

#[test]
fn log_is_cut_to_the_buffer() {
    let long: Vec<u8> = (0..600u32).map(|i| (i % 251) as u8).collect();
    let (_, builder) = build((0, &long), (STATUS_TRUE, b""), (STATUS_TRUE, b""));
    match builder.finish() {
        Err(BuildError::Failed(failure)) => {
            let kept = failure.diagnostics.vertex.unwrap();
            assert_eq!(kept.len(), LOG_CAPACITY);
            assert_eq!(kept[..], long[..512]);
        }
        other => panic!("unexpected outcome: {:?}", other),
    }
    let exact: Vec<u8> = vec![b'a'; 512];
    let (_, builder) = build((0, &exact), (STATUS_TRUE, b""), (STATUS_TRUE, b""));
    match builder.finish() {
        Err(BuildError::Failed(failure)) => assert_eq!(failure.diagnostics.vertex, Some(exact)),
        other => panic!("unexpected outcome: {:?}", other),
    }
}

#[test]
fn reply_to_another_call_is_refused() {
    let mut builder = ProgramBuilder::new(source());
    assert_eq!(builder.advance(DriverReply::Released), Err(ProtocolError::UnexpectedReply));
    assert_eq!(
        builder.advance(DriverReply::Linked { program: 1, status: STATUS_TRUE }),
        Err(ProtocolError::UnexpectedReply)
    );
    assert_eq!(
        builder.advance(DriverReply::Log { bytes: vec![1] }),
        Err(ProtocolError::UnexpectedReply)
    );
    assert_eq!(builder.phase(), Phase::CompilingVertex);
    assert_eq!(builder.pending(), BuildAction::Compile { stage: Stage::Vertex });
    assert_eq!(builder.advance(DriverReply::Compiled { shader: 3, status: 0 }), Ok(()));
    assert_eq!(builder.phase(), Phase::ReadingVertexLog);
    assert_eq!(
        builder.advance(DriverReply::Compiled { shader: 4, status: STATUS_TRUE }),
        Err(ProtocolError::UnexpectedReply)
    );
    assert_eq!(
        builder.pending(),
        BuildAction::ReadStageLog { stage: Stage::Vertex, shader: 3, capacity: LOG_CAPACITY }
    );
}

#[test]
fn outcome_before_the_end_is_unfinished() {
    let builder = ProgramBuilder::new(source());
    assert!(matches!(builder.finish(), Err(BuildError::Unfinished)));
    let mut builder = ProgramBuilder::new(source());
    builder.advance(DriverReply::Compiled { shader: 1, status: STATUS_TRUE }).unwrap();
    builder.advance(DriverReply::Compiled { shader: 2, status: STATUS_TRUE }).unwrap();
    builder.advance(DriverReply::Linked { program: 3, status: STATUS_TRUE }).unwrap();
    assert_eq!(builder.pending(), BuildAction::Release { vertex: 1, fragment: 2 });
    assert!(matches!(builder.finish(), Err(BuildError::Unfinished)));
}

#[test]
fn finished_build_takes_no_more_replies() {
    let (_, mut builder) = build((STATUS_TRUE, b""), (STATUS_TRUE, b""), (STATUS_TRUE, b""));
    assert_eq!(builder.advance(DriverReply::Released), Err(ProtocolError::UnexpectedReply));
    assert_eq!(builder.pending(), BuildAction::Finish);
}

#[test]
fn headings_of_the_three_steps() {
    assert_eq!(heading(BuildStep::CompileVertex), "Vertex compilation failed\n");
    assert_eq!(heading(BuildStep::CompileFragment), "Fragment compilation failed\n");
    assert_eq!(heading(BuildStep::Link), "Program compilation failed\n");
}

#[test]
fn builder_keeps_its_source() {
    let builder = ProgramBuilder::new(source());
    assert_eq!(builder.source().text(Stage::Vertex), "void main() {}");
    assert_eq!(builder.source().text(Stage::Fragment), "void main() { }");
}

#[test]
fn source_with_nul_is_refused() {
    assert_eq!(
        ShaderSource::new("a\0b".to_string(), "c\0".to_string()).err(),
        Some(SourceError::InteriorNul(Stage::Vertex))
    );
    assert_eq!(
        ShaderSource::new("ab".to_string(), "c\0".to_string()).err(),
        Some(SourceError::InteriorNul(Stage::Fragment))
    );
    assert!(ShaderSource::new(String::new(), String::new()).is_ok());
    assert!(ShaderSource::new("é ü 0".to_string(), "void".to_string()).is_ok());
}
