use trippy::program::{Program, ProgramBuild, ProgramCommand, ProgramState, ProgramStep};
use trippy::protocol::{Reply, Step};
use trippy::shader::Shader;

fn run(shaders: &[Shader], replies: Vec<Reply<Vec<u8>>>) -> (Vec<ProgramStep>, ProgramBuild) {
    let (mut state, first) = Program::start(shaders);
    assert_eq!(first, ProgramCommand::Create);
    let mut steps = Vec::new();
    for reply in replies {
        assert!(state.accepts(&reply), "reply {:?} refused in {:?}", reply, state);
        let (next, step) = state.step(reply);
        state = next;
        steps.push(step);
    }
    (steps, state)
}

#[test]
fn program_attaches_shaders_in_order_then_links() {
    let shaders = [Shader { id: 4 }, Shader { id: 5 }];
    let (steps, state) = run(
        &shaders,
        vec![Reply::Name(11), Reply::Done, Reply::Done, Reply::Done, Reply::Value(1)],
    );
    assert_eq!(
        steps,
        vec![
            Step::Issue(ProgramCommand::Attach { program: 11, shader: 4 }),
            Step::Issue(ProgramCommand::Attach { program: 11, shader: 5 }),
            Step::Issue(ProgramCommand::Link { program: 11 }),
            Step::Issue(ProgramCommand::QueryLinkStatus { program: 11 }),
            Step::Finish(Ok(Program { id: 11 })),
        ]
    );
    assert_eq!(state, ProgramState::Finished);
}

#[test]
fn program_without_shaders_links_at_once() {
    let (steps, _) = run(&[], vec![Reply::Name(1), Reply::Done, Reply::Value(1)]);
    assert_eq!(
        steps,
        vec![
            Step::Issue(ProgramCommand::Link { program: 1 }),
            Step::Issue(ProgramCommand::QueryLinkStatus { program: 1 }),
            Step::Finish(Ok(Program { id: 1 })),
        ]
    );
}

#[test]
fn program_failure_reads_log_and_deletes() {
    let (steps, _) = run(
        &[Shader { id: 2 }],
        vec![
            Reply::Name(8),
            Reply::Done,
            Reply::Done,
            Reply::Value(0),
            Reply::Value(4),
            Reply::Log(b"bad\0".to_vec()),
            Reply::Done,
        ],
    );
    assert_eq!(
        &steps[3..],
        &[
            Step::Issue(ProgramCommand::QueryLogLength { program: 8 }),
            Step::Issue(ProgramCommand::ReadLog { program: 8, length: 4 }),
            Step::Issue(ProgramCommand::Delete { program: 8 }),
            Step::Finish(Err(String::from("LINKFAIL: bad\0"))),
        ][..]
    );
}

#[test]
fn program_failure_without_log() {
    let (steps, _) = run(
        &[],
        vec![Reply::Name(8), Reply::Done, Reply::Value(0), Reply::Value(0), Reply::Done],
    );
    assert_eq!(steps[3], Step::Issue(ProgramCommand::Delete { program: 8 }));
    assert_eq!(steps[4], Step::Finish(Err(String::from("No program link log :|"))));
}

#[test]
fn program_failure_with_undecodable_log() {
    let (steps, _) = run(
        &[],
        vec![
            Reply::Name(8),
            Reply::Done,
            Reply::Value(0),
            Reply::Value(3),
            Reply::Log(vec![b'o', b'k', 0xc3]),
            Reply::Done,
        ],
    );
    assert_eq!(
        steps[5],
        Step::Finish(Err(String::from(
            "Could not decode shader log incomplete utf-8 byte sequence from index 2"
        )))
    );
}

#[test]
fn program_refuses_negative_log_length() {
    let waiting: ProgramBuild = ProgramState::AwaitLogLength { program: 3 };
    assert!(!waiting.accepts(&Reply::Value(-1)));
    assert!(waiting.accepts(&Reply::Value(0)));
    assert!(!waiting.accepts(&Reply::Done));
    let finished: ProgramBuild = ProgramState::Finished;
    assert!(!finished.accepts(&Reply::Done));
    assert!(!finished.accepts(&Reply::Name(1)));
}
