use trippy::protocol::{Reply, Step};
use trippy::shader::{Shader, ShaderBuild, ShaderCommand, ShaderState, ShaderStep};

const VERTEX_SHADER: u32 = 0x8B31;

fn run(kind: u32, source: &str, replies: Vec<Reply<Vec<u8>>>) -> (Vec<ShaderStep>, ShaderBuild) {
    let (mut state, first) = Shader::start(kind, source);
    assert_eq!(first, ShaderCommand::Create { kind });
    let mut steps = Vec::new();
    for reply in replies {
        assert!(state.accepts(&reply), "reply {:?} refused in {:?}", reply, state);
        let (next, step) = state.step(reply);
        state = next;
        steps.push(step);
    }
    (steps, state)
}

#[test]
fn shader_compiles_on_true_status() {
    let (steps, state) = run(
        VERTEX_SHADER,
        "void main() {}",
        vec![Reply::Name(7), Reply::Done, Reply::Done, Reply::Value(1)],
    );
    assert_eq!(
        steps,
        vec![
            Step::Issue(ShaderCommand::Source { shader: 7, length: 14 }),
            Step::Issue(ShaderCommand::Compile { shader: 7 }),
            Step::Issue(ShaderCommand::QueryCompileStatus { shader: 7 }),
            Step::Finish(Ok(Shader { id: 7 })),
        ]
    );
    assert_eq!(state, ShaderState::Finished);
}

#[test]
fn shader_source_length_counts_bytes() {
    let (start, _) = Shader::start(VERTEX_SHADER, "é");
    assert_eq!(start, ShaderState::AwaitName { length: 2 });
}

#[test]
fn shader_failure_reads_log_and_deletes() {
    let (steps, state) = run(
        VERTEX_SHADER,
        "x",
        vec![
            Reply::Name(3),
            Reply::Done,
            Reply::Done,
            Reply::Value(0),
            Reply::Value(5),
            Reply::Log(b"oops\0".to_vec()),
            Reply::Done,
        ],
    );
    assert_eq!(
        steps,
        vec![
            Step::Issue(ShaderCommand::Source { shader: 3, length: 1 }),
            Step::Issue(ShaderCommand::Compile { shader: 3 }),
            Step::Issue(ShaderCommand::QueryCompileStatus { shader: 3 }),
            Step::Issue(ShaderCommand::QueryLogLength { shader: 3 }),
            Step::Issue(ShaderCommand::ReadLog { shader: 3, length: 5 }),
            Step::Issue(ShaderCommand::Delete { shader: 3 }),
            Step::Finish(Err(String::from("COMPILEFAIL: oops\0"))),
        ]
    );
    assert_eq!(state, ShaderState::Finished);
}

#[test]
fn shader_failure_without_log() {
    for length in [0, -4] {
        let (steps, _) = run(
            VERTEX_SHADER,
            "x",
            vec![
                Reply::Name(9),
                Reply::Done,
                Reply::Done,
                Reply::Value(0),
                Reply::Value(length),
                Reply::Done,
            ],
        );
        assert_eq!(steps[4], Step::Issue(ShaderCommand::Delete { shader: 9 }));
        assert_eq!(steps[5], Step::Finish(Err(String::from("No shader info log?"))));
    }
}

#[test]
fn shader_failure_with_undecodable_log() {
    let (steps, _) = run(
        VERTEX_SHADER,
        "x",
        vec![
            Reply::Name(2),
            Reply::Done,
            Reply::Done,
            Reply::Value(7),
            Reply::Value(2),
            Reply::Log(vec![0xff, b'a']),
            Reply::Done,
        ],
    );
    assert_eq!(
        steps[6],
        Step::Finish(Err(String::from(
            "Could not convert compilation log from buffer: invalid utf-8 sequence of 1 bytes from index 0"
        )))
    );
}

#[test]
fn shader_build_refuses_unexpected_replies() {
    let (state, _) = Shader::start(VERTEX_SHADER, "x");
    assert!(!state.accepts(&Reply::Done));
    assert!(!state.accepts(&Reply::Value(1)));
    let (state, _) = state.step(Reply::Name(1));
    assert!(!state.accepts(&Reply::Name(2)));
    let waiting_log: ShaderBuild = ShaderState::AwaitLog { shader: 1, length: 4 };
    assert!(!waiting_log.accepts(&Reply::Log(vec![1, 2, 3])));
    assert!(waiting_log.accepts(&Reply::Log(vec![b'a', b'b', b'c', 0])));
    let finished: ShaderBuild = ShaderState::Finished;
    assert!(!finished.accepts(&Reply::Done));
}
