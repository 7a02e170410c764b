//! Building a program: attach the shaders, link, check the link status, and
//! on failure read the info log and delete the program.

use vstd::prelude::*;

use crate::info_log::{
    link_failure_message, link_failure_text, missing_link_log_message, missing_link_log_text,
};
use crate::protocol::{GlReply, Reply, Step, GL_TRUE};
use crate::shader::Shader;

verus! {

/// A linked program object, known by its OpenGL name.
#[derive(Debug, PartialEq, Eq)]
pub struct Program {
    pub id: u32,
}

/// A command that building a program asks the driver to run.
#[derive(Debug, PartialEq, Eq)]
pub enum ProgramCommand {
    /// `glCreateProgram`; answered by the new name.
    Create,
    /// `glAttachShader`.
    Attach { program: u32, shader: u32 },
    /// `glLinkProgram`.
    Link { program: u32 },
    /// `glGetProgramiv(program, GL_LINK_STATUS)`; answered by the value.
    QueryLinkStatus { program: u32 },
    /// `glGetProgramiv(program, GL_INFO_LOG_LENGTH)`; answered by the value.
    QueryLogLength { program: u32 },
    /// `glGetProgramInfoLog` into a buffer of `length` bytes; answered by them.
    ReadLog { program: u32, length: i32 },
    /// `glDeleteProgram`.
    Delete { program: u32 },
}

/// Where a program build stands, with the names of the shaders to attach as
/// `S` and a pending error text as `M`.
#[derive(Debug, PartialEq, Eq)]
pub enum ProgramState<S, M> {
    /// `Create` was issued.
    AwaitName { shaders: S },
    /// `Attach` was issued for `shaders[next - 1]`.
    Attaching { program: u32, shaders: S, next: usize },
    /// `Link` was issued.
    Linking { program: u32 },
    /// `QueryLinkStatus` was issued.
    AwaitStatus { program: u32 },
    /// `QueryLogLength` was issued.
    AwaitLogLength { program: u32 },
    /// `ReadLog` was issued for `length` bytes.
    AwaitLog { program: u32, length: i32 },
    /// `Delete` was issued; the build then fails with `message`.
    Deleting { program: u32, message: M },
    /// The build is over.
    Finished,
}

/// A program build while it runs.
pub type ProgramBuild = ProgramState<Vec<u32>, String>;

/// What a program build does next.
pub type ProgramStep = Step<ProgramCommand, Program, String>;

/// A program build as the specifications see it.
pub type ProgramModel = ProgramState<Seq<u32>, Seq<char>>;

/// A step of a program build as the specifications see it.
pub type ProgramStepModel = Step<ProgramCommand, Program, Seq<char>>;

impl View for ProgramState<Vec<u32>, String> {
    type V = ProgramState<Seq<u32>, Seq<char>>;

    open spec fn view(&self) -> ProgramState<Seq<u32>, Seq<char>> {
        match self {
            ProgramState::AwaitName { shaders } => ProgramState::AwaitName { shaders: shaders@ },
            ProgramState::Attaching { program, shaders, next } => ProgramState::Attaching {
                program: *program,
                shaders: shaders@,
                next: *next,
            },
            ProgramState::Linking { program } => ProgramState::Linking { program: *program },
            ProgramState::AwaitStatus { program } => ProgramState::AwaitStatus {
                program: *program,
            },
            ProgramState::AwaitLogLength { program } => ProgramState::AwaitLogLength {
                program: *program,
            },
            ProgramState::AwaitLog { program, length } => ProgramState::AwaitLog {
                program: *program,
                length: *length,
            },
            ProgramState::Deleting { program, message } => ProgramState::Deleting {
                program: *program,
                message: message@,
            },
            ProgramState::Finished => ProgramState::Finished,
        }
    }
}

/// The replies a program build can take in state `s`: the kind of answer its
/// last command gives, a log length that is not negative (a buffer of
/// negative length cannot be made), and for a log exactly the bytes asked
/// for.
pub open spec fn program_accepts(s: ProgramModel, r: Reply<Seq<u8>>) -> bool {
    match s {
        ProgramState::AwaitName { .. } => r is Name,
        ProgramState::Attaching { shaders, next, .. } => r is Done && next <= shaders.len(),
        ProgramState::Linking { .. } => r is Done,
        ProgramState::AwaitStatus { .. } => r is Value,
        ProgramState::AwaitLogLength { .. } => r matches Reply::Value(length) && length >= 0,
        ProgramState::AwaitLog { length, .. } => r matches Reply::Log(bytes) && bytes.len()
            == length,
        ProgramState::Deleting { .. } => r is Done,
        ProgramState::Finished => false,
    }
}

/// Attaches `shaders[next]` to `program` if there is one, else links.
pub open spec fn attach_or_link(program: u32, shaders: Seq<u32>, next: int) -> (
    ProgramModel,
    ProgramStepModel,
) {
    if next < shaders.len() {
        (
            ProgramState::Attaching { program, shaders, next: (next + 1) as usize },
            Step::Issue(ProgramCommand::Attach { program, shader: shaders[next] }),
        )
    } else {
        (ProgramState::Linking { program }, Step::Issue(ProgramCommand::Link { program }))
    }
}

/// The state and step that follow reply `r` in state `s`.
pub open spec fn program_transition(s: ProgramModel, r: Reply<Seq<u8>>) -> (
    ProgramModel,
    ProgramStepModel,
) {
    match (s, r) {
        (ProgramState::AwaitName { shaders }, Reply::Name(id)) => attach_or_link(id, shaders, 0),
        (ProgramState::Attaching { program, shaders, next }, _) => attach_or_link(
            program,
            shaders,
            next as int,
        ),
        (ProgramState::Linking { program }, _) => (
            ProgramState::AwaitStatus { program },
            Step::Issue(ProgramCommand::QueryLinkStatus { program }),
        ),
        (ProgramState::AwaitStatus { program }, Reply::Value(status)) => if status == GL_TRUE {
            (ProgramState::Finished, Step::Finish(Ok(Program { id: program })))
        } else {
            (
                ProgramState::AwaitLogLength { program },
                Step::Issue(ProgramCommand::QueryLogLength { program }),
            )
        },
        (ProgramState::AwaitLogLength { program }, Reply::Value(length)) => if length == 0 {
            (
                ProgramState::Deleting { program, message: missing_link_log_text() },
                Step::Issue(ProgramCommand::Delete { program }),
            )
        } else {
            (
                ProgramState::AwaitLog { program, length },
                Step::Issue(ProgramCommand::ReadLog { program, length }),
            )
        },
        (ProgramState::AwaitLog { program, .. }, Reply::Log(bytes)) => (
            ProgramState::Deleting { program, message: link_failure_text(bytes) },
            Step::Issue(ProgramCommand::Delete { program }),
        ),
        (ProgramState::Deleting { message, .. }, _) => (
            ProgramState::Finished,
            Step::Finish(Err(message)),
        ),
        _ => (s, Step::Finish(Err(Seq::empty()))),
    }
}

impl Program {
    /// Starts building a program out of `shaders`: the first command creates
    /// the program object.
    pub fn start(shaders: &[Shader]) -> (res: (ProgramBuild, ProgramCommand))
        ensures
            res.0@ == (ProgramModel::AwaitName {
                shaders: shaders@.map_values(|s: Shader| s.id),
            }),
            res.1 == ProgramCommand::Create,
    {
        let mut names: Vec<u32> = Vec::new();
        let mut i: usize = 0;
        while i < shaders.len()
            invariant
                i <= shaders@.len(),
                names@ == shaders@.subrange(0, i as int).map_values(|s: Shader| s.id),
            decreases shaders@.len() - i,
        {
            names.push(shaders[i].id);
            proof {
                assert(shaders@.subrange(0, i + 1) == shaders@.subrange(0, i as int).push(
                    shaders@[i as int],
                ));
            }
            i = i + 1;
        }
        proof {
            assert(shaders@.subrange(0, shaders@.len() as int) == shaders@);
        }
        (ProgramState::AwaitName { shaders: names }, ProgramCommand::Create)
    }
}

/// Attaches `shaders[next]` to `program` if there is one, else links.
fn next_attach_or_link(program: u32, shaders: Vec<u32>, next: usize) -> (res: (
    ProgramBuild,
    ProgramStep,
))
    requires
        next <= shaders@.len(),
    ensures
        (res.0@, res.1@) == attach_or_link(program, shaders@, next as int),
{
    if next < shaders.len() {
        let shader = shaders[next];
        (
            ProgramState::Attaching { program, shaders, next: next + 1 },
            Step::Issue(ProgramCommand::Attach { program, shader }),
        )
    } else {
        (ProgramState::Linking { program }, Step::Issue(ProgramCommand::Link { program }))
    }
}

impl ProgramState<Vec<u32>, String> {
    /// Whether this build can take `reply` as the answer to its last command.
    pub fn accepts(&self, reply: &GlReply) -> (ok: bool)
        ensures
            ok == program_accepts(self@, reply@),
    {
        match self {
            ProgramState::AwaitName { .. } => matches!(reply, Reply::Name(_)),
            ProgramState::Attaching { shaders, next, .. } => matches!(reply, Reply::Done)
                && *next <= shaders.len(),
            ProgramState::Linking { .. } => matches!(reply, Reply::Done),
            ProgramState::AwaitStatus { .. } => matches!(reply, Reply::Value(_)),
            ProgramState::AwaitLogLength { .. } => match reply {
                Reply::Value(length) => *length >= 0,
                _ => false,
            },
            ProgramState::AwaitLog { length, .. } => match reply {
                Reply::Log(bytes) => *length >= 0 && bytes.len() == *length as usize,
                _ => false,
            },
            ProgramState::Deleting { .. } => matches!(reply, Reply::Done),
            ProgramState::Finished => false,
        }
    }

    /// Takes the driver's answer to the last command and gives the next
    /// state and what to do next.
    pub fn step(self, reply: GlReply) -> (res: (ProgramBuild, ProgramStep))
        requires
            program_accepts(self@, reply@),
        ensures
            (res.0@, res.1@) == program_transition(self@, reply@),
    {
        match (self, reply) {
            (ProgramState::AwaitName { shaders }, Reply::Name(id)) => next_attach_or_link(
                id,
                shaders,
                0,
            ),
            (ProgramState::Attaching { program, shaders, next }, _) => next_attach_or_link(
                program,
                shaders,
                next,
            ),
            (ProgramState::Linking { program }, _) => (
                ProgramState::AwaitStatus { program },
                Step::Issue(ProgramCommand::QueryLinkStatus { program }),
            ),
            (ProgramState::AwaitStatus { program }, Reply::Value(status)) => {
                if status == GL_TRUE {
                    (ProgramState::Finished, Step::Finish(Ok(Program { id: program })))
                } else {
                    (
                        ProgramState::AwaitLogLength { program },
                        Step::Issue(ProgramCommand::QueryLogLength { program }),
                    )
                }
            },
            (ProgramState::AwaitLogLength { program }, Reply::Value(length)) => {
                if length == 0 {
                    (
                        ProgramState::Deleting { program, message: missing_link_log_message() },
                        Step::Issue(ProgramCommand::Delete { program }),
                    )
                } else {
                    (
                        ProgramState::AwaitLog { program, length },
                        Step::Issue(ProgramCommand::ReadLog { program, length }),
                    )
                }
            },
            (ProgramState::AwaitLog { program, .. }, Reply::Log(bytes)) => (
                ProgramState::Deleting { program, message: link_failure_message(bytes) },
                Step::Issue(ProgramCommand::Delete { program }),
            ),
            (ProgramState::Deleting { message, .. }, _) => (
                ProgramState::Finished,
                Step::Finish(Err(message)),
            ),
            (state, _) => (state, Step::Finish(Err(String::new()))),
        }
    }
}

} // verus!

verus! {

/// The state reached and the steps taken when a program build in state `s`
/// takes the replies `rs` one after another.
pub open spec fn program_run(s: ProgramModel, rs: Seq<Reply<Seq<u8>>>) -> (
    ProgramModel,
    Seq<ProgramStepModel>,
)
    decreases rs.len(),
{
    if rs.len() == 0 {
        (s, Seq::empty())
    } else {
        let (next, step) = program_transition(s, rs[0]);
        let (last, steps) = program_run(next, rs.drop_first());
        (last, seq![step] + steps)
    }
}

/// Whether every reply of `rs` is one the build can take when it comes.
pub open spec fn program_run_accepted(s: ProgramModel, rs: Seq<Reply<Seq<u8>>>) -> bool
    decreases rs.len(),
{
    rs.len() == 0 || (program_accepts(s, rs[0]) && program_run_accepted(
        program_transition(s, rs[0]).0,
        rs.drop_first(),
    ))
}

/// `count` acknowledgements.
pub open spec fn acknowledgements(count: nat) -> Seq<Reply<Seq<u8>>> {
    Seq::new(count, |i: int| Reply::Done)
}

/// The commands that attach `shaders[from..]` to `program`, in order.
pub open spec fn attach_commands(program: u32, shaders: Seq<u32>, from: int) -> Seq<
    ProgramStepModel,
> {
    Seq::new(
        (shaders.len() - from) as nat,
        |k: int| Step::Issue(ProgramCommand::Attach { program, shader: shaders[from + k] }),
    )
}

/// The replies a driver gives to a program build of `count` shaders: the name
/// `id`, an acknowledgement of each attachment and of the link, the link
/// status and, when it is not `GL_TRUE`, the log length, then the log when
/// there is one, and the acknowledgement of the deletion.
pub open spec fn program_replies(
    id: u32,
    count: nat,
    status: i32,
    log_length: i32,
    log: Seq<u8>,
) -> Seq<Reply<Seq<u8>>> {
    seq![Reply::Name(id)] + acknowledgements(count) + program_status_replies(
        status,
        log_length,
        log,
    )
}

/// The replies from the acknowledgement of the link on.
pub open spec fn program_status_replies(status: i32, log_length: i32, log: Seq<u8>) -> Seq<
    Reply<Seq<u8>>,
> {
    let head = seq![Reply::Done, Reply::Value(status)];
    if status == GL_TRUE {
        head
    } else if log_length == 0 {
        head + seq![Reply::Value(log_length), Reply::Done]
    } else {
        head + seq![Reply::Value(log_length), Reply::Log(log), Reply::Done]
    }
}

/// The steps from the link on.
pub open spec fn program_status_steps(id: u32, status: i32, log_length: i32, log: Seq<u8>) -> Seq<
    ProgramStepModel,
> {
    let head = seq![
        Step::Issue(ProgramCommand::Link { program: id }),
        Step::Issue(ProgramCommand::QueryLinkStatus { program: id }),
    ];
    if status == GL_TRUE {
        head + seq![Step::Finish(Ok(Program { id }))]
    } else if log_length == 0 {
        head + seq![
            Step::Issue(ProgramCommand::QueryLogLength { program: id }),
            Step::Issue(ProgramCommand::Delete { program: id }),
            Step::Finish(Err(missing_link_log_text())),
        ]
    } else {
        head + seq![
            Step::Issue(ProgramCommand::QueryLogLength { program: id }),
            Step::Issue(ProgramCommand::ReadLog { program: id, length: log_length }),
            Step::Issue(ProgramCommand::Delete { program: id }),
            Step::Finish(Err(link_failure_text(log))),
        ]
    }
}

/// From the link on, a build runs as `program_status_steps` says.
proof fn program_status_run(id: u32, status: i32, log_length: i32, log: Seq<u8>)
    requires
        status != GL_TRUE ==> log_length >= 0,
        status != GL_TRUE && log_length > 0 ==> log.len() == log_length,
    ensures
        program_run_accepted(
            ProgramModel::Linking { program: id },
            program_status_replies(status, log_length, log),
        ),
        program_run(
            ProgramModel::Linking { program: id },
            program_status_replies(status, log_length, log),
        ) == (ProgramModel::Finished, program_status_steps(id, status, log_length, log).drop_first()),
{
    let rs = program_status_replies(status, log_length, log);
    reveal_with_fuel(program_run, 6);
    reveal_with_fuel(program_run_accepted, 6);
    assert(rs.drop_first().drop_first() =~= rs.subrange(2, rs.len() as int));
    if status == GL_TRUE {
        assert(rs.subrange(2, rs.len() as int) =~= Seq::<Reply<Seq<u8>>>::empty());
    } else if log_length == 0 {
        assert(rs.subrange(2, rs.len() as int) =~= seq![Reply::Value(log_length), Reply::Done]);
    } else {
        assert(rs.subrange(2, rs.len() as int) =~= seq![
            Reply::Value(log_length),
            Reply::Log(log),
            Reply::Done,
        ]);
    }
    assert(program_run(ProgramModel::Linking { program: id }, rs).1 =~= program_status_steps(
        id,
        status,
        log_length,
        log,
    ).drop_first());
}

/// While attaching, each acknowledgement attaches the next shader, and the
/// last one links.
proof fn attaching_run(program: u32, shaders: Seq<u32>, next: int, rest: Seq<Reply<Seq<u8>>>)
    requires
        1 <= next <= shaders.len(),
        shaders.len() <= usize::MAX,
    ensures
        ({
            let s = ProgramModel::Attaching { program, shaders, next: next as usize };
            let rs = acknowledgements((shaders.len() - next + 1) as nat) + rest;
            let after = program_run(ProgramModel::Linking { program }, rest);
            &&& program_run(s, rs) == (after.0, attach_commands(program, shaders, next) + seq![
                Step::Issue(ProgramCommand::Link { program }),
            ] + after.1)
            &&& program_run_accepted(s, rs) == program_run_accepted(
                ProgramModel::Linking { program },
                rest,
            )
        }),
    decreases shaders.len() - next,
{
    let s = ProgramModel::Attaching { program, shaders, next: next as usize };
    let rs = acknowledgements((shaders.len() - next + 1) as nat) + rest;
    let after = program_run(ProgramModel::Linking { program }, rest);
    assert(rs[0] == Reply::<Seq<u8>>::Done);
    assert(rs.drop_first() =~= acknowledgements((shaders.len() - next) as nat) + rest);
    if next == shaders.len() {
        assert(acknowledgements(0) + rest =~= rest);
        assert(attach_commands(program, shaders, next) =~= Seq::<ProgramStepModel>::empty());
        assert(program_run(s, rs).1 =~= attach_commands(program, shaders, next) + seq![
            Step::Issue(ProgramCommand::Link { program }),
        ] + after.1);
    } else {
        attaching_run(program, shaders, next + 1, rest);
        assert(attach_commands(program, shaders, next) =~= seq![
            Step::Issue(ProgramCommand::Attach { program, shader: shaders[next] }),
        ] + attach_commands(program, shaders, next + 1));
        assert(program_run(s, rs).1 =~= attach_commands(program, shaders, next) + seq![
            Step::Issue(ProgramCommand::Link { program }),
        ] + after.1);
    }
}

/// A program build, once created as `id`, attaches every shader it was
/// given, in order, then links and asks for the link status. A status of
/// `GL_TRUE` gives the program `id`. Any other status asks for the log
/// length; with a length of zero the program is deleted and the build fails
/// with "No program link log :|"; otherwise the log is read, the program
/// deleted, and the build fails with the text made from the log. The build
/// then takes no more replies.
pub proof fn program_build_protocol(
    shaders: Seq<u32>,
    id: u32,
    status: i32,
    log_length: i32,
    log: Seq<u8>,
)
    requires
        shaders.len() <= usize::MAX,
        status != GL_TRUE ==> log_length >= 0,
        status != GL_TRUE && log_length > 0 ==> log.len() == log_length,
    ensures
        program_run_accepted(
            ProgramModel::AwaitName { shaders },
            program_replies(id, shaders.len(), status, log_length, log),
        ),
        program_run(
            ProgramModel::AwaitName { shaders },
            program_replies(id, shaders.len(), status, log_length, log),
        ) == (ProgramModel::Finished, attach_commands(id, shaders, 0) + program_status_steps(
            id,
            status,
            log_length,
            log,
        )),
{
    let s0 = ProgramModel::AwaitName { shaders };
    let rs = program_replies(id, shaders.len(), status, log_length, log);
    let tail = program_status_replies(status, log_length, log);
    let tail_steps = program_status_steps(id, status, log_length, log);
    program_status_run(id, status, log_length, log);
    assert(rs[0] == Reply::<Seq<u8>>::Name(id));
    assert(rs.drop_first() =~= acknowledgements(shaders.len()) + tail);
    if shaders.len() == 0 {
        assert(acknowledgements(0) + tail =~= tail);
        assert(attach_commands(id, shaders, 0) =~= Seq::<ProgramStepModel>::empty());
        assert(tail_steps =~= seq![tail_steps[0]] + tail_steps.drop_first());
        assert(program_run(s0, rs).1 =~= attach_commands(id, shaders, 0) + tail_steps);
    } else {
        attaching_run(id, shaders, 1, tail);
        assert(acknowledgements((shaders.len() - 1 + 1) as nat) == acknowledgements(
            shaders.len(),
        ));
        assert(attach_commands(id, shaders, 0) =~= seq![
            Step::Issue(ProgramCommand::Attach { program: id, shader: shaders[0] }),
        ] + attach_commands(id, shaders, 1));
        assert(tail_steps =~= seq![tail_steps[0]] + tail_steps.drop_first());
        assert(program_run(s0, rs).1 =~= attach_commands(id, shaders, 0) + tail_steps);
    }
}

} // verus!

verus! {

/// Whether the shader list of `s` is one a `Vec` can hold, as the view of a
/// running build's state always is.
pub open spec fn program_model_fits(s: ProgramModel) -> bool {
    match s {
        ProgramState::AwaitName { shaders } => shaders.len() <= usize::MAX,
        ProgramState::Attaching { shaders, .. } => shaders.len() <= usize::MAX,
        _ => true,
    }
}

/// The program object a build in state `s` works on, once it has one.
pub open spec fn program_object(s: ProgramModel) -> Option<u32> {
    match s {
        ProgramState::Attaching { program, .. } => Some(program),
        ProgramState::Linking { program } => Some(program),
        ProgramState::AwaitStatus { program } => Some(program),
        ProgramState::AwaitLogLength { program } => Some(program),
        ProgramState::AwaitLog { program, .. } => Some(program),
        ProgramState::Deleting { program, .. } => Some(program),
        _ => None,
    }
}

/// The program object a command addresses, if any.
pub open spec fn program_command_object(c: ProgramCommand) -> Option<u32> {
    match c {
        ProgramCommand::Create => None,
        ProgramCommand::Attach { program, .. } => Some(program),
        ProgramCommand::Link { program } => Some(program),
        ProgramCommand::QueryLinkStatus { program } => Some(program),
        ProgramCommand::QueryLogLength { program } => Some(program),
        ProgramCommand::ReadLog { program, .. } => Some(program),
        ProgramCommand::Delete { program } => Some(program),
    }
}

/// A build works on the program it was given the name of: the name that
/// answers `Create` is the object of the next command and of the next state,
/// and from then on every command addresses that object and every state that
/// is not `Finished` keeps it.
pub proof fn program_build_keeps_its_object(s: ProgramModel, r: Reply<Seq<u8>>)
    requires
        program_accepts(s, r),
    ensures
        ({
            let (next, step) = program_transition(s, r);
            let object = match s {
                ProgramState::AwaitName { .. } => Some(r->Name_0),
                _ => program_object(s),
            };
            &&& step matches Step::Issue(c) ==> program_command_object(c) == object
            &&& next is Finished || program_object(next) == object
        }),
{
}

/// A build attaches only the shaders it was given, each at its turn: an
/// `Attach` issued in state `AwaitName` or `Attaching` attaches the shader at
/// the position the build has reached, and the build moves one position on.
pub proof fn program_build_attaches_in_order(s: ProgramModel, r: Reply<Seq<u8>>)
    requires
        program_model_fits(s),
        program_accepts(s, r),
    ensures
        ({
            let (next, step) = program_transition(s, r);
            let shaders = if s is AwaitName {
                s->AwaitName_shaders
            } else {
                s->Attaching_shaders
            };
            let position = if s is AwaitName {
                0
            } else {
                s->Attaching_next as int
            };
            (step is Issue && step->Issue_0 is Attach) ==> {
                &&& (s is AwaitName || s is Attaching)
                &&& position < shaders.len()
                &&& step->Issue_0->Attach_shader == shaders[position]
                &&& next is Attaching
                &&& next->Attaching_shaders == shaders
                &&& next->Attaching_next == position + 1
            }
        }),
{
}

/// A build yields a program exactly when the link status it asked for is
/// answered by `GL_TRUE`, and the program it yields is the object it built.
pub proof fn program_build_succeeds_only_on_true_status(s: ProgramModel, r: Reply<Seq<u8>>)
    requires
        program_accepts(s, r),
    ensures
        ({
            let step = program_transition(s, r).1;
            &&& (step matches Step::Finish(Ok(_))) <==> (s is AwaitStatus && r == Reply::<
                Seq<u8>,
            >::Value(GL_TRUE))
            &&& step matches Step::Finish(Ok(p)) ==> program_object(s) == Some(p.id)
        }),
{
}

/// A build fails only after it has deleted its object: it issues `Delete` for
/// its object exactly when it moves to `Deleting`, and it fails exactly when,
/// in `Deleting`, the deletion is acknowledged, with the message it kept.
pub proof fn program_build_deletes_before_failing(s: ProgramModel, r: Reply<Seq<u8>>)
    requires
        program_accepts(s, r),
    ensures
        ({
            let (next, step) = program_transition(s, r);
            &&& (step is Issue && step->Issue_0 is Delete) <==> next is Deleting
            &&& next is Deleting ==> step == Step::<ProgramCommand, Program, Seq<char>>::Issue(
                ProgramCommand::Delete { program: next->Deleting_program },
            )
            &&& (step is Finish && step->Finish_0 is Err) <==> s is Deleting
            &&& s is Deleting ==> step == Step::<ProgramCommand, Program, Seq<char>>::Finish(
                Err(s->Deleting_message),
            )
        }),
{
}

/// A build finishes exactly when it moves to `Finished`, and a finished build
/// takes no more replies.
pub proof fn program_build_finishes_once(s: ProgramModel, r: Reply<Seq<u8>>, later: Reply<Seq<u8>>)
    requires
        program_accepts(s, r),
    ensures
        (program_transition(s, r).1 is Finish) <==> (program_transition(s, r).0 is Finished),
        !program_accepts(ProgramModel::Finished, later),
{
}

} // verus!
