//! Building a shader: upload the source, compile it, check the compile
//! status, and on failure read the info log and delete the shader.

use vstd::prelude::*;

use crate::info_log::{
    compile_failure_message, compile_failure_text, missing_compile_log_message,
    missing_compile_log_text,
};
use crate::protocol::{GlReply, Reply, Step, GL_TRUE};

verus! {

/// A compiled shader object, known by its OpenGL name.
#[derive(Debug, PartialEq, Eq)]
pub struct Shader {
    pub id: u32,
}

/// A command that building a shader asks the driver to run.
#[derive(Debug, PartialEq, Eq)]
pub enum ShaderCommand {
    /// `glCreateShader(kind)`; answered by the new name.
    Create { kind: u32 },
    /// `glShaderSource` with the one source string, of `length` bytes.
    Source { shader: u32, length: i32 },
    /// `glCompileShader`.
    Compile { shader: u32 },
    /// `glGetShaderiv(shader, GL_COMPILE_STATUS)`; answered by the value.
    QueryCompileStatus { shader: u32 },
    /// `glGetShaderiv(shader, GL_INFO_LOG_LENGTH)`; answered by the value.
    QueryLogLength { shader: u32 },
    /// `glGetShaderInfoLog` into a buffer of `length` bytes; answered by them.
    ReadLog { shader: u32, length: i32 },
    /// `glDeleteShader`.
    Delete { shader: u32 },
}

/// Where a shader build stands, with a pending error text as `M`.
#[derive(Debug, PartialEq, Eq)]
pub enum ShaderState<M> {
    /// `Create` was issued; the source is `length` bytes long.
    AwaitName { length: i32 },
    /// `Source` was issued.
    Uploading { shader: u32 },
    /// `Compile` was issued.
    Compiling { shader: u32 },
    /// `QueryCompileStatus` was issued.
    AwaitStatus { shader: u32 },
    /// `QueryLogLength` was issued.
    AwaitLogLength { shader: u32 },
    /// `ReadLog` was issued for `length` bytes.
    AwaitLog { shader: u32, length: i32 },
    /// `Delete` was issued; the build then fails with `message`.
    Deleting { shader: u32, message: M },
    /// The build is over.
    Finished,
}

/// A shader build while it runs.
pub type ShaderBuild = ShaderState<String>;

/// What a shader build does next.
pub type ShaderStep = Step<ShaderCommand, Shader, String>;

/// A shader build as the specifications see it.
pub type ShaderModel = ShaderState<Seq<char>>;

/// A step of a shader build as the specifications see it.
pub type ShaderStepModel = Step<ShaderCommand, Shader, Seq<char>>;

impl View for ShaderState<String> {
    type V = ShaderState<Seq<char>>;

    open spec fn view(&self) -> ShaderState<Seq<char>> {
        match self {
            ShaderState::AwaitName { length } => ShaderState::AwaitName { length: *length },
            ShaderState::Uploading { shader } => ShaderState::Uploading { shader: *shader },
            ShaderState::Compiling { shader } => ShaderState::Compiling { shader: *shader },
            ShaderState::AwaitStatus { shader } => ShaderState::AwaitStatus { shader: *shader },
            ShaderState::AwaitLogLength { shader } => ShaderState::AwaitLogLength {
                shader: *shader,
            },
            ShaderState::AwaitLog { shader, length } => ShaderState::AwaitLog {
                shader: *shader,
                length: *length,
            },
            ShaderState::Deleting { shader, message } => ShaderState::Deleting {
                shader: *shader,
                message: message@,
            },
            ShaderState::Finished => ShaderState::Finished,
        }
    }
}

/// The replies a shader build can take in state `s`: the kind of answer its
/// last command gives, and for a log exactly the bytes asked for.
pub open spec fn shader_accepts(s: ShaderModel, r: Reply<Seq<u8>>) -> bool {
    match s {
        ShaderState::AwaitName { .. } => r is Name,
        ShaderState::Uploading { .. } => r is Done,
        ShaderState::Compiling { .. } => r is Done,
        ShaderState::AwaitStatus { .. } => r is Value,
        ShaderState::AwaitLogLength { .. } => r is Value,
        ShaderState::AwaitLog { length, .. } => r matches Reply::Log(bytes) && bytes.len()
            == length,
        ShaderState::Deleting { .. } => r is Done,
        ShaderState::Finished => false,
    }
}

/// The state and step that follow reply `r` in state `s`.
pub open spec fn shader_transition(s: ShaderModel, r: Reply<Seq<u8>>) -> (
    ShaderModel,
    ShaderStepModel,
) {
    match (s, r) {
        (ShaderState::AwaitName { length }, Reply::Name(id)) => (
            ShaderState::Uploading { shader: id },
            Step::Issue(ShaderCommand::Source { shader: id, length }),
        ),
        (ShaderState::Uploading { shader }, _) => (
            ShaderState::Compiling { shader },
            Step::Issue(ShaderCommand::Compile { shader }),
        ),
        (ShaderState::Compiling { shader }, _) => (
            ShaderState::AwaitStatus { shader },
            Step::Issue(ShaderCommand::QueryCompileStatus { shader }),
        ),
        (ShaderState::AwaitStatus { shader }, Reply::Value(status)) => if status == GL_TRUE {
            (ShaderState::Finished, Step::Finish(Ok(Shader { id: shader })))
        } else {
            (
                ShaderState::AwaitLogLength { shader },
                Step::Issue(ShaderCommand::QueryLogLength { shader }),
            )
        },
        (ShaderState::AwaitLogLength { shader }, Reply::Value(length)) => if length <= 0 {
            (
                ShaderState::Deleting { shader, message: missing_compile_log_text() },
                Step::Issue(ShaderCommand::Delete { shader }),
            )
        } else {
            (
                ShaderState::AwaitLog { shader, length },
                Step::Issue(ShaderCommand::ReadLog { shader, length }),
            )
        },
        (ShaderState::AwaitLog { shader, .. }, Reply::Log(bytes)) => (
            ShaderState::Deleting { shader, message: compile_failure_text(bytes) },
            Step::Issue(ShaderCommand::Delete { shader }),
        ),
        (ShaderState::Deleting { message, .. }, _) => (
            ShaderState::Finished,
            Step::Finish(Err(message)),
        ),
        _ => (s, Step::Finish(Err(Seq::empty()))),
    }
}

impl Shader {
    /// Starts building a shader of the given kind from `source`: the first
    /// command creates the shader object.
    pub fn start(kind: u32, source: &str) -> (res: (ShaderBuild, ShaderCommand))
        ensures
            res.0@ == (ShaderModel::AwaitName { length: source.len() as i32 }),
            res.1 == (ShaderCommand::Create { kind }),
    {
        // As the driver takes it: the byte length, truncated to a GLint.
        let length = #[verifier::truncate] (source.len() as i32);
        (ShaderState::AwaitName { length }, ShaderCommand::Create { kind })
    }
}

impl ShaderState<String> {
    /// Whether this build can take `reply` as the answer to its last command.
    pub fn accepts(&self, reply: &GlReply) -> (ok: bool)
        ensures
            ok == shader_accepts(self@, reply@),
    {
        match self {
            ShaderState::AwaitName { .. } => matches!(reply, Reply::Name(_)),
            ShaderState::Uploading { .. } => matches!(reply, Reply::Done),
            ShaderState::Compiling { .. } => matches!(reply, Reply::Done),
            ShaderState::AwaitStatus { .. } => matches!(reply, Reply::Value(_)),
            ShaderState::AwaitLogLength { .. } => matches!(reply, Reply::Value(_)),
            ShaderState::AwaitLog { length, .. } => match reply {
                Reply::Log(bytes) => *length >= 0 && bytes.len() == *length as usize,
                _ => false,
            },
            ShaderState::Deleting { .. } => matches!(reply, Reply::Done),
            ShaderState::Finished => false,
        }
    }

    /// Takes the driver's answer to the last command and gives the next
    /// state and what to do next.
    pub fn step(self, reply: GlReply) -> (res: (ShaderBuild, ShaderStep))
        requires
            shader_accepts(self@, reply@),
        ensures
            (res.0@, res.1@) == shader_transition(self@, reply@),
    {
        match (self, reply) {
            (ShaderState::AwaitName { length }, Reply::Name(id)) => (
                ShaderState::Uploading { shader: id },
                Step::Issue(ShaderCommand::Source { shader: id, length }),
            ),
            (ShaderState::Uploading { shader }, _) => (
                ShaderState::Compiling { shader },
                Step::Issue(ShaderCommand::Compile { shader }),
            ),
            (ShaderState::Compiling { shader }, _) => (
                ShaderState::AwaitStatus { shader },
                Step::Issue(ShaderCommand::QueryCompileStatus { shader }),
            ),
            (ShaderState::AwaitStatus { shader }, Reply::Value(status)) => {
                if status == GL_TRUE {
                    (ShaderState::Finished, Step::Finish(Ok(Shader { id: shader })))
                } else {
                    (
                        ShaderState::AwaitLogLength { shader },
                        Step::Issue(ShaderCommand::QueryLogLength { shader }),
                    )
                }
            },
            (ShaderState::AwaitLogLength { shader }, Reply::Value(length)) => {
                if length <= 0 {
                    (
                        ShaderState::Deleting { shader, message: missing_compile_log_message() },
                        Step::Issue(ShaderCommand::Delete { shader }),
                    )
                } else {
                    (
                        ShaderState::AwaitLog { shader, length },
                        Step::Issue(ShaderCommand::ReadLog { shader, length }),
                    )
                }
            },
            (ShaderState::AwaitLog { shader, .. }, Reply::Log(bytes)) => (
                ShaderState::Deleting { shader, message: compile_failure_message(bytes) },
                Step::Issue(ShaderCommand::Delete { shader }),
            ),
            (ShaderState::Deleting { message, .. }, _) => (
                ShaderState::Finished,
                Step::Finish(Err(message)),
            ),
            (state, _) => (state, Step::Finish(Err(String::new()))),
        }
    }
}

} // verus!

verus! {

/// The state reached and the steps taken when a shader build in state `s`
/// takes the replies `rs` one after another.
pub open spec fn shader_run(s: ShaderModel, rs: Seq<Reply<Seq<u8>>>) -> (
    ShaderModel,
    Seq<ShaderStepModel>,
)
    decreases rs.len(),
{
    if rs.len() == 0 {
        (s, Seq::empty())
    } else {
        let (next, step) = shader_transition(s, rs[0]);
        let (last, steps) = shader_run(next, rs.drop_first());
        (last, seq![step] + steps)
    }
}

/// Whether every reply of `rs` is one the build can take when it comes.
pub open spec fn shader_run_accepted(s: ShaderModel, rs: Seq<Reply<Seq<u8>>>) -> bool
    decreases rs.len(),
{
    rs.len() == 0 || (shader_accepts(s, rs[0]) && shader_run_accepted(
        shader_transition(s, rs[0]).0,
        rs.drop_first(),
    ))
}

/// The replies a driver gives to a shader build: the name `id`, two
/// acknowledgements, the compile status and, when it is not `GL_TRUE`, the
/// log length, then the log when there is one, and the acknowledgement of the
/// deletion.
pub open spec fn shader_replies(id: u32, status: i32, log_length: i32, log: Seq<u8>) -> Seq<
    Reply<Seq<u8>>,
> {
    let head = seq![Reply::Name(id), Reply::Done, Reply::Done, Reply::Value(status)];
    if status == GL_TRUE {
        head
    } else if log_length <= 0 {
        head + seq![Reply::Value(log_length), Reply::Done]
    } else {
        head + seq![Reply::Value(log_length), Reply::Log(log), Reply::Done]
    }
}

/// The steps of a shader build that gets the replies `shader_replies(..)`.
pub open spec fn shader_steps(
    length: i32,
    id: u32,
    status: i32,
    log_length: i32,
    log: Seq<u8>,
) -> Seq<ShaderStepModel> {
    let head = seq![
        Step::Issue(ShaderCommand::Source { shader: id, length }),
        Step::Issue(ShaderCommand::Compile { shader: id }),
        Step::Issue(ShaderCommand::QueryCompileStatus { shader: id }),
    ];
    if status == GL_TRUE {
        head + seq![Step::Finish(Ok(Shader { id }))]
    } else if log_length <= 0 {
        head + seq![
            Step::Issue(ShaderCommand::QueryLogLength { shader: id }),
            Step::Issue(ShaderCommand::Delete { shader: id }),
            Step::Finish(Err(missing_compile_log_text())),
        ]
    } else {
        head + seq![
            Step::Issue(ShaderCommand::QueryLogLength { shader: id }),
            Step::Issue(ShaderCommand::ReadLog { shader: id, length: log_length }),
            Step::Issue(ShaderCommand::Delete { shader: id }),
            Step::Finish(Err(compile_failure_text(log))),
        ]
    }
}

/// A shader build, once created as `id`, uploads its source, compiles it and
/// asks for the compile status. A status of `GL_TRUE` gives the shader `id`.
/// Any other status asks for the log length; with no log (a length of zero or
/// less) the shader is deleted and the build fails with "No shader info log?";
/// otherwise the log is read, the shader deleted, and the build fails with
/// the text made from the log. The build then takes no more replies.
pub proof fn shader_build_protocol(length: i32, id: u32, status: i32, log_length: i32, log: Seq<u8>)
    requires
        status != GL_TRUE && log_length > 0 ==> log.len() == log_length,
    ensures
        shader_run_accepted(
            ShaderModel::AwaitName { length },
            shader_replies(id, status, log_length, log),
        ),
        shader_run(ShaderModel::AwaitName { length }, shader_replies(id, status, log_length, log))
            == (ShaderModel::Finished, shader_steps(length, id, status, log_length, log)),
{
    let rs = shader_replies(id, status, log_length, log);
    let s0 = ShaderModel::AwaitName { length };
    reveal_with_fuel(shader_run, 8);
    reveal_with_fuel(shader_run_accepted, 8);
    assert(rs.drop_first().drop_first().drop_first().drop_first() =~= rs.subrange(4, rs.len() as int));
    if status == GL_TRUE {
        assert(rs.subrange(4, rs.len() as int) =~= Seq::<Reply<Seq<u8>>>::empty());
    } else if log_length <= 0 {
        assert(rs.subrange(4, rs.len() as int) =~= seq![Reply::Value(log_length), Reply::Done]);
    } else {
        assert(rs.subrange(4, rs.len() as int) =~= seq![Reply::Value(log_length), Reply::Log(log), Reply::Done]);
    }
    assert(shader_run(s0, rs).1 =~= shader_steps(length, id, status, log_length, log));
}

} // verus!

verus! {

/// The shader object a build in state `s` works on, once it has one.
pub open spec fn shader_object(s: ShaderModel) -> Option<u32> {
    match s {
        ShaderState::Uploading { shader } => Some(shader),
        ShaderState::Compiling { shader } => Some(shader),
        ShaderState::AwaitStatus { shader } => Some(shader),
        ShaderState::AwaitLogLength { shader } => Some(shader),
        ShaderState::AwaitLog { shader, .. } => Some(shader),
        ShaderState::Deleting { shader, .. } => Some(shader),
        _ => None,
    }
}

/// The shader object a command addresses, if any.
pub open spec fn shader_command_object(c: ShaderCommand) -> Option<u32> {
    match c {
        ShaderCommand::Create { .. } => None,
        ShaderCommand::Source { shader, .. } => Some(shader),
        ShaderCommand::Compile { shader } => Some(shader),
        ShaderCommand::QueryCompileStatus { shader } => Some(shader),
        ShaderCommand::QueryLogLength { shader } => Some(shader),
        ShaderCommand::ReadLog { shader, .. } => Some(shader),
        ShaderCommand::Delete { shader } => Some(shader),
    }
}

/// A build works on the shader it was given the name of: the name that
/// answers `Create` is the object of the next command and of the next state,
/// and from then on every command addresses that object and every state that
/// is not `Finished` keeps it.
pub proof fn shader_build_keeps_its_object(s: ShaderModel, r: Reply<Seq<u8>>)
    requires
        shader_accepts(s, r),
    ensures
        ({
            let (next, step) = shader_transition(s, r);
            let object = match s {
                ShaderState::AwaitName { .. } => Some(r->Name_0),
                _ => shader_object(s),
            };
            &&& step matches Step::Issue(c) ==> shader_command_object(c) == object
            &&& next is Finished || shader_object(next) == object
        }),
{
}

/// A build yields a shader exactly when the compile status it asked for is
/// answered by `GL_TRUE`, and the shader it yields is the object it built.
pub proof fn shader_build_succeeds_only_on_true_status(s: ShaderModel, r: Reply<Seq<u8>>)
    requires
        shader_accepts(s, r),
    ensures
        ({
            let step = shader_transition(s, r).1;
            &&& (step matches Step::Finish(Ok(_))) <==> (s is AwaitStatus && r == Reply::<
                Seq<u8>,
            >::Value(GL_TRUE))
            &&& step matches Step::Finish(Ok(sh)) ==> shader_object(s) == Some(sh.id)
        }),
{
}

/// A build fails only after it has deleted its object: it issues `Delete` for
/// its object exactly when it moves to `Deleting`, and it fails exactly when,
/// in `Deleting`, the deletion is acknowledged, with the message it kept.
pub proof fn shader_build_deletes_before_failing(s: ShaderModel, r: Reply<Seq<u8>>)
    requires
        shader_accepts(s, r),
    ensures
        ({
            let (next, step) = shader_transition(s, r);
            &&& (step is Issue && step->Issue_0 is Delete) <==> next is Deleting
            &&& next is Deleting ==> step == Step::<ShaderCommand, Shader, Seq<char>>::Issue(
                ShaderCommand::Delete { shader: next->Deleting_shader },
            )
            &&& (step is Finish && step->Finish_0 is Err) <==> s is Deleting
            &&& s is Deleting ==> step == Step::<ShaderCommand, Shader, Seq<char>>::Finish(
                Err(s->Deleting_message),
            )
        }),
{
}

/// A build finishes exactly when it moves to `Finished`, and a finished build
/// takes no more replies.
pub proof fn shader_build_finishes_once(s: ShaderModel, r: Reply<Seq<u8>>, later: Reply<Seq<u8>>)
    requires
        shader_accepts(s, r),
    ensures
        (shader_transition(s, r).1 is Finish) <==> (shader_transition(s, r).0 is Finished),
        !shader_accepts(ShaderModel::Finished, later),
{
}

} // verus!
