//! Shader programs: building one from the source text of its two stages,
//! putting it to use, and setting its uniforms.
//!
//! Building a program takes a conversation with the driver. [`ShaderBuild`]
//! holds this layer's side of it: it queues calls, the last of which asks the
//! driver for something, and goes on when it is handed the answer.

use crate::command::{
    plain, Answer, Call, Command, Op, Reply, ReplyKind, ShaderStage, MATRIX_SIZE, NO_LOCATION,
    STAGE_LOG_CAPACITY,
};
use crate::context::Context;
use crate::state::{group_run, lemma_run_pending, GpuState};
use vstd::prelude::*;
use vstd::slice::{slice_subrange, slice_to_vec};
use vstd::string::StringSliceAdditionalSpecFns;

verus! {

broadcast use group_run;

/// Whether `bytes` can be handed to the driver as text: the driver reads
/// text up to the first zero byte, so there must be none.
pub open spec fn driver_text(bytes: Seq<u8>) -> bool {
    forall|i: int| 0 <= i < bytes.len() ==> bytes[i] != 0
}

/// Position of the first zero byte of `text`, if it has one.
pub fn first_nul(text: &str) -> (position: Option<usize>)
    ensures
        match position {
            None => driver_text(text.spec_bytes()),
            Some(at) => {
                &&& at < text.spec_bytes().len()
                &&& text.spec_bytes()[at as int] == 0
                &&& forall|i: int| 0 <= i < at ==> text.spec_bytes()[i] != 0
            },
        },
{
    let bytes = text.as_bytes();
    let mut at: usize = 0;
    while at < bytes.len()
        invariant
            bytes@ == text.spec_bytes(),
            at <= bytes@.len(),
            forall|i: int| 0 <= i < at ==> bytes@[i] != 0,
        decreases bytes@.len() - at,
    {
        if bytes[at] == 0 {
            return Some(at);
        }
        at = at + 1;
    }
    None
}

/// The part of a diagnostic that fits a buffer of `capacity` bytes.
pub open spec fn kept(text: Seq<u8>, capacity: i32) -> Seq<u8> {
    if capacity <= 0 {
        Seq::empty()
    } else if text.len() <= capacity {
        text
    } else {
        text.take(capacity as int)
    }
}

/// The part of a diagnostic that fits a buffer of `capacity` bytes.
pub fn keep(text: &Vec<u8>, capacity: i32) -> (part: Vec<u8>)
    ensures
        part@ == kept(text@, capacity),
{
    if capacity <= 0 {
        Vec::new()
    } else if text.len() <= capacity as usize {
        slice_to_vec(text.as_slice())
    } else {
        let part = slice_to_vec(slice_subrange(text.as_slice(), 0, capacity as usize));
        assert(part@ == text@.take(capacity as int));
        part
    }
}

/// Where the building of a program stands: which answer it waits for.
#[derive(Clone, Copy, Debug, PartialEq, Eq, Structural)]
pub enum Phase {
    /// Waiting for the name of the new shader object of a stage.
    StageName(ShaderStage),
    /// Waiting for the compile status of a stage.
    StageStatus(ShaderStage),
    /// Waiting for the compile diagnostic of a stage.
    StageLog(ShaderStage),
    /// Waiting for the name of the new program object.
    ProgramName,
    /// Waiting for the link status.
    LinkStatus,
    /// Waiting for the length of the link diagnostic.
    LogLength,
    /// Waiting for the link diagnostic.
    ProgramLog,
    /// Nothing is awaited: the shader objects are released and the program
    /// is there, usable or not.
    Done,
}

/// The building of a program, as the mathematical value that contracts speak
/// of.
pub struct BuildState {
    pub phase: Phase,
    pub vertex_source: Seq<u8>,
    pub fragment_source: Seq<u8>,
    /// Name of the vertex shader object; zero until the driver named it.
    pub vertex_shader: u32,
    /// Name of the fragment shader object; zero until the driver named it.
    pub fragment_shader: u32,
    /// Name of the program object; zero until the driver named it.
    pub program: u32,
    /// Length that the driver reported for the link diagnostic.
    pub capacity: i32,
    /// Diagnostic of the vertex stage, if its compilation failed.
    pub vertex_log: Option<Seq<u8>>,
    /// Diagnostic of the fragment stage, if its compilation failed.
    pub fragment_log: Option<Seq<u8>>,
    /// Diagnostic of the link, if it failed.
    pub link_log: Option<Seq<u8>>,
}

impl BuildState {
    /// The building of a program from two source texts, before any answer.
    pub open spec fn start(vertex_source: Seq<u8>, fragment_source: Seq<u8>) -> BuildState {
        BuildState {
            phase: Phase::StageName(ShaderStage::Vertex),
            vertex_source,
            fragment_source,
            vertex_shader: 0,
            fragment_shader: 0,
            program: 0,
            capacity: 0,
            vertex_log: None,
            fragment_log: None,
            link_log: None,
        }
    }

    /// Name of the shader object of a stage.
    pub open spec fn shader(self, stage: ShaderStage) -> u32 {
        match stage {
            ShaderStage::Vertex => self.vertex_shader,
            ShaderStage::Fragment => self.fragment_shader,
        }
    }

    /// Source text of a stage.
    pub open spec fn source(self, stage: ShaderStage) -> Seq<u8> {
        match stage {
            ShaderStage::Vertex => self.vertex_source,
            ShaderStage::Fragment => self.fragment_source,
        }
    }

    /// Diagnostic of a stage, if its compilation failed.
    pub open spec fn log(self, stage: ShaderStage) -> Option<Seq<u8>> {
        match stage {
            ShaderStage::Vertex => self.vertex_log,
            ShaderStage::Fragment => self.fragment_log,
        }
    }

    /// The call whose answer is awaited, if any.
    pub open spec fn awaited(self) -> Option<Call> {
        match self.phase {
            Phase::StageName(stage) => Some(Call::CreateShader { stage }),
            Phase::StageStatus(stage) => Some(
                Call::GetCompileStatus { shader: self.shader(stage) },
            ),
            Phase::StageLog(stage) => Some(
                Call::GetShaderInfoLog { shader: self.shader(stage), capacity: STAGE_LOG_CAPACITY },
            ),
            Phase::ProgramName => Some(Call::CreateProgram),
            Phase::LinkStatus => Some(Call::GetLinkStatus { program: self.program }),
            Phase::LogLength => Some(Call::GetInfoLogLength { program: self.program }),
            Phase::ProgramLog => Some(
                Call::GetProgramInfoLog { program: self.program, capacity: self.capacity },
            ),
            Phase::Done => None,
        }
    }

    /// Whether `answer` is of the kind that the awaited call is owed.
    pub open spec fn accepts(self, answer: Answer) -> bool {
        match self.awaited() {
            Some(call) => match answer {
                Answer::Nothing => false,
                Answer::Name(_) => call.expects() == ReplyKind::Name,
                Answer::Value(_) => call.expects() == ReplyKind::Value,
                Answer::Text(_) => call.expects() == ReplyKind::Text,
            },
            None => false,
        }
    }

    /// The phase that follows the compilation of a stage: the fragment stage
    /// follows the vertex stage, the program follows the fragment stage.
    pub open spec fn phase_after(stage: ShaderStage) -> Phase {
        match stage {
            ShaderStage::Vertex => Phase::StageName(ShaderStage::Fragment),
            ShaderStage::Fragment => Phase::ProgramName,
        }
    }

    /// The call that opens the phase after the compilation of a stage.
    pub open spec fn opening_after(stage: ShaderStage) -> Op {
        match stage {
            ShaderStage::Vertex => plain(Call::CreateShader { stage: ShaderStage::Fragment }),
            ShaderStage::Fragment => plain(Call::CreateProgram),
        }
    }

    /// The calls that release both shader objects.
    pub open spec fn release(self) -> Seq<Op> {
        Seq::empty().push(plain(Call::DeleteShader { shader: self.vertex_shader })).push(
            plain(Call::DeleteShader { shader: self.fragment_shader }),
        )
    }

    /// The building once `answer` has come in. An answer that is not
    /// accepted changes nothing.
    pub open spec fn after(self, answer: Answer) -> BuildState {
        match (self.phase, answer) {
            (Phase::StageName(stage), Answer::Name(name)) => match stage {
                ShaderStage::Vertex => BuildState {
                    phase: Phase::StageStatus(stage),
                    vertex_shader: name,
                    ..self
                },
                ShaderStage::Fragment => BuildState {
                    phase: Phase::StageStatus(stage),
                    fragment_shader: name,
                    ..self
                },
            },
            (Phase::StageStatus(stage), Answer::Value(status)) => if status == 0 {
                BuildState { phase: Phase::StageLog(stage), ..self }
            } else {
                BuildState { phase: Self::phase_after(stage), ..self }
            },
            (Phase::StageLog(stage), Answer::Text(text)) => match stage {
                ShaderStage::Vertex => BuildState {
                    phase: Self::phase_after(stage),
                    vertex_log: Some(kept(text, STAGE_LOG_CAPACITY)),
                    ..self
                },
                ShaderStage::Fragment => BuildState {
                    phase: Self::phase_after(stage),
                    fragment_log: Some(kept(text, STAGE_LOG_CAPACITY)),
                    ..self
                },
            },
            (Phase::ProgramName, Answer::Name(name)) => BuildState {
                phase: Phase::LinkStatus,
                program: name,
                ..self
            },
            (Phase::LinkStatus, Answer::Value(status)) => if status == 0 {
                BuildState { phase: Phase::LogLength, ..self }
            } else {
                BuildState { phase: Phase::Done, ..self }
            },
            (Phase::LogLength, Answer::Value(length)) => BuildState {
                phase: Phase::ProgramLog,
                capacity: length,
                ..self
            },
            (Phase::ProgramLog, Answer::Text(text)) => BuildState {
                phase: Phase::Done,
                link_log: Some(kept(text, self.capacity)),
                ..self
            },
            _ => self,
        }
    }

    /// The calls queued in reaction to `answer`, in order. Unless the
    /// building is done with it, the last of them is the call awaited next.
    pub open spec fn response(self, answer: Answer) -> Seq<Op> {
        match (self.phase, answer) {
            (Phase::StageName(stage), Answer::Name(name)) => Seq::empty().push(
                Op { call: Call::ShaderSource { shader: name }, payload: self.source(stage) },
            ).push(plain(Call::CompileShader { shader: name })).push(
                plain(Call::GetCompileStatus { shader: name }),
            ),
            (Phase::StageStatus(stage), Answer::Value(status)) => if status == 0 {
                Seq::empty().push(
                    plain(
                        Call::GetShaderInfoLog {
                            shader: self.shader(stage),
                            capacity: STAGE_LOG_CAPACITY,
                        },
                    ),
                )
            } else {
                Seq::empty().push(Self::opening_after(stage))
            },
            (Phase::StageLog(stage), Answer::Text(_)) => Seq::empty().push(
                Self::opening_after(stage),
            ),
            (Phase::ProgramName, Answer::Name(name)) => Seq::empty().push(
                plain(Call::AttachShader { program: name, shader: self.vertex_shader }),
            ).push(plain(Call::AttachShader { program: name, shader: self.fragment_shader })).push(
                plain(Call::LinkProgram { program: name }),
            ).push(plain(Call::GetLinkStatus { program: name })),
            (Phase::LinkStatus, Answer::Value(status)) => if status == 0 {
                Seq::empty().push(plain(Call::GetInfoLogLength { program: self.program }))
            } else {
                self.release()
            },
            (Phase::LogLength, Answer::Value(length)) => Seq::empty().push(
                plain(Call::GetProgramInfoLog { program: self.program, capacity: length }),
            ),
            (Phase::ProgramLog, Answer::Text(_)) => self.release(),
            _ => Seq::empty(),
        }
    }

    /// Number of answers that the building can still take at most.
    pub open spec fn remaining(self) -> nat {
        match self.phase {
            Phase::StageName(ShaderStage::Vertex) => 10,
            Phase::StageStatus(ShaderStage::Vertex) => 9,
            Phase::StageLog(ShaderStage::Vertex) => 8,
            Phase::StageName(ShaderStage::Fragment) => 7,
            Phase::StageStatus(ShaderStage::Fragment) => 6,
            Phase::StageLog(ShaderStage::Fragment) => 5,
            Phase::ProgramName => 4,
            Phase::LinkStatus => 3,
            Phase::LogLength => 2,
            Phase::ProgramLog => 1,
            Phase::Done => 0,
        }
    }

    /// What an answer does to the context: if it is accepted, the context
    /// takes note of it and the response is queued; otherwise nothing.
    pub open spec fn drive(self, state: GpuState, answer: Answer) -> GpuState {
        if self.accepts(answer) {
            state.learn(self.awaited().unwrap(), answer).run(self.response(answer))
        } else {
            state
        }
    }
}

/// The view of a diagnostic that may be absent.
pub open spec fn log_view(log: Option<Vec<u8>>) -> Option<Seq<u8>> {
    match log {
        Some(text) => Some(text@),
        None => None,
    }
}

/// The building of a program from the source text of its two stages.
pub struct ShaderBuild {
    phase: Phase,
    vertex_source: Vec<u8>,
    fragment_source: Vec<u8>,
    vertex_shader: u32,
    fragment_shader: u32,
    program: u32,
    capacity: i32,
    vertex_log: Option<Vec<u8>>,
    fragment_log: Option<Vec<u8>>,
    link_log: Option<Vec<u8>>,
}

impl View for ShaderBuild {
    type V = BuildState;

    closed spec fn view(&self) -> BuildState {
        BuildState {
            phase: self.phase,
            vertex_source: self.vertex_source@,
            fragment_source: self.fragment_source@,
            vertex_shader: self.vertex_shader,
            fragment_shader: self.fragment_shader,
            program: self.program,
            capacity: self.capacity,
            vertex_log: log_view(self.vertex_log),
            fragment_log: log_view(self.fragment_log),
            link_log: log_view(self.link_log),
        }
    }
}

/// A linked program object, by the name the driver gave it.
#[derive(Clone, Copy, Debug, PartialEq, Eq, Structural)]
pub struct Shader {
    id: u32,
}

/// Begins to build a program from the contents of its vertex and fragment
/// shader files: queues the call that asks for the vertex shader object.
pub fn create_shader_from_files(
    context: &mut Context,
    vertex_text: &str,
    fragment_text: &str,
) -> (build: ShaderBuild)
    requires
        driver_text(vertex_text.spec_bytes()),
        driver_text(fragment_text.spec_bytes()),
    ensures
        build@ == BuildState::start(vertex_text.spec_bytes(), fragment_text.spec_bytes()),
        final(context)@ == old(context)@.step(
            plain(Call::CreateShader { stage: ShaderStage::Vertex }),
        ),
{
    context.submit(Command::plain(Call::CreateShader { stage: ShaderStage::Vertex }));
    ShaderBuild {
        phase: Phase::StageName(ShaderStage::Vertex),
        vertex_source: slice_to_vec(vertex_text.as_bytes()),
        fragment_source: slice_to_vec(fragment_text.as_bytes()),
        vertex_shader: 0,
        fragment_shader: 0,
        program: 0,
        capacity: 0,
        vertex_log: None,
        fragment_log: None,
        link_log: None,
    }
}

impl ShaderBuild {
    fn stage_shader(&self, stage: ShaderStage) -> (name: u32)
        ensures
            name == self@.shader(stage),
    {
        match stage {
            ShaderStage::Vertex => self.vertex_shader,
            ShaderStage::Fragment => self.fragment_shader,
        }
    }

    fn open_after(&mut self, context: &mut Context, stage: ShaderStage)
        ensures
            final(self)@ == (BuildState { phase: BuildState::phase_after(stage), ..old(self)@ }),
            final(context)@ == old(context)@.step(BuildState::opening_after(stage)),
    {
        match stage {
            ShaderStage::Vertex => {
                context.submit(
                    Command::plain(Call::CreateShader { stage: ShaderStage::Fragment }),
                );
                self.phase = Phase::StageName(ShaderStage::Fragment);
            },
            ShaderStage::Fragment => {
                context.submit(Command::plain(Call::CreateProgram));
                self.phase = Phase::ProgramName;
            },
        }
    }

    fn release(&mut self, context: &mut Context)
        ensures
            final(self)@ == (BuildState { phase: Phase::Done, ..old(self)@ }),
            final(context)@ == old(context)@.run(old(self)@.release()),
    {
        context.submit(Command::plain(Call::DeleteShader { shader: self.vertex_shader }));
        context.submit(Command::plain(Call::DeleteShader { shader: self.fragment_shader }));
        self.phase = Phase::Done;
    }

    fn named(&mut self, context: &mut Context, name: u32)
        requires
            old(self)@.accepts(Answer::Name(name)),
        ensures
            final(self)@ == old(self)@.after(Answer::Name(name)),
            final(context)@ == old(self)@.drive(old(context)@, Answer::Name(name)),
    {
        match self.phase {
            Phase::StageName(stage) => {
                context.record(Call::CreateShader { stage }, &Reply::Name(name));
                let source = match stage {
                    ShaderStage::Vertex => slice_to_vec(self.vertex_source.as_slice()),
                    ShaderStage::Fragment => slice_to_vec(self.fragment_source.as_slice()),
                };
                context.submit(Command::carrying(Call::ShaderSource { shader: name }, source));
                context.submit(Command::plain(Call::CompileShader { shader: name }));
                context.submit(Command::plain(Call::GetCompileStatus { shader: name }));
                match stage {
                    ShaderStage::Vertex => {
                        self.vertex_shader = name;
                    },
                    ShaderStage::Fragment => {
                        self.fragment_shader = name;
                    },
                }
                self.phase = Phase::StageStatus(stage);
            },
            Phase::ProgramName => {
                context.record(Call::CreateProgram, &Reply::Name(name));
                context.submit(
                    Command::plain(
                        Call::AttachShader { program: name, shader: self.vertex_shader },
                    ),
                );
                context.submit(
                    Command::plain(
                        Call::AttachShader { program: name, shader: self.fragment_shader },
                    ),
                );
                context.submit(Command::plain(Call::LinkProgram { program: name }));
                context.submit(Command::plain(Call::GetLinkStatus { program: name }));
                self.program = name;
                self.phase = Phase::LinkStatus;
            },
            _ => {},
        }
    }

    fn valued(&mut self, context: &mut Context, value: i32)
        requires
            old(self)@.accepts(Answer::Value(value)),
        ensures
            final(self)@ == old(self)@.after(Answer::Value(value)),
            final(context)@ == old(self)@.drive(old(context)@, Answer::Value(value)),
    {
        match self.phase {
            Phase::StageStatus(stage) => {
                let shader = self.stage_shader(stage);
                context.record(Call::GetCompileStatus { shader }, &Reply::Value(value));
                if value == 0 {
                    context.submit(
                        Command::plain(
                            Call::GetShaderInfoLog { shader, capacity: STAGE_LOG_CAPACITY },
                        ),
                    );
                    self.phase = Phase::StageLog(stage);
                } else {
                    self.open_after(context, stage);
                }
            },
            Phase::LinkStatus => {
                context.record(Call::GetLinkStatus { program: self.program }, &Reply::Value(value));
                if value == 0 {
                    context.submit(
                        Command::plain(Call::GetInfoLogLength { program: self.program }),
                    );
                    self.phase = Phase::LogLength;
                } else {
                    self.release(context);
                }
            },
            Phase::LogLength => {
                context.record(
                    Call::GetInfoLogLength { program: self.program },
                    &Reply::Value(value),
                );
                context.submit(
                    Command::plain(
                        Call::GetProgramInfoLog { program: self.program, capacity: value },
                    ),
                );
                self.capacity = value;
                self.phase = Phase::ProgramLog;
            },
            _ => {},
        }
    }

    fn explained(&mut self, context: &mut Context, text: &Vec<u8>)
        requires
            old(self)@.accepts(Answer::Text(text@)),
        ensures
            final(self)@ == old(self)@.after(Answer::Text(text@)),
            final(context)@ == old(self)@.drive(old(context)@, Answer::Text(text@)),
    {
        match self.phase {
            Phase::StageLog(stage) => {
                let ghost awaited = old(self)@.awaited().unwrap();
                assert(old(context)@.learn(awaited, Answer::Text(text@)) == old(context)@);
                match stage {
                    ShaderStage::Vertex => {
                        self.vertex_log = Some(keep(text, STAGE_LOG_CAPACITY));
                    },
                    ShaderStage::Fragment => {
                        self.fragment_log = Some(keep(text, STAGE_LOG_CAPACITY));
                    },
                }
                self.open_after(context, stage);
            },
            Phase::ProgramLog => {
                let ghost awaited = old(self)@.awaited().unwrap();
                assert(old(context)@.learn(awaited, Answer::Text(text@)) == old(context)@);
                self.link_log = Some(keep(text, self.capacity));
                self.release(context);
            },
            _ => {},
        }
    }

    /// Goes on with the driver's answer to the awaited call. An answer of
    /// another kind than the awaited call is owed, or one that comes when
    /// nothing is awaited, is not accepted and changes nothing.
    pub fn advance(&mut self, context: &mut Context, reply: &Reply) -> (accepted: bool)
        ensures
            accepted == old(self)@.accepts(reply@),
            final(self)@ == old(self)@.after(reply@),
            final(context)@ == old(self)@.drive(old(context)@, reply@),
    {
        match reply {
            Reply::Nothing => false,
            Reply::Name(name) => match self.phase {
                Phase::StageName(_) | Phase::ProgramName => {
                    self.named(context, *name);
                    true
                },
                _ => false,
            },
            Reply::Value(value) => match self.phase {
                Phase::StageStatus(_) | Phase::LinkStatus | Phase::LogLength => {
                    self.valued(context, *value);
                    true
                },
                _ => false,
            },
            Reply::Text(text) => match self.phase {
                Phase::StageLog(_) | Phase::ProgramLog => {
                    self.explained(context, text);
                    true
                },
                _ => false,
            },
        }
    }

    /// Where the building stands.
    pub fn phase(&self) -> (phase: Phase)
        ensures
            phase == self@.phase,
    {
        self.phase
    }

    /// Whether the building is done: nothing is awaited any more.
    pub fn is_done(&self) -> (done: bool)
        ensures
            done == (self@.phase == Phase::Done),
    {
        match self.phase {
            Phase::Done => true,
            _ => false,
        }
    }

    /// The call whose answer is awaited, if any. It is the call queued last.
    pub fn awaited(&self) -> (call: Option<Call>)
        ensures
            call == self@.awaited(),
    {
        match self.phase {
            Phase::StageName(stage) => Some(Call::CreateShader { stage }),
            Phase::StageStatus(stage) => Some(
                Call::GetCompileStatus { shader: self.stage_shader(stage) },
            ),
            Phase::StageLog(stage) => Some(
                Call::GetShaderInfoLog {
                    shader: self.stage_shader(stage),
                    capacity: STAGE_LOG_CAPACITY,
                },
            ),
            Phase::ProgramName => Some(Call::CreateProgram),
            Phase::LinkStatus => Some(Call::GetLinkStatus { program: self.program }),
            Phase::LogLength => Some(Call::GetInfoLogLength { program: self.program }),
            Phase::ProgramLog => Some(
                Call::GetProgramInfoLog { program: self.program, capacity: self.capacity },
            ),
            Phase::Done => None,
        }
    }

    /// The program, once the building is done; `None` before.
    pub fn finish(&self) -> (shader: Option<Shader>)
        ensures
            match shader {
                Some(shader) => self@.phase == Phase::Done && shader.id() == self@.program,
                None => self@.phase != Phase::Done,
            },
    {
        match self.phase {
            Phase::Done => Some(Shader { id: self.program }),
            _ => None,
        }
    }

    /// Diagnostic of a stage: `None` unless its compilation failed and the
    /// driver's diagnostic has come in.
    pub fn stage_log(&self, stage: ShaderStage) -> (log: Option<Vec<u8>>)
        ensures
            log_view(log) == self@.log(stage),
    {
        let log = match stage {
            ShaderStage::Vertex => &self.vertex_log,
            ShaderStage::Fragment => &self.fragment_log,
        };
        match log {
            Some(text) => Some(slice_to_vec(text.as_slice())),
            None => None,
        }
    }

    /// Diagnostic of the link: `None` unless it failed and the driver's
    /// diagnostic has come in.
    pub fn link_log(&self) -> (log: Option<Vec<u8>>)
        ensures
            log_view(log) == self@.link_log,
    {
        match &self.link_log {
            Some(text) => Some(slice_to_vec(text.as_slice())),
            None => None,
        }
    }
}

/// The bytes of `count` matrices at the head of `data`.
pub open spec fn matrices(count: i32, data: Seq<u8>) -> Seq<u8> {
    data.take(count * MATRIX_SIZE)
}

fn head_matrices(count: i32, data: &[u8]) -> (bytes: Vec<u8>)
    requires
        0 <= count,
        count * MATRIX_SIZE <= data@.len(),
    ensures
        bytes@ == matrices(count, data@),
{
    let available: usize = data.len();
    assert(count * 64 <= available);
    let length: usize = (count as usize) * 64;
    slice_to_vec(slice_subrange(data, 0, length))
}

impl Shader {
    /// The name the driver gave the program object.
    pub closed spec fn id(self) -> u32 {
        self.id
    }

    /// The name the driver gave the program object.
    pub fn name(&self) -> (name: u32)
        ensures
            name == self.id(),
    {
        self.id
    }

    /// Whether the program exists and linked, so that it can be put to use.
    pub fn is_usable(&self, context: &Context) -> (usable: bool)
        ensures
            usable == context@.usable(self.id()),
    {
        context.program_usable(self.id)
    }

    /// Puts the program to use for the draws that follow. For a program
    /// that does not exist or did not link this does nothing: the program
    /// that was in use stays in use.
    pub fn use_shader(&self, context: &mut Context)
        ensures
            final(context)@ == old(context)@.step(plain(Call::UseProgram { program: self.id() })),
            final(context)@.program == if old(context)@.usable(self.id()) {
                self.id()
            } else {
                old(context)@.program
            },
    {
        context.submit(Command::plain(Call::UseProgram { program: self.id }));
    }

    /// Releases the program object. From then on no program of this name
    /// is usable. To release it again at once changes nothing; once the
    /// driver has given the name to a newer program, it releases that one.
    pub fn delete_shader(&self, context: &mut Context)
        ensures
            final(context)@ == old(context)@.step(
                plain(Call::DeleteProgram { program: self.id() }),
            ),
            !final(context)@.usable(self.id()),
    {
        context.submit(Command::plain(Call::DeleteProgram { program: self.id }));
    }

    /// Queues the call that asks for the location of the uniform `name`. The
    /// driver answers with the location, or with `NO_LOCATION` where the
    /// program has no such uniform.
    pub fn get_uniform_loc_from_name(&self, context: &mut Context, name: &str)
        requires
            driver_text(name.spec_bytes()),
        ensures
            final(context)@ == old(context)@.step(
                Op {
                    call: Call::GetUniformLocation { program: self.id() },
                    payload: name.spec_bytes(),
                },
            ),
    {
        context.submit(
            Command::carrying(
                Call::GetUniformLocation { program: self.id },
                slice_to_vec(name.as_bytes()),
            ),
        );
    }

    /// Sets the `size` matrices at `location` of the program in use from the
    /// head of `data`: column-major, not transposed.
    pub fn modify_uniform_mat4_value(
        &self,
        context: &mut Context,
        location: i32,
        size: i32,
        data: &[u8],
    )
        requires
            0 <= size,
            size * MATRIX_SIZE <= data@.len(),
        ensures
            final(context)@ == old(context)@.step(
                Op {
                    call: Call::UniformMatrix4fv { location, count: size, transpose: false },
                    payload: matrices(size, data@),
                },
            ),
    {
        let bytes = head_matrices(size, data);
        context.submit(Command::carrying(Call::UniformMatrix4fv { location, count: size, transpose: false }, bytes));
    }

    /// Begins to set the matrices of the uniform `uniform_name`: queues the
    /// call that asks for its location, and holds the matrices until the
    /// answer is in.
    pub fn set_mat4(&self, context: &mut Context, uniform_name: &str, size: i32, data: &[u8]) -> (update:
        Mat4Update)
        requires
            driver_text(uniform_name.spec_bytes()),
            0 <= size,
            size * MATRIX_SIZE <= data@.len(),
        ensures
            update@ == (Mat4State { shader: *self, count: size, data: matrices(size, data@) }),
            final(context)@ == old(context)@.step(
                Op {
                    call: Call::GetUniformLocation { program: self.id() },
                    payload: uniform_name.spec_bytes(),
                },
            ),
    {
        self.get_uniform_loc_from_name(context, uniform_name);
        let bytes = head_matrices(size, data);
        Mat4Update { shader: *self, count: size, data: bytes }
    }
}

/// Matrices on their way to a uniform, as the mathematical value that
/// contracts speak of.
pub struct Mat4State {
    pub shader: Shader,
    pub count: i32,
    pub data: Seq<u8>,
}

/// Matrices on their way to a uniform whose location was asked for.
pub struct Mat4Update {
    shader: Shader,
    count: i32,
    data: Vec<u8>,
}

impl View for Mat4Update {
    type V = Mat4State;

    closed spec fn view(&self) -> Mat4State {
        Mat4State { shader: self.shader, count: self.count, data: self.data@ }
    }
}

impl Mat4State {
    /// What the answer to the question for the location does to the
    /// context: a location has the matrices set there, as `Shader::
    /// modify_uniform_mat4_value` does; an answer of another kind changes
    /// nothing.
    pub open spec fn resolved(self, state: GpuState, answer: Answer) -> GpuState {
        match answer {
            Answer::Value(location) => state.step(
                Op {
                    call: Call::UniformMatrix4fv { location, count: self.count, transpose: false },
                    payload: self.data,
                },
            ),
            _ => state,
        }
    }
}

impl Mat4Update {
    /// Goes on with the driver's answer: sets the matrices at the location
    /// it gives. Says whether the answer was a location.
    pub fn resolve(self, context: &mut Context, reply: &Reply) -> (accepted: bool)
        ensures
            accepted == (reply@ is Value),
            final(context)@ == self@.resolved(old(context)@, reply@),
    {
        match reply {
            Reply::Value(location) => {
                context.submit(
                    Command::carrying(
                        Call::UniformMatrix4fv { location: *location, count: self.count, transpose: false },
                        self.data,
                    ),
                );
                true
            },
            _ => false,
        }
    }
}

/// The building and the context after a run of answers, each handed over
/// in turn.
pub open spec fn converse(build: BuildState, state: GpuState, answers: Seq<Answer>) -> (
    BuildState,
    GpuState,
)
    decreases answers.len(),
{
    if answers.len() == 0 {
        (build, state)
    } else {
        let (before, context) = converse(build, state, answers.drop_last());
        (before.after(answers.last()), before.drive(context, answers.last()))
    }
}

/// One more answer after a run of answers.
pub broadcast proof fn lemma_converse_push(
    build: BuildState,
    state: GpuState,
    answers: Seq<Answer>,
    answer: Answer,
)
    ensures
        #[trigger] converse(build, state, answers.push(answer)) == (
            converse(build, state, answers).0.after(answer),
            converse(build, state, answers).0.drive(converse(build, state, answers).1, answer),
        ),
{
    assert(answers.push(answer).drop_last() =~= answers);
}

/// No answer at all.
pub broadcast proof fn lemma_converse_empty(build: BuildState, state: GpuState)
    ensures
        #[trigger] converse(build, state, Seq::empty()) == (build, state),
{
}

/// The building always comes to an end and is never stuck. An answer that
/// is not accepted changes nothing; one that is accepted brings the end
/// nearer, so that at most ten answers are taken in all; and as long as the
/// building is not done it awaits a call, to which an answer of the kind
/// that the call is owed is accepted.
pub proof fn law_build_progress(build: BuildState, answer: Answer)
    ensures
        !build.accepts(answer) ==> build.after(answer) == build && build.response(answer)
            == Seq::<Op>::empty(),
        build.accepts(answer) ==> build.after(answer).remaining() < build.remaining(),
        build.remaining() <= 10,
        (build.phase == Phase::Done) == (build.awaited() is None),
        build.phase != Phase::Done ==> (build.accepts(answer) <==> match answer {
            Answer::Nothing => false,
            Answer::Name(_) => build.awaited().unwrap().expects() == ReplyKind::Name,
            Answer::Value(_) => build.awaited().unwrap().expects() == ReplyKind::Value,
            Answer::Text(_) => build.awaited().unwrap().expects() == ReplyKind::Text,
        }),
{
}

/// The call that the building awaits is the one it queued last: after an
/// accepted answer that does not end the building, the response ends with
/// the call awaited next; the response that ends the building releases the
/// two shader objects and asks for nothing.
pub proof fn law_awaited_is_queued_last(build: BuildState, answer: Answer)
    requires
        build.accepts(answer),
    ensures
        build.response(answer).len() > 0,
        build.after(answer).phase != Phase::Done ==> build.response(answer).last() == plain(
            build.after(answer).awaited().unwrap(),
        ),
        build.after(answer).phase == Phase::Done ==> build.response(answer) == build.release(),
{
}

/// An accepted answer queues the response, in order, behind what was queued;
/// an answer that is not accepted leaves the context as it was.
pub proof fn law_drive_queues_response(build: BuildState, state: GpuState, answer: Answer)
    ensures
        build.drive(state, answer).pending == state.pending + build.response(answer),
        !build.accepts(answer) ==> build.drive(state, answer) == state,
{
    if build.accepts(answer) {
        lemma_run_pending(state.learn(build.awaited().unwrap(), answer), build.response(answer));
    } else {
        assert(state.pending + build.response(answer) =~= state.pending);
    }
}

/// Both shader objects are released when the building ends, whether the
/// link succeeded or failed: the calls that release them are queued last
/// and neither object exists afterwards.
pub proof fn law_build_releases_stages(build: BuildState, state: GpuState, answer: Answer)
    requires
        build.accepts(answer),
        build.after(answer).phase == Phase::Done,
    ensures
        ({
            let after = build.drive(state, answer);
            &&& after.pending == state.pending + build.release()
            &&& !after.shaders.contains_key(build.vertex_shader)
            &&& !after.shaders.contains_key(build.fragment_shader)
            &&& build.after(answer).vertex_shader == build.vertex_shader
            &&& build.after(answer).fragment_shader == build.fragment_shader
        }),
{
    let after = build.drive(state, answer);
    assert(after.pending =~= state.pending + build.release());
}

/// A failed compilation does not stop the building. The stage's diagnostic
/// is asked for with room for 512 bytes; what comes in is kept, cut to
/// that length; and the building goes on to the next stage or to the link.
pub proof fn law_failed_stage_goes_on(build: BuildState, stage: ShaderStage, text: Seq<u8>)
    requires
        build.phase == Phase::StageStatus(stage),
    ensures
        ({
            let failed = build.after(Answer::Value(0));
            let explained = failed.after(Answer::Text(text));
            &&& build.accepts(Answer::Value(0))
            &&& failed.awaited() == Some(
                Call::GetShaderInfoLog { shader: build.shader(stage), capacity: 512 },
            )
            &&& failed.accepts(Answer::Text(text))
            &&& explained.phase == BuildState::phase_after(stage)
            &&& explained.log(stage) == Some(kept(text, 512))
            &&& kept(text, 512).len() <= 512
            &&& text.len() <= 512 ==> kept(text, 512) == text
        }),
{
}

/// A failed link is explained in full: the diagnostic is asked for with
/// room for exactly the length that the driver reported, and what comes in
/// is kept up to that length.
pub proof fn law_failed_link_is_explained(build: BuildState, length: i32, text: Seq<u8>)
    requires
        build.phase == Phase::LinkStatus,
    ensures
        ({
            let failed = build.after(Answer::Value(0));
            let measured = failed.after(Answer::Value(length));
            let explained = measured.after(Answer::Text(text));
            &&& failed.awaited() == Some(Call::GetInfoLogLength { program: build.program })
            &&& measured.awaited() == Some(
                Call::GetProgramInfoLog { program: build.program, capacity: length },
            )
            &&& explained.phase == Phase::Done
            &&& explained.link_log == Some(kept(text, length))
            &&& text.len() <= length ==> kept(text, length) == text
        }),
{
}

/// The program is usable exactly if the driver reported that it linked.
pub proof fn law_usable_iff_linked(build: BuildState, state: GpuState, status: i32)
    requires
        build.phase == Phase::LinkStatus,
        state.programs.contains_key(build.program),
    ensures
        build.drive(state, Answer::Value(status)).usable(build.program) == (status != 0),
{
    let answer = Answer::Value(status);
    let noted = state.learn(build.awaited().unwrap(), answer);
    assert(noted.usable(build.program) == (status != 0));
    lemma_run_keeps_programs(noted, build.response(answer));
}

/// Whether no call of `ops` uses, releases or feeds a program.
pub open spec fn programs_untouched(ops: Seq<Op>) -> bool {
    forall|i: int|
        0 <= i < ops.len() ==> match (#[trigger] ops[i]).call {
            Call::UseProgram { .. } | Call::DeleteProgram { .. } | Call::UniformMatrix4fv { .. } => false,
            _ => true,
        }
}

/// Calls that neither use, release nor feed a program leave the programs
/// and the program in use as they were.
pub proof fn lemma_run_keeps_programs(state: GpuState, ops: Seq<Op>)
    requires
        programs_untouched(ops),
    ensures
        state.run(ops).programs == state.programs,
        state.run(ops).program == state.program,
    decreases ops.len(),
{
    if ops.len() > 0 {
        lemma_run_keeps_programs(state, ops.drop_last());
    }
}

/// A building in which every status is a success takes six answers: the
/// names of the two shader objects and of the program, each followed by a
/// status. It ends with a usable program of the name the driver gave and
/// with both shader objects released. Put to use, that program is the one
/// in use, and matrices set at a location can be read back from there
/// exactly as they were given.
pub proof fn law_linked_program_takes_uniforms(
    state: GpuState,
    vertex_source: Seq<u8>,
    fragment_source: Seq<u8>,
    vertex_shader: u32,
    fragment_shader: u32,
    program: u32,
    status: i32,
    location: i32,
    count: i32,
    data: Seq<u8>,
)
    requires
        program != 0,
        status != 0,
        location != NO_LOCATION,
    ensures
        ({
            let answers = Seq::empty().push(Answer::Name(vertex_shader)).push(
                Answer::Value(status),
            ).push(Answer::Name(fragment_shader)).push(Answer::Value(status)).push(
                Answer::Name(program),
            ).push(Answer::Value(status));
            let begun = state.step(plain(Call::CreateShader { stage: ShaderStage::Vertex }));
            let (build, built) = converse(
                BuildState::start(vertex_source, fragment_source),
                begun,
                answers,
            );
            let used = built.step(plain(Call::UseProgram { program }));
            let set = used.step(
                Op { call: Call::UniformMatrix4fv { location, count, transpose: false }, payload: data },
            );
            &&& build.phase == Phase::Done
            &&& build.program == program
            &&& build.vertex_log is None && build.fragment_log is None && build.link_log is None
            &&& built.usable(program)
            &&& !built.shaders.contains_key(vertex_shader)
            &&& !built.shaders.contains_key(fragment_shader)
            &&& used.program == program
            &&& set.programs[program].uniforms.contains_key(location)
            &&& set.programs[program].uniforms[location] == data
            &&& set.usable(program)
        }),
{
    let start = BuildState::start(vertex_source, fragment_source);
    let begun = state.step(plain(Call::CreateShader { stage: ShaderStage::Vertex }));
    let named = Answer::Name(program);
    let fine = Answer::Value(status);
    let answers = Seq::empty().push(Answer::Name(vertex_shader)).push(fine).push(
        Answer::Name(fragment_shader),
    ).push(fine);
    let (build, context) = converse(start, begun, answers);
    assert(build == (BuildState {
        phase: Phase::ProgramName,
        vertex_shader,
        fragment_shader,
        ..start
    })) by {
        broadcast use lemma_converse_push, lemma_converse_empty;

    }
    lemma_converse_push(start, begun, answers, named);
    lemma_converse_push(start, begun, answers.push(named), fine);
    let linking = build.after(named);
    let created = build.drive(context, named);
    lemma_program_is_noted(build, context, program);
    law_usable_iff_linked(linking, created, status);
    law_build_releases_stages(linking, created, fine);
}

/// Once the driver has named the program, the program is taken note of.
proof fn lemma_program_is_noted(build: BuildState, state: GpuState, program: u32)
    requires
        build.phase == Phase::ProgramName,
        program != 0,
    ensures
        build.drive(state, Answer::Name(program)).programs.contains_key(program),
{
    let answer = Answer::Name(program);
    let noted = state.learn(build.awaited().unwrap(), answer);
    assert(noted.programs.contains_key(program));
    lemma_run_keeps_programs(noted, build.response(answer));
}

/// Releasing a program makes it unusable and takes it out of use, and
/// releasing it again at once, before the driver can have given its name to
/// a newer program, changes nothing but the queue.
pub proof fn law_release_twice(shader: Shader, state: GpuState)
    ensures
        ({
            let release = plain(Call::DeleteProgram { program: shader.id() });
            let once = state.step(release);
            let twice = once.step(release);
            &&& !once.usable(shader.id())
            &&& once.program != shader.id() || shader.id() == 0
            &&& !twice.usable(shader.id())
            &&& twice == (GpuState { pending: once.pending.push(release), ..once })
        }),
{
    let release = plain(Call::DeleteProgram { program: shader.id() });
    let once = state.step(release);
    let twice = once.step(release);
    assert(twice.programs =~= once.programs);
}

} // verus!
