use overlay_engine::command::{
    BufferTarget, Call, Command, Reply, ReplyKind, ShaderStage, TextureTarget,
};
use overlay_engine::context::Context;
use overlay_engine::state::Attribute;

#[test]
fn new_context_is_blank() {
    let mut context = Context::new();
    assert_eq!(context.pending_len(), 0);
    assert_eq!(context.vertex_array(), 0);
    assert_eq!(context.texture(), 0);
    assert_eq!(context.program(), 0);
    assert_eq!(context.bound_buffer(BufferTarget::Array), 0);
    assert_eq!(context.bound_buffer(BufferTarget::ElementArray), 0);
    assert!(!context.has_vertex_array(1));
    assert!(!context.has_shader(1));
    assert!(!context.program_usable(1));
    assert_eq!(context.buffer_data(1), None);
    assert_eq!(context.attribute(1, 0), Attribute::blank());
    assert_eq!(context.take(), vec![]);
}

#[test]
fn take_hands_over_the_queue_in_order_and_empties_it() {
    let mut context = Context::new();
    context.submit(Command::plain(Call::BindTexture { target: TextureTarget::Texture2D, texture: 1 }));
    context.submit(Command::carrying(Call::ShaderSource { shader: 2 }, vec![1, 2, 3]));
    context.submit(Command::plain(Call::GenerateMipmap { target: TextureTarget::Texture2D }));
    assert_eq!(context.pending_len(), 3);
    assert_eq!(
        context.take(),
        vec![
            Command { call: Call::BindTexture { target: TextureTarget::Texture2D, texture: 1 }, payload: vec![] },
            Command { call: Call::ShaderSource { shader: 2 }, payload: vec![1, 2, 3] },
            Command { call: Call::GenerateMipmap { target: TextureTarget::Texture2D }, payload: vec![] },
        ]
    );
    assert_eq!(context.pending_len(), 0);
    assert_eq!(context.texture(), 1);
    assert_eq!(context.take(), vec![]);
}

#[test]
fn record_takes_note_of_new_objects() {
    let mut context = Context::new();
    context.record(Call::CreateVertexArray, &Reply::Name(1));
    context.record(Call::GenBuffer, &Reply::Name(1));
    context.record(Call::CreateShader { stage: ShaderStage::Fragment }, &Reply::Name(1));
    context.record(Call::CreateProgram, &Reply::Name(1));
    assert!(context.has_vertex_array(1));
    assert_eq!(context.buffer_data(1), Some(vec![]));
    assert!(context.has_shader(1));
    assert!(!context.program_usable(1));
    assert_eq!(context.pending_len(), 0);
}

#[test]
fn record_settles_whether_a_program_linked() {
    let mut context = Context::new();
    context.record(Call::CreateProgram, &Reply::Name(5));
    context.record(Call::GetLinkStatus { program: 5 }, &Reply::Value(0));
    assert!(!context.program_usable(5));
    context.record(Call::GetLinkStatus { program: 5 }, &Reply::Value(1));
    assert!(context.program_usable(5));
    context.record(Call::GetLinkStatus { program: 6 }, &Reply::Value(1));
    assert!(!context.program_usable(6));
}

#[test]
fn record_ignores_answers_that_say_nothing_of_the_state() {
    let mut context = Context::new();
    context.record(Call::GenBuffer, &Reply::Value(3));
    context.record(Call::GenBuffer, &Reply::Nothing);
    context.record(Call::GenBuffer, &Reply::Text(vec![3]));
    context.record(Call::GetCompileStatus { shader: 3 }, &Reply::Value(1));
    context.record(Call::BindTexture { target: TextureTarget::Texture2D, texture: 3 }, &Reply::Name(3));
    assert_eq!(context.buffer_data(3), None);
    assert_eq!(context.texture(), 0);
    assert!(!context.has_shader(3));
}

#[test]
fn buffer_data_goes_to_the_buffer_bound_to_the_target() {
    let mut context = Context::new();
    context.record(Call::GenBuffer, &Reply::Name(1));
    context.record(Call::GenBuffer, &Reply::Name(2));
    context.submit(Command::plain(Call::BindBuffer { target: BufferTarget::Array, buffer: 2 }));
    context.submit(Command::carrying(
        Call::BufferData { target: BufferTarget::Array, usage: 35044 },
        vec![4, 5],
    ));
    assert_eq!(context.buffer_data(1), Some(vec![]));
    assert_eq!(context.buffer_data(2), Some(vec![4, 5]));
    assert_eq!(context.buffer_usage(2), Some(35044));
}

#[test]
fn deleting_a_shader_forgets_it() {
    let mut context = Context::new();
    context.record(Call::CreateShader { stage: ShaderStage::Vertex }, &Reply::Name(4));
    context.submit(Command::plain(Call::DeleteShader { shader: 4 }));
    assert!(!context.has_shader(4));
}

#[test]
fn calls_are_owed_the_kind_of_answer_they_ask_for() {
    assert_eq!(Call::CreateVertexArray.reply_kind(), ReplyKind::Name);
    assert_eq!(Call::GenBuffer.reply_kind(), ReplyKind::Name);
    assert_eq!(Call::GenTexture.reply_kind(), ReplyKind::Name);
    assert_eq!(Call::CreateShader { stage: ShaderStage::Vertex }.reply_kind(), ReplyKind::Name);
    assert_eq!(Call::CreateProgram.reply_kind(), ReplyKind::Name);
    assert_eq!(Call::GetCompileStatus { shader: 1 }.reply_kind(), ReplyKind::Value);
    assert_eq!(Call::GetLinkStatus { program: 1 }.reply_kind(), ReplyKind::Value);
    assert_eq!(Call::GetInfoLogLength { program: 1 }.reply_kind(), ReplyKind::Value);
    assert_eq!(Call::GetUniformLocation { program: 1 }.reply_kind(), ReplyKind::Value);
    assert_eq!(Call::GetShaderInfoLog { shader: 1, capacity: 512 }.reply_kind(), ReplyKind::Text);
    assert_eq!(Call::GetProgramInfoLog { program: 1, capacity: 9 }.reply_kind(), ReplyKind::Text);
    assert_eq!(Call::UseProgram { program: 1 }.reply_kind(), ReplyKind::Nothing);
    assert_eq!(Call::GenerateMipmap { target: TextureTarget::Texture2D }.reply_kind(), ReplyKind::Nothing);
    assert_eq!(
        Call::BufferData { target: BufferTarget::Array, usage: 0 }.reply_kind(),
        ReplyKind::Nothing
    );
}
