use overlay_engine::command::{Call, Command, Reply, ShaderStage};
use overlay_engine::context::Context;
use overlay_engine::shader::{create_shader_from_files, first_nul, keep, Phase, Shader, ShaderBuild};

const VERTEX: &str = "#version 460 core\nlayout (location = 0) in vec3 aPos;\nvoid main() { gl_Position = vec4(aPos, 1.0); }\n";
const FRAGMENT: &str = "#version 460 core\nout vec4 FragColor;\nvoid main() { FragColor = vec4(1.0); }\n";
const BROKEN: &str = "#version 460 core\nvoid main() { this is not glsl }\n";

fn call(call: Call) -> Command {
    Command { call, payload: vec![] }
}

fn carrying(call: Call, payload: &[u8]) -> Command {
    Command { call, payload: payload.to_vec() }
}

fn answer(build: &mut ShaderBuild, context: &mut Context, replies: Vec<Reply>) {
    for reply in replies {
        assert!(build.advance(context, &reply));
    }
}

fn linked_shader(context: &mut Context, program: u32) -> Shader {
    let mut build = create_shader_from_files(context, VERTEX, FRAGMENT);
    answer(
        &mut build,
        context,
        vec![
            Reply::Name(program + 1),
            Reply::Value(1),
            Reply::Name(program + 2),
            Reply::Value(1),
            Reply::Name(program),
            Reply::Value(1),
        ],
    );
    context.take();
    build.finish().unwrap()
}

fn matrix_bytes(values: &[f32]) -> Vec<u8> {
    values.iter().flat_map(|value| value.to_ne_bytes()).collect()
}

#[test]
fn first_nul_finds_no_zero_byte_in_plain_text() {
    assert_eq!(first_nul(VERTEX), None);
    assert_eq!(first_nul(""), None);
    assert_eq!(first_nul("ourTexture"), None);
}

#[test]
fn first_nul_gives_the_position_of_the_first_zero_byte() {
    assert_eq!(first_nul("\0"), Some(0));
    assert_eq!(first_nul("ab\0cd\0"), Some(2));
    assert_eq!(first_nul("void main() {}\0"), Some(14));
    assert_eq!(first_nul("\u{e9}\0"), Some(2));
}

#[test]
fn keep_cuts_a_diagnostic_to_the_capacity() {
    assert_eq!(keep(&vec![1, 2, 3], 512), vec![1, 2, 3]);
    assert_eq!(keep(&vec![1, 2, 3], 3), vec![1, 2, 3]);
    assert_eq!(keep(&vec![1, 2, 3], 2), vec![1, 2]);
    assert_eq!(keep(&vec![1, 2, 3], 0), Vec::<u8>::new());
    assert_eq!(keep(&vec![1, 2, 3], -5), Vec::<u8>::new());
    assert_eq!(keep(&vec![7; 600], 512), vec![7; 512]);
}

#[test]
fn build_begins_by_asking_for_the_vertex_shader() {
    let mut context = Context::new();
    let build = create_shader_from_files(&mut context, VERTEX, FRAGMENT);
    assert_eq!(context.take(), vec![call(Call::CreateShader { stage: ShaderStage::Vertex })]);
    assert_eq!(build.phase(), Phase::StageName(ShaderStage::Vertex));
    assert_eq!(build.awaited(), Some(Call::CreateShader { stage: ShaderStage::Vertex }));
    assert!(!build.is_done());
    assert!(build.finish().is_none());
    assert_eq!(build.stage_log(ShaderStage::Vertex), None);
    assert_eq!(build.stage_log(ShaderStage::Fragment), None);
    assert_eq!(build.link_log(), None);
}

#[test]
fn successful_build_makes_these_calls_in_this_order() {
    let mut context = Context::new();
    let mut build = create_shader_from_files(&mut context, VERTEX, FRAGMENT);
    let mut sent = context.take();

    assert!(build.advance(&mut context, &Reply::Name(11)));
    assert_eq!(build.awaited(), Some(Call::GetCompileStatus { shader: 11 }));
    assert!(context.has_shader(11));
    sent.extend(context.take());
    assert!(build.advance(&mut context, &Reply::Value(1)));
    assert_eq!(build.awaited(), Some(Call::CreateShader { stage: ShaderStage::Fragment }));
    sent.extend(context.take());
    assert!(build.advance(&mut context, &Reply::Name(12)));
    assert_eq!(build.awaited(), Some(Call::GetCompileStatus { shader: 12 }));
    sent.extend(context.take());
    assert!(build.advance(&mut context, &Reply::Value(1)));
    assert_eq!(build.awaited(), Some(Call::CreateProgram));
    sent.extend(context.take());
    assert!(build.advance(&mut context, &Reply::Name(13)));
    assert_eq!(build.awaited(), Some(Call::GetLinkStatus { program: 13 }));
    assert!(!context.program_usable(13));
    sent.extend(context.take());
    assert!(build.advance(&mut context, &Reply::Value(1)));
    assert_eq!(build.awaited(), None);
    sent.extend(context.take());

    assert_eq!(
        sent,
        vec![
            call(Call::CreateShader { stage: ShaderStage::Vertex }),
            carrying(Call::ShaderSource { shader: 11 }, VERTEX.as_bytes()),
            call(Call::CompileShader { shader: 11 }),
            call(Call::GetCompileStatus { shader: 11 }),
            call(Call::CreateShader { stage: ShaderStage::Fragment }),
            carrying(Call::ShaderSource { shader: 12 }, FRAGMENT.as_bytes()),
            call(Call::CompileShader { shader: 12 }),
            call(Call::GetCompileStatus { shader: 12 }),
            call(Call::CreateProgram),
            call(Call::AttachShader { program: 13, shader: 11 }),
            call(Call::AttachShader { program: 13, shader: 12 }),
            call(Call::LinkProgram { program: 13 }),
            call(Call::GetLinkStatus { program: 13 }),
            call(Call::DeleteShader { shader: 11 }),
            call(Call::DeleteShader { shader: 12 }),
        ]
    );
    assert!(build.is_done());
    assert_eq!(build.phase(), Phase::Done);
    let shader = build.finish().unwrap();
    assert_eq!(shader.name(), 13);
    assert!(shader.is_usable(&context));
    assert!(!context.has_shader(11));
    assert!(!context.has_shader(12));
    assert_eq!(build.stage_log(ShaderStage::Vertex), None);
    assert_eq!(build.stage_log(ShaderStage::Fragment), None);
    assert_eq!(build.link_log(), None);
}

#[test]
fn invalid_fragment_shader_is_reported_and_the_build_goes_on() {
    let mut context = Context::new();
    let mut build = create_shader_from_files(&mut context, VERTEX, BROKEN);
    answer(&mut build, &mut context, vec![Reply::Name(1), Reply::Value(1), Reply::Name(2)]);
    context.take();

    assert!(build.advance(&mut context, &Reply::Value(0)));
    assert_eq!(build.phase(), Phase::StageLog(ShaderStage::Fragment));
    assert_eq!(
        context.take(),
        vec![call(Call::GetShaderInfoLog { shader: 2, capacity: 512 })]
    );
    let complaint = b"0:2(21): error: syntax error, unexpected IDENTIFIER".to_vec();
    assert!(build.advance(&mut context, &Reply::Text(complaint.clone())));
    assert_eq!(context.take(), vec![call(Call::CreateProgram)]);
    assert_eq!(build.stage_log(ShaderStage::Fragment), Some(complaint));
    assert_eq!(build.stage_log(ShaderStage::Vertex), None);

    assert!(build.advance(&mut context, &Reply::Name(3)));
    context.take();
    assert!(build.advance(&mut context, &Reply::Value(0)));
    assert_eq!(context.take(), vec![call(Call::GetInfoLogLength { program: 3 })]);
    assert!(build.advance(&mut context, &Reply::Value(37)));
    assert_eq!(
        context.take(),
        vec![call(Call::GetProgramInfoLog { program: 3, capacity: 37 })]
    );
    let reason = b"error: linking with uncompiled shader".to_vec();
    assert_eq!(reason.len(), 37);
    assert!(build.advance(&mut context, &Reply::Text(reason.clone())));
    assert_eq!(
        context.take(),
        vec![call(Call::DeleteShader { shader: 1 }), call(Call::DeleteShader { shader: 2 })]
    );

    assert!(build.is_done());
    assert_eq!(build.link_log(), Some(reason));
    assert!(!build.stage_log(ShaderStage::Fragment).unwrap().is_empty());
    let shader = build.finish().unwrap();
    assert_eq!(shader.name(), 3);
    assert!(!shader.is_usable(&context));
    assert!(!context.has_shader(1));
    assert!(!context.has_shader(2));
}

#[test]
fn invalid_vertex_shader_is_reported_and_the_fragment_stage_follows() {
    let mut context = Context::new();
    let mut build = create_shader_from_files(&mut context, BROKEN, FRAGMENT);
    answer(&mut build, &mut context, vec![Reply::Name(1), Reply::Value(0)]);
    assert_eq!(build.awaited(), Some(Call::GetShaderInfoLog { shader: 1, capacity: 512 }));
    context.take();
    assert!(build.advance(&mut context, &Reply::Text(b"bad".to_vec())));
    assert_eq!(build.phase(), Phase::StageName(ShaderStage::Fragment));
    assert_eq!(context.take(), vec![call(Call::CreateShader { stage: ShaderStage::Fragment })]);
    assert_eq!(build.stage_log(ShaderStage::Vertex), Some(b"bad".to_vec()));
}

#[test]
fn stage_diagnostic_is_cut_to_512_bytes() {
    let mut context = Context::new();
    let mut build = create_shader_from_files(&mut context, BROKEN, FRAGMENT);
    answer(&mut build, &mut context, vec![Reply::Name(1), Reply::Value(0)]);
    let long: Vec<u8> = (0..700).map(|i| b'a' + (i % 26) as u8).collect();
    assert!(build.advance(&mut context, &Reply::Text(long.clone())));
    assert_eq!(build.stage_log(ShaderStage::Vertex), Some(long[..512].to_vec()));
}

#[test]
fn link_diagnostic_is_kept_up_to_the_reported_length() {
    let mut context = Context::new();
    let mut build = create_shader_from_files(&mut context, VERTEX, FRAGMENT);
    answer(
        &mut build,
        &mut context,
        vec![
            Reply::Name(1),
            Reply::Value(1),
            Reply::Name(2),
            Reply::Value(1),
            Reply::Name(3),
            Reply::Value(0),
            Reply::Value(1000),
        ],
    );
    let long: Vec<u8> = (0..1000).map(|i| b'A' + (i % 26) as u8).collect();
    assert!(build.advance(&mut context, &Reply::Text(long.clone())));
    assert_eq!(build.link_log(), Some(long));

    let mut other = create_shader_from_files(&mut context, VERTEX, FRAGMENT);
    answer(
        &mut other,
        &mut context,
        vec![
            Reply::Name(4),
            Reply::Value(1),
            Reply::Name(5),
            Reply::Value(1),
            Reply::Name(6),
            Reply::Value(0),
            Reply::Value(4),
            Reply::Text(b"too long".to_vec()),
        ],
    );
    assert_eq!(other.link_log(), Some(b"too ".to_vec()));
    assert!(other.is_done());
}

#[test]
fn negative_log_length_keeps_nothing() {
    let mut context = Context::new();
    let mut build = create_shader_from_files(&mut context, VERTEX, FRAGMENT);
    answer(
        &mut build,
        &mut context,
        vec![
            Reply::Name(1),
            Reply::Value(1),
            Reply::Name(2),
            Reply::Value(1),
            Reply::Name(3),
            Reply::Value(0),
            Reply::Value(-1),
        ],
    );
    assert_eq!(build.awaited(), Some(Call::GetProgramInfoLog { program: 3, capacity: -1 }));
    assert!(build.advance(&mut context, &Reply::Text(b"text".to_vec())));
    assert_eq!(build.link_log(), Some(vec![]));
}

#[test]
fn answers_of_the_wrong_kind_are_not_accepted() {
    let mut context = Context::new();
    let mut build = create_shader_from_files(&mut context, VERTEX, FRAGMENT);
    context.take();
    assert!(!build.advance(&mut context, &Reply::Nothing));
    assert!(!build.advance(&mut context, &Reply::Value(1)));
    assert!(!build.advance(&mut context, &Reply::Text(vec![1])));
    assert_eq!(build.phase(), Phase::StageName(ShaderStage::Vertex));
    assert_eq!(context.pending_len(), 0);
    assert!(build.advance(&mut context, &Reply::Name(1)));
    context.take();
    assert!(!build.advance(&mut context, &Reply::Name(2)));
    assert!(!build.advance(&mut context, &Reply::Text(vec![])));
    assert_eq!(build.phase(), Phase::StageStatus(ShaderStage::Vertex));
    assert_eq!(context.pending_len(), 0);
    assert!(!context.has_shader(2));
}

#[test]
fn nothing_is_accepted_once_the_build_is_done() {
    let mut context = Context::new();
    let mut build = create_shader_from_files(&mut context, VERTEX, FRAGMENT);
    answer(
        &mut build,
        &mut context,
        vec![
            Reply::Name(1),
            Reply::Value(1),
            Reply::Name(2),
            Reply::Value(1),
            Reply::Name(3),
            Reply::Value(1),
        ],
    );
    context.take();
    for reply in [Reply::Nothing, Reply::Name(9), Reply::Value(0), Reply::Text(vec![1])] {
        assert!(!build.advance(&mut context, &reply));
    }
    assert!(build.is_done());
    assert_eq!(context.pending_len(), 0);
    assert!(context.program_usable(3));
}

#[test]
fn build_takes_at_most_ten_answers() {
    let mut context = Context::new();
    let mut build = create_shader_from_files(&mut context, BROKEN, BROKEN);
    let replies = vec![
        Reply::Name(1),
        Reply::Value(0),
        Reply::Text(b"vertex".to_vec()),
        Reply::Name(2),
        Reply::Value(0),
        Reply::Text(b"fragment".to_vec()),
        Reply::Name(3),
        Reply::Value(0),
        Reply::Value(4),
        Reply::Text(b"link".to_vec()),
    ];
    assert_eq!(replies.len(), 10);
    for reply in replies {
        assert!(!build.is_done());
        assert!(build.advance(&mut context, &reply));
    }
    assert!(build.is_done());
    assert_eq!(build.stage_log(ShaderStage::Vertex), Some(b"vertex".to_vec()));
    assert_eq!(build.stage_log(ShaderStage::Fragment), Some(b"fragment".to_vec()));
    assert_eq!(build.link_log(), Some(b"link".to_vec()));
}

#[test]
fn program_named_zero_is_never_usable() {
    let mut context = Context::new();
    let shader = linked_shader(&mut context, 0);
    assert_eq!(shader.name(), 0);
    assert!(!shader.is_usable(&context));
    shader.use_shader(&mut context);
    assert_eq!(context.program(), 0);
}

#[test]
fn used_program_takes_uniform_matrices() {
    let mut context = Context::new();
    let shader = linked_shader(&mut context, 20);
    shader.use_shader(&mut context);
    assert_eq!(context.program(), 20);
    assert_eq!(context.take(), vec![call(Call::UseProgram { program: 20 })]);

    let matrix: Vec<f32> = (0..16).map(|i| i as f32 + 0.5).collect();
    let data = matrix_bytes(&matrix);
    let update = shader.set_mat4(&mut context, "model", 1, &data);
    assert_eq!(
        context.take(),
        vec![carrying(Call::GetUniformLocation { program: 20 }, b"model")]
    );
    assert!(update.resolve(&mut context, &Reply::Value(4)));
    assert_eq!(
        context.take(),
        vec![carrying(Call::UniformMatrix4fv { location: 4, count: 1, transpose: false }, &data)]
    );
    let read_back = context.uniform(20, 4).unwrap();
    let floats: Vec<f32> = read_back
        .chunks(4)
        .map(|chunk| f32::from_ne_bytes([chunk[0], chunk[1], chunk[2], chunk[3]]))
        .collect();
    assert_eq!(floats, matrix);
}

#[test]
fn set_mat4_holds_the_first_count_matrices() {
    let mut context = Context::new();
    let shader = linked_shader(&mut context, 20);
    shader.use_shader(&mut context);
    let data: Vec<u8> = (0..200).map(|i| i as u8).collect();
    let update = shader.set_mat4(&mut context, "bones", 2, &data);
    assert!(update.resolve(&mut context, &Reply::Value(0)));
    assert_eq!(context.uniform(20, 0), Some(data[..128].to_vec()));
}

#[test]
fn set_mat4_tolerates_a_missing_uniform() {
    let mut context = Context::new();
    let shader = linked_shader(&mut context, 20);
    shader.use_shader(&mut context);
    context.take();
    let update = shader.set_mat4(&mut context, "absent", 1, &[0; 64]);
    assert!(update.resolve(&mut context, &Reply::Value(-1)));
    assert_eq!(
        context.take(),
        vec![
            carrying(Call::GetUniformLocation { program: 20 }, b"absent"),
            carrying(Call::UniformMatrix4fv { location: -1, count: 1, transpose: false }, &[0; 64]),
        ]
    );
    assert_eq!(context.uniform(20, -1), None);
}

#[test]
fn set_mat4_waits_for_a_location() {
    let mut context = Context::new();
    let shader = linked_shader(&mut context, 20);
    shader.use_shader(&mut context);
    context.take();
    let update = shader.set_mat4(&mut context, "model", 1, &[1; 64]);
    context.take();
    assert!(!update.resolve(&mut context, &Reply::Name(3)));
    assert_eq!(context.pending_len(), 0);
    assert_eq!(context.uniform(20, 3), None);
}

#[test]
fn modify_uniform_sets_the_program_in_use() {
    let mut context = Context::new();
    let first = linked_shader(&mut context, 20);
    let second = linked_shader(&mut context, 30);
    first.use_shader(&mut context);
    second.modify_uniform_mat4_value(&mut context, 2, 1, &[9; 64]);
    assert_eq!(context.uniform(20, 2), Some(vec![9; 64]));
    assert_eq!(context.uniform(30, 2), None);
    second.use_shader(&mut context);
    second.modify_uniform_mat4_value(&mut context, 2, 0, &[9; 64]);
    assert_eq!(context.uniform(30, 2), Some(vec![]));
}

#[test]
fn modify_uniform_without_a_program_in_use_sets_nothing() {
    let mut context = Context::new();
    let shader = linked_shader(&mut context, 20);
    shader.modify_uniform_mat4_value(&mut context, 2, 1, &[9; 64]);
    assert_eq!(context.pending_len(), 1);
    assert_eq!(context.uniform(20, 2), None);
}

#[test]
fn uniform_location_is_asked_by_name() {
    let mut context = Context::new();
    let shader = linked_shader(&mut context, 20);
    shader.get_uniform_loc_from_name(&mut context, "ourTexture");
    assert_eq!(
        context.take(),
        vec![carrying(Call::GetUniformLocation { program: 20 }, b"ourTexture")]
    );
}

#[test]
fn unlinked_program_stays_out_of_use() {
    let mut context = Context::new();
    let good = linked_shader(&mut context, 20);
    good.use_shader(&mut context);
    let mut build = create_shader_from_files(&mut context, VERTEX, BROKEN);
    answer(
        &mut build,
        &mut context,
        vec![
            Reply::Name(1),
            Reply::Value(1),
            Reply::Name(2),
            Reply::Value(0),
            Reply::Text(b"bad".to_vec()),
            Reply::Name(30),
            Reply::Value(0),
            Reply::Value(3),
            Reply::Text(b"bad".to_vec()),
        ],
    );
    let bad = build.finish().unwrap();
    context.take();
    bad.use_shader(&mut context);
    assert_eq!(context.take(), vec![call(Call::UseProgram { program: 30 })]);
    assert_eq!(context.program(), 20);
}

#[test]
fn released_program_is_not_usable() {
    let mut context = Context::new();
    let shader = linked_shader(&mut context, 20);
    shader.use_shader(&mut context);
    assert!(shader.is_usable(&context));
    context.take();
    shader.delete_shader(&mut context);
    assert!(!shader.is_usable(&context));
    assert_eq!(context.program(), 0);
    shader.delete_shader(&mut context);
    assert!(!shader.is_usable(&context));
    assert_eq!(
        context.take(),
        vec![call(Call::DeleteProgram { program: 20 }), call(Call::DeleteProgram { program: 20 })]
    );
    shader.use_shader(&mut context);
    assert_eq!(context.program(), 0);
}
