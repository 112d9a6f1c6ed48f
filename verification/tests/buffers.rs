use glfw_demo::command::{Command, ElementType};
use glfw_demo::context::Context;
use glfw_demo::vao::Vao;
use glfw_demo::vbo::{Attribute, Vbo};

fn bits(values: &[f32]) -> Vec<u32> {
    let mut out = Vec::new();
    for value in values {
        out.push(value.to_bits());
    }
    out
}

fn described(ctx: &mut Context, handle: u32, floats: usize, slot: u32, components: i32) -> Vbo {
    let mut vbo = Vbo::create(handle);
    vbo.bind(ctx);
    vbo.upload_data(ctx, vec![0; floats]);
    vbo.vertex_attrib(ctx, slot, components, ElementType::Float);
    vbo.unbind(ctx);
    vbo
}

#[test]
fn a_new_buffer_is_empty_and_not_described() {
    let vbo = Vbo::create(5);
    assert_eq!(vbo.handle(), 5);
    assert_eq!(vbo.len(), 0);
    assert_eq!(vbo.attribute(), None);
    assert_eq!(vbo.vertex_count(), None);
    assert!(!vbo.ready_for(0));
}

#[test]
fn a_new_vertex_array_has_no_buffers() {
    let vao = Vao::create(4);
    assert_eq!(vao.handle(), 4);
    assert!(vao.buffers().is_empty());
    assert!(vao.ready_for(3));
}

#[test]
fn binding_a_vertex_array_records_the_call_and_what_is_bound() {
    let mut ctx = Context::new();
    let vao = Vao::create(4);
    vao.bind(&mut ctx);
    assert_eq!(ctx.state().vertex_array, Some(4));
    assert_eq!(ctx.state().array_buffer, None);
    vao.unbind(&mut ctx);
    assert_eq!(ctx.state().vertex_array, None);
    assert_eq!(
        ctx.take_commands(),
        vec![Command::BindVertexArray { array: 4 }, Command::UnbindVertexArray]
    );
}

#[test]
fn binding_a_buffer_records_the_call_and_what_is_bound() {
    let mut ctx = Context::new();
    let vbo = Vbo::create(6);
    vbo.bind(&mut ctx);
    assert_eq!(ctx.state().array_buffer, Some(6));
    assert_eq!(ctx.state().vertex_array, None);
    vbo.unbind(&mut ctx);
    assert_eq!(ctx.state().array_buffer, None);
    assert_eq!(ctx.take_commands(), vec![Command::BindBuffer { buffer: 6 }, Command::UnbindBuffer]);
}

#[test]
fn binding_another_buffer_replaces_the_bound_one() {
    let mut ctx = Context::new();
    Vbo::create(6).bind(&mut ctx);
    Vbo::create(7).bind(&mut ctx);
    assert_eq!(ctx.state().array_buffer, Some(7));
}

#[test]
fn nine_floats_described_by_threes_are_ready_for_three_vertices() {
    let mut ctx = Context::new();
    let vao = Vao::create(1);
    vao.bind(&mut ctx);
    let mut vbo = Vbo::create(2);
    vbo.bind(&mut ctx);
    let vertices: Vec<f32> = vec![-0.5, -0.5, 0.0, 0.5, -0.5, 0.0, 0.0, 0.5, 0.0];
    vbo.upload_data(&mut ctx, bits(&vertices));
    vbo.vertex_attrib(&mut ctx, 0, 3, ElementType::Float);

    assert_eq!(vbo.len(), 9);
    assert_eq!(
        vbo.attribute(),
        Some(Attribute { slot: 0, components: 3, element: ElementType::Float, vertex_array: 1 })
    );
    assert_eq!(vbo.vertex_count(), Some(3));
    assert!(vbo.ready_for(3));
    assert_eq!(
        ctx.take_commands(),
        vec![
            Command::BindVertexArray { array: 1 },
            Command::BindBuffer { buffer: 2 },
            Command::UploadData { data: bits(&vertices), byte_len: 36 },
            Command::VertexAttrib { slot: 0, components: 3, element: ElementType::Float },
        ]
    );
}

#[test]
fn a_buffer_is_ready_for_fewer_vertices_and_not_for_more() {
    let mut ctx = Context::new();
    Vao::create(1).bind(&mut ctx);
    let vbo = described(&mut ctx, 2, 9, 0, 3);
    assert!(vbo.ready_for(0));
    assert!(vbo.ready_for(1));
    assert!(vbo.ready_for(2));
    assert!(vbo.ready_for(3));
    assert!(!vbo.ready_for(4));
    assert!(!vbo.ready_for(-1));
    assert!(!vbo.ready_for(i32::MAX));
    assert!(!vbo.ready_for(i32::MIN));
}

#[test]
fn upload_gives_four_bytes_to_each_float() {
    let mut ctx = Context::new();
    let mut vbo = Vbo::create(2);
    vbo.bind(&mut ctx);
    vbo.upload_data(&mut ctx, vec![1, 2, 3, 4, 5]);
    let commands = ctx.take_commands();
    assert_eq!(commands[1], Command::UploadData { data: vec![1, 2, 3, 4, 5], byte_len: 20 });
}

#[test]
fn an_upload_of_nothing_takes_no_bytes() {
    let mut ctx = Context::new();
    let mut vbo = Vbo::create(2);
    vbo.bind(&mut ctx);
    vbo.upload_data(&mut ctx, Vec::new());
    assert_eq!(vbo.len(), 0);
    let commands = ctx.take_commands();
    assert_eq!(commands[1], Command::UploadData { data: Vec::new(), byte_len: 0 });
}

#[test]
fn a_later_upload_replaces_the_earlier_one() {
    let mut ctx = Context::new();
    Vao::create(1).bind(&mut ctx);
    let mut vbo = Vbo::create(2);
    vbo.bind(&mut ctx);
    vbo.upload_data(&mut ctx, vec![0; 9]);
    vbo.vertex_attrib(&mut ctx, 0, 3, ElementType::Float);
    assert_eq!(vbo.vertex_count(), Some(3));
    vbo.upload_data(&mut ctx, vec![0; 6]);
    assert_eq!(vbo.len(), 6);
    assert_eq!(vbo.vertex_count(), Some(2));
    assert!(!vbo.ready_for(3));
}

#[test]
fn a_later_description_replaces_the_earlier_one() {
    let mut ctx = Context::new();
    Vao::create(1).bind(&mut ctx);
    let mut vbo = Vbo::create(2);
    vbo.bind(&mut ctx);
    vbo.upload_data(&mut ctx, vec![0; 12]);
    vbo.vertex_attrib(&mut ctx, 0, 3, ElementType::Float);
    assert_eq!(vbo.vertex_count(), Some(4));
    vbo.vertex_attrib(&mut ctx, 1, 4, ElementType::Float);
    assert_eq!(
        vbo.attribute(),
        Some(Attribute { slot: 1, components: 4, element: ElementType::Float, vertex_array: 1 })
    );
    assert_eq!(vbo.vertex_count(), Some(3));
}

#[test]
fn a_description_that_does_not_fit_the_upload_counts_no_vertices() {
    let mut ctx = Context::new();
    Vao::create(1).bind(&mut ctx);
    assert_eq!(described(&mut ctx, 2, 9, 0, 2).vertex_count(), None);
    assert_eq!(described(&mut ctx, 3, 9, 0, 4).vertex_count(), None);
    assert_eq!(described(&mut ctx, 4, 9, 0, 0).vertex_count(), None);
    assert_eq!(described(&mut ctx, 5, 9, 0, -3).vertex_count(), None);
    assert!(!described(&mut ctx, 6, 9, 0, 2).ready_for(0));
}

#[test]
fn an_empty_described_buffer_holds_no_vertex() {
    let mut ctx = Context::new();
    Vao::create(1).bind(&mut ctx);
    let vbo = described(&mut ctx, 2, 0, 0, 3);
    assert_eq!(vbo.vertex_count(), Some(0));
    assert!(vbo.ready_for(0));
    assert!(!vbo.ready_for(1));
}

#[test]
fn one_component_counts_every_float() {
    let mut ctx = Context::new();
    Vao::create(1).bind(&mut ctx);
    assert_eq!(described(&mut ctx, 2, 7, 0, 1).vertex_count(), Some(7));
}

#[test]
fn a_description_names_the_vertex_array_that_was_bound() {
    let mut ctx = Context::new();
    Vao::create(21).bind(&mut ctx);
    let first = described(&mut ctx, 2, 3, 0, 3);
    Vao::create(22).bind(&mut ctx);
    let second = described(&mut ctx, 3, 3, 0, 3);
    assert_eq!(first.attribute().unwrap().vertex_array, 21);
    assert_eq!(second.attribute().unwrap().vertex_array, 22);
}

#[test]
fn adding_a_buffer_keeps_it_and_binds_nothing() {
    let mut ctx = Context::new();
    let mut vao = Vao::create(1);
    vao.bind(&mut ctx);
    let positions = described(&mut ctx, 2, 9, 0, 3);
    let colors = described(&mut ctx, 3, 9, 1, 3);
    ctx.take_commands();
    let before = ctx.state();

    vao.add_vbo(positions);
    vao.add_vbo(colors);

    assert!(ctx.take_commands().is_empty());
    assert_eq!(ctx.state(), before);
    assert_eq!(vao.buffers().len(), 2);
    assert_eq!(vao.buffers()[0].handle(), 2);
    assert_eq!(vao.buffers()[1].handle(), 3);
    assert_eq!(vao.buffers()[0].attribute().unwrap().slot, 0);
    assert_eq!(vao.buffers()[1].attribute().unwrap().slot, 1);
}

#[test]
fn a_vertex_array_is_ready_when_each_of_its_buffers_is() {
    let mut ctx = Context::new();
    let mut vao = Vao::create(1);
    vao.bind(&mut ctx);
    vao.add_vbo(described(&mut ctx, 2, 9, 0, 3));
    assert!(vao.ready_for(3));
    vao.add_vbo(described(&mut ctx, 3, 6, 1, 3));
    assert!(vao.ready_for(2));
    assert!(!vao.ready_for(3));
    vao.add_vbo(described(&mut ctx, 4, 9, 2, 2));
    assert!(!vao.ready_for(0));
}
