use rendercore::context::{GlCommand, GpuContext};
use rendercore::gpu::{Attribute, VertexArrayObject, VertexBufferObject};

fn attr(width: u8, stride: usize, start_idx: usize) -> Attribute {
    Attribute { width, stride, start_idx, ty: gl_float() }
}

// The native enumerant for single-precision scalars, as the executor passes
// it through.
fn gl_float() -> u32 {
    0x1406
}

#[test]
fn fresh_context_has_no_commands_and_ids_start_at_one() {
    let mut ctx = GpuContext::new();
    assert_eq!(ctx.peek_next_id(), 1);
    assert!(ctx.take_commands().is_empty());
}

#[test]
fn buffer_construction_uploads_static_data() {
    let mut ctx = GpuContext::new();
    let data: Vec<u32> = vec![1, 2, 3, 4];
    let vbo = VertexBufferObject::from_data(&mut ctx, data.clone());
    let cmds = ctx.take_commands();
    assert_eq!(
        cmds,
        vec![
            GlCommand::GenBuffer { id: vbo.id },
            GlCommand::BindArrayBuffer { id: vbo.id },
            GlCommand::ArrayBufferData { data },
        ]
    );
    assert!(ctx.take_commands().is_empty());
}

#[test]
fn distinct_resources_get_distinct_handles() {
    let mut ctx = GpuContext::new();
    let a = VertexBufferObject::new(&mut ctx);
    let b = VertexBufferObject::new(&mut ctx);
    let vao = VertexArrayObject::new(&mut ctx);
    assert_ne!(a.id, b.id);
    assert_ne!(a.id, vao.id);
    assert_ne!(b.id, vao.id);
}

#[test]
fn from_layout_describes_attributes_in_location_order() {
    let mut ctx = GpuContext::new();
    let attribs = vec![attr(3, 24, 0), attr(3, 24, 12)];
    let vao = VertexArrayObject::from_layout(&mut ctx, &attribs);
    assert_eq!(vao.layout, attribs);
    let cmds = ctx.take_commands();
    assert_eq!(
        cmds,
        vec![
            GlCommand::GenVertexArray { id: vao.id },
            GlCommand::BindVertexArray { id: vao.id },
            GlCommand::VertexAttribPointer { location: 0, attr: attribs[0] },
            GlCommand::EnableVertexAttrib { location: 0 },
            GlCommand::BindVertexArray { id: vao.id },
            GlCommand::VertexAttribPointer { location: 1, attr: attribs[1] },
            GlCommand::EnableVertexAttrib { location: 1 },
        ]
    );
}

// Rebinding a layout first to buffer A and then to buffer B: after the
// second rebind the latest array-buffer bind selects B, and every stored
// descriptor has been re-applied (against B) after that bind, so a draw
// that follows fetches B's data.
#[test]
fn rebind_to_second_buffer_reads_from_second_buffer() {
    let mut ctx = GpuContext::new();
    let attribs = vec![attr(2, 8, 0), attr(1, 8, 4)];
    let vao = VertexArrayObject::from_layout(&mut ctx, &attribs);
    let buffer_a = VertexBufferObject::from_data(&mut ctx, vec![11, 12, 13]);
    let buffer_b = VertexBufferObject::from_data(&mut ctx, vec![91, 92, 93]);
    ctx.take_commands();

    vao.rebind_to_new_buffer(&mut ctx, &buffer_a);
    vao.rebind_to_new_buffer(&mut ctx, &buffer_b);
    let cmds = ctx.take_commands();

    // The latest array-buffer bind selects B.
    let last_bind = cmds
        .iter()
        .rposition(|c| matches!(c, GlCommand::BindArrayBuffer { .. }))
        .expect("a buffer bind must be present");
    assert_eq!(cmds[last_bind], GlCommand::BindArrayBuffer { id: buffer_b.id });

    // Every descriptor is re-applied after that bind, in location order.
    let tail: Vec<&GlCommand> = cmds[last_bind..].iter().collect();
    assert_eq!(tail[1], &GlCommand::BindVertexArray { id: vao.id });
    assert_eq!(tail[2], &GlCommand::VertexAttribPointer { location: 0, attr: attribs[0] });
    assert_eq!(tail[3], &GlCommand::EnableVertexAttrib { location: 0 });
    assert_eq!(tail[4], &GlCommand::VertexAttribPointer { location: 1, attr: attribs[1] });
    assert_eq!(tail[5], &GlCommand::EnableVertexAttrib { location: 1 });
    assert_eq!(tail.len(), 6);
}

#[test]
fn release_emits_exactly_one_delete() {
    let mut ctx = GpuContext::new();
    let vbo = VertexBufferObject::new(&mut ctx);
    let id = vbo.id;
    ctx.take_commands();
    vbo.release(&mut ctx);
    assert_eq!(ctx.take_commands(), vec![GlCommand::DeleteBuffer { id }]);
}
