use rusteroids::camera::OrthoCamera;
use rusteroids::frame::{frame_error_action, BindingTarget, FrameAction, FrameError, PassCommand};
use rusteroids::mesh::Mesh;
use rusteroids::renderer::{Renderer, ResizeAction};
use rusteroids::uniform::UniformBuffer;

const IDENTITY: [f32; 16] = [
    1.0, 0.0, 0.0, 0.0, 0.0, 1.0, 0.0, 0.0, 0.0, 0.0, 1.0, 0.0, 0.0, 0.0, 0.0, 1.0,
];

fn draw(vertex_end: u32) -> PassCommand {
    PassCommand::Draw { vertex_start: 0, vertex_end, instance_start: 0, instance_end: 1 }
}

#[test]
fn camera_resize_with_same_size_uploads_once() {
    let mut camera = OrthoCamera::new(800, 600);
    camera.setup();
    assert!(camera.resize(1024, 768));
    assert!(!camera.resize(1024, 768));
    assert_eq!((camera.width, camera.height), (1024, 768));
}

#[test]
fn camera_resize_to_current_size_uploads_nothing() {
    let mut camera = OrthoCamera::new(800, 600);
    camera.setup();
    assert!(!camera.resize(800, 600));
    assert!(camera.resize(800, 601));
}

#[test]
fn camera_resize_before_setup_only_stores() {
    let mut camera = OrthoCamera::new(800, 600);
    assert!(!camera.resize(640, 480));
    assert_eq!((camera.width, camera.height), (640, 480));
    assert!(!camera.is_setup);
}

#[test]
fn camera_half_extents_round_down() {
    assert_eq!(OrthoCamera::new(800, 600).half_extents(), (400, 300));
    assert_eq!(OrthoCamera::new(801, 3).half_extents(), (400, 1));
}

#[test]
fn camera_binds_only_after_setup() {
    let mut camera = OrthoCamera::new(800, 600);
    assert_eq!(camera.bind_group(), None);
    camera.setup();
    assert_eq!(
        camera.bind_group(),
        Some(PassCommand::SetBindGroup { index: 0, target: BindingTarget::Camera })
    );
}

#[test]
fn frame_error_policy() {
    assert_eq!(frame_error_action(FrameError::Lost), FrameAction::Reconfigure);
    assert_eq!(frame_error_action(FrameError::Outdated), FrameAction::Reconfigure);
    assert_eq!(frame_error_action(FrameError::OutOfMemory), FrameAction::Exit);
    assert_eq!(frame_error_action(FrameError::Timeout), FrameAction::Skip);
}

#[test]
fn uniform_update_replaces_contents() {
    let mut u = UniformBuffer::new(IDENTITY, BindingTarget::Model(3));
    let mut m = IDENTITY;
    m[12] = 10.0;
    u.update_buffer(m);
    assert_eq!(u.data, m);
    assert_eq!(u.target, BindingTarget::Model(3));
    assert_eq!(u.bind(1), PassCommand::SetBindGroup { index: 1, target: BindingTarget::Model(3) });
}

#[test]
fn update_before_setup_is_a_no_op() {
    let mut mesh: Mesh<u8, [f32; 16]> = Mesh::new(vec![1, 2, 3]);
    assert_eq!(mesh.update_buffer(IDENTITY), None);
    assert!(mesh.model_uniform.is_none());
}

#[test]
fn mesh_draws_all_vertices_after_setup() {
    let mut mesh: Mesh<u8, [f32; 16]> = Mesh::new(vec![1, 2, 3, 4, 5]);
    assert!(mesh.index.is_none() && mesh.model_uniform.is_none());
    mesh.setup(7, IDENTITY);
    assert_eq!(mesh.index, Some(7));
    assert_eq!(mesh.vertex_count(), 5);
    assert_eq!(
        mesh.render(2..4),
        vec![
            PassCommand::SetBindGroup { index: 1, target: BindingTarget::Model(7) },
            PassCommand::SetVertexBuffer { slot: 0, mesh: 7 },
            PassCommand::Draw { vertex_start: 0, vertex_end: 5, instance_start: 2, instance_end: 4 },
        ]
    );
    assert_eq!(mesh.update_buffer(IDENTITY), Some(BindingTarget::Model(7)));
}

#[test]
fn renderer_indexes_meshes_in_order() {
    let mut r: Renderer<u8, [f32; 16]> = Renderer::new(800, 600);
    assert_eq!(r.add_mesh(vec![1, 2, 3, 4, 5], IDENTITY), 0);
    assert_eq!(r.add_mesh(vec![1, 2], IDENTITY), 1);
    assert_eq!(r.meshes.len(), 2);
    assert_eq!(r.meshes[1].index, Some(1));
}

#[test]
fn empty_renderer_binds_pipeline_and_camera() {
    let r: Renderer<u8, [f32; 16]> = Renderer::new(800, 600);
    assert_eq!(
        r.render(),
        vec![
            PassCommand::SetPipeline,
            PassCommand::SetBindGroup { index: 0, target: BindingTarget::Camera },
        ]
    );
}

#[test]
fn renderer_frame_commands() {
    let mut r: Renderer<u8, [f32; 16]> = Renderer::new(800, 600);
    r.add_mesh(vec![1, 2, 3, 4, 5], IDENTITY);
    r.add_mesh(vec![1, 2], IDENTITY);
    assert_eq!(
        r.render(),
        vec![
            PassCommand::SetPipeline,
            PassCommand::SetBindGroup { index: 0, target: BindingTarget::Camera },
            PassCommand::SetBindGroup { index: 1, target: BindingTarget::Model(0) },
            PassCommand::SetVertexBuffer { slot: 0, mesh: 0 },
            draw(5),
            PassCommand::SetBindGroup { index: 1, target: BindingTarget::Model(1) },
            PassCommand::SetVertexBuffer { slot: 0, mesh: 1 },
            draw(2),
        ]
    );
}

#[test]
fn renderer_update_writes_every_mesh() {
    let mut r: Renderer<u8, [f32; 16]> = Renderer::new(800, 600);
    r.add_mesh(vec![1, 2, 3], IDENTITY);
    r.add_mesh(vec![4], IDENTITY);
    let mut m = IDENTITY;
    m[13] = 5.0;
    assert_eq!(r.update(m), vec![BindingTarget::Model(0), BindingTarget::Model(1)]);
    assert_eq!(r.meshes[0].model_uniform.as_ref().map(|u| u.data), Some(m));
    assert_eq!(r.meshes[1].model_uniform.as_ref().map(|u| u.data), Some(m));
}

#[test]
fn renderer_ignores_zero_sized_resize() {
    let mut r: Renderer<u8, [f32; 16]> = Renderer::new(800, 600);
    assert_eq!(r.resize(0, 600), ResizeAction::Ignore);
    assert_eq!(r.resize(800, 0), ResizeAction::Ignore);
    assert_eq!(r.get_size(), (800, 600));
}

#[test]
fn renderer_resize_reconfigures_and_uploads_on_change() {
    let mut r: Renderer<u8, [f32; 16]> = Renderer::new(800, 600);
    assert_eq!(
        r.resize(1024, 768),
        ResizeAction::Reconfigure { width: 1024, height: 768, upload_projection: true }
    );
    assert_eq!(
        r.resize(1024, 768),
        ResizeAction::Reconfigure { width: 1024, height: 768, upload_projection: false }
    );
    assert_eq!(r.get_size(), (1024, 768));
    assert_eq!((r.camera.width, r.camera.height), (1024, 768));
}

#[test]
fn camera_at_the_largest_size() {
    let mut camera = OrthoCamera::new(1, 1);
    camera.setup();
    assert!(camera.resize(u32::MAX, u32::MAX));
    assert_eq!(camera.half_extents(), (2_147_483_647, 2_147_483_647));
    assert!(!camera.resize(u32::MAX, u32::MAX));
}
