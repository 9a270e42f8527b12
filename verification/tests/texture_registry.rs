use azul_frame::geometry::LogicalSize;
use azul_frame::gl::{
    get_opengl_texture, gl_textures_clear_opengl_cache, gl_textures_remove_active_pipeline,
    gl_textures_remove_epochs_from_pipeline, insert_into_active_gl_textures, Texture,
    TextureRegistry,
};
use azul_frame::resources::{Epoch, ExternalImageId, PipelineId};

fn texture(id: u32, width: i64, height: i64) -> Texture {
    Texture { texture_id: id, size: LogicalSize::new(width, height) }
}

/// Handle, width and height of each texture.
fn handles(textures: &Vec<Texture>) -> Vec<(u32, i64, i64)> {
    textures.iter().map(|t| (t.texture_id, t.size.width, t.size.height)).collect()
}

#[test]
fn register_then_lookup_finds_the_texture() {
    let mut registry = TextureRegistry::new();
    let pipeline = PipelineId(1, 2);
    let id = insert_into_active_gl_textures(&mut registry, pipeline, Epoch(3), texture(42, 800_000, 600_000));
    assert_eq!(id, ExternalImageId(0));
    assert_eq!(get_opengl_texture(&registry, &id), Some((42, (800_000, 600_000))));
    assert_eq!(registry.len(), 1);
}

#[test]
fn lookup_of_unknown_id_finds_nothing() {
    let mut registry = TextureRegistry::new();
    assert_eq!(get_opengl_texture(&registry, &ExternalImageId(0)), None);
    insert_into_active_gl_textures(&mut registry, PipelineId(0, 0), Epoch(0), texture(1, 1, 1));
    assert_eq!(get_opengl_texture(&registry, &ExternalImageId(7)), None);
}

#[test]
fn image_ids_are_minted_in_sequence() {
    let mut registry = TextureRegistry::new();
    let a = insert_into_active_gl_textures(&mut registry, PipelineId(0, 0), Epoch(0), texture(10, 1, 1));
    let b = insert_into_active_gl_textures(&mut registry, PipelineId(0, 1), Epoch(9), texture(11, 2, 2));
    let c = insert_into_active_gl_textures(&mut registry, PipelineId(0, 0), Epoch(0), texture(12, 3, 3));
    assert_eq!((a, b, c), (ExternalImageId(0), ExternalImageId(1), ExternalImageId(2)));
    assert_eq!(get_opengl_texture(&registry, &b), Some((11, (2, 2))));
}

#[test]
fn eviction_is_strict_about_the_watermark() {
    // texture T at epoch 5, texture U at epoch 7, evict older than 7
    let mut registry = TextureRegistry::new();
    let p = PipelineId(0, 1);
    let t = insert_into_active_gl_textures(&mut registry, p, Epoch(5), texture(100, 10, 10));
    let u = insert_into_active_gl_textures(&mut registry, p, Epoch(7), texture(200, 20, 20));
    let removed = gl_textures_remove_epochs_from_pipeline(&mut registry, &p, Epoch(7));
    assert_eq!(handles(&removed), handles(&vec![texture(100, 10, 10)]));
    assert_eq!(get_opengl_texture(&registry, &t), None);
    assert_eq!(get_opengl_texture(&registry, &u), Some((200, (20, 20))));
}

#[test]
fn eviction_keeps_later_epochs_and_other_pipelines() {
    let mut registry = TextureRegistry::new();
    let p = PipelineId(0, 1);
    let q = PipelineId(0, 2);
    let old_p = insert_into_active_gl_textures(&mut registry, p, Epoch(1), texture(1, 1, 1));
    let old_q = insert_into_active_gl_textures(&mut registry, q, Epoch(1), texture(2, 2, 2));
    let at = insert_into_active_gl_textures(&mut registry, p, Epoch(4), texture(3, 3, 3));
    let later = insert_into_active_gl_textures(&mut registry, p, Epoch(9), texture(4, 4, 4));
    let removed = gl_textures_remove_epochs_from_pipeline(&mut registry, &p, Epoch(4));
    assert_eq!(handles(&removed), handles(&vec![texture(1, 1, 1)]));
    assert_eq!(get_opengl_texture(&registry, &old_p), None);
    assert_eq!(get_opengl_texture(&registry, &old_q), Some((2, (2, 2))));
    assert_eq!(get_opengl_texture(&registry, &at), Some((3, (3, 3))));
    assert_eq!(get_opengl_texture(&registry, &later), Some((4, (4, 4))));
    assert_eq!(registry.len(), 3);
}

#[test]
fn eviction_of_an_unknown_pipeline_changes_nothing() {
    let mut registry = TextureRegistry::new();
    let id = insert_into_active_gl_textures(&mut registry, PipelineId(0, 1), Epoch(1), texture(1, 1, 1));
    let removed = gl_textures_remove_epochs_from_pipeline(&mut registry, &PipelineId(5, 5), Epoch(100));
    assert!(removed.is_empty());
    assert_eq!(get_opengl_texture(&registry, &id), Some((1, (1, 1))));
}

#[test]
fn removing_a_pipeline_removes_its_whole_history() {
    let mut registry = TextureRegistry::new();
    let p = PipelineId(0, 1);
    let q = PipelineId(0, 2);
    let a = insert_into_active_gl_textures(&mut registry, p, Epoch(1), texture(1, 1, 1));
    let b = insert_into_active_gl_textures(&mut registry, q, Epoch(1), texture(2, 2, 2));
    let c = insert_into_active_gl_textures(&mut registry, p, Epoch(50), texture(3, 3, 3));
    let removed = gl_textures_remove_active_pipeline(&mut registry, &p);
    assert_eq!(handles(&removed), handles(&vec![texture(1, 1, 1), texture(3, 3, 3)]));
    assert_eq!(get_opengl_texture(&registry, &a), None);
    assert_eq!(get_opengl_texture(&registry, &c), None);
    assert_eq!(get_opengl_texture(&registry, &b), Some((2, (2, 2))));
}

#[test]
fn clearing_removes_everything_but_never_reuses_an_id() {
    let mut registry = TextureRegistry::new();
    let a = insert_into_active_gl_textures(&mut registry, PipelineId(0, 1), Epoch(1), texture(1, 1, 1));
    let b = insert_into_active_gl_textures(&mut registry, PipelineId(0, 2), Epoch(2), texture(2, 2, 2));
    let removed = gl_textures_clear_opengl_cache(&mut registry);
    assert_eq!(handles(&removed), handles(&vec![texture(1, 1, 1), texture(2, 2, 2)]));
    assert_eq!(registry.len(), 0);
    assert_eq!(get_opengl_texture(&registry, &a), None);
    assert_eq!(get_opengl_texture(&registry, &b), None);
    let c = insert_into_active_gl_textures(&mut registry, PipelineId(0, 1), Epoch(3), texture(3, 3, 3));
    assert_eq!(c, ExternalImageId(2));
}

#[test]
fn a_registration_changes_no_other_lookup() {
    let mut registry = TextureRegistry::new();
    let a = insert_into_active_gl_textures(&mut registry, PipelineId(0, 0), Epoch(1), texture(10, 1, 2));
    let not_yet = ExternalImageId(5);
    assert_eq!(get_opengl_texture(&registry, &not_yet), None);
    let b = insert_into_active_gl_textures(&mut registry, PipelineId(0, 0), Epoch(1), texture(11, 3, 4));
    assert_eq!(get_opengl_texture(&registry, &a), Some((10, (1, 2))));
    assert_eq!(get_opengl_texture(&registry, &not_yet), None);
    // the id that is minted is the one whose lookup changes
    assert_eq!(b, ExternalImageId(1));
    assert_eq!(get_opengl_texture(&registry, &b), Some((11, (3, 4))));
}
