use platformer::rect::Rect;
use platformer::resources::{Content, Renderer, Shader, ShaderHandles, Texture, Vertex};
use platformer::video::{find_driver, find_sdl_gl_driver};

fn s(text: &str) -> String {
    String::from(text)
}

#[test]
fn new_registry_knows_no_path() {
    let content = Content::new();
    assert_eq!(content.version(&s("a.frag")), None);
    let mut v = 7;
    assert!(!content.should_update_resource(&s("a.frag"), &mut v));
    assert_eq!(v, 7);
}

#[test]
fn registered_path_starts_at_version_zero() {
    let mut content = Content::new();
    content.register_file(s("a.frag"));
    assert_eq!(content.version(&s("a.frag")), Some(0));
    assert_eq!(content.version(&s("b.frag")), None);
    assert_eq!(content.version(&s("a.fra")), None);
}

#[test]
fn write_raises_the_version_of_its_path_only() {
    let mut content = Content::new();
    content.register_file(s("a.frag"));
    content.register_file(s("b.frag"));
    assert!(content.note_write(&s("a.frag")));
    assert!(content.note_write(&s("a.frag")));
    assert!(content.note_write(&s("b.frag")));
    assert!(!content.note_write(&s("c.frag")));
    assert_eq!(content.version(&s("a.frag")), Some(2));
    assert_eq!(content.version(&s("b.frag")), Some(1));
    assert_eq!(content.version(&s("c.frag")), None);
}

#[test]
fn registering_again_starts_over_at_zero() {
    let mut content = Content::new();
    content.register_file(s("a.frag"));
    content.register_file(s("b.frag"));
    content.note_write(&s("a.frag"));
    content.note_write(&s("b.frag"));
    content.register_file(s("a.frag"));
    assert_eq!(content.version(&s("a.frag")), Some(0));
    assert_eq!(content.version(&s("b.frag")), Some(1));
}

#[test]
fn update_records_every_write_in_the_batch() {
    let mut content = Content::new();
    content.register_file(s("a.frag"));
    content.register_file(s("b.png"));
    content.update(&vec![s("a.frag"), s("nowhere"), s("b.png"), s("a.frag")]);
    assert_eq!(content.version(&s("a.frag")), Some(2));
    assert_eq!(content.version(&s("b.png")), Some(1));
    assert_eq!(content.version(&s("nowhere")), None);
    content.update(&vec![]);
    assert_eq!(content.version(&s("a.frag")), Some(2));
}

#[test]
fn stale_resource_is_reported_once() {
    let mut content = Content::new();
    content.register_file(s("a.frag"));
    let mut seen = 0;
    assert!(!content.should_update_resource(&s("a.frag"), &mut seen));
    content.note_write(&s("a.frag"));
    content.note_write(&s("a.frag"));
    assert!(content.should_update_resource(&s("a.frag"), &mut seen));
    assert_eq!(seen, 2);
    assert!(!content.should_update_resource(&s("a.frag"), &mut seen));
    assert_eq!(seen, 2);
    // any other version counts as stale, a later one too
    let mut ahead = 5;
    assert!(content.should_update_resource(&s("a.frag"), &mut ahead));
    assert_eq!(ahead, 2);
}

#[test]
fn shader_registers_both_sources_and_starts_unloaded() {
    let mut content = Content::new();
    let shader = Shader::frag(&mut content, s("/c/wall.frag"), s("/c/shaders/2d.vert"));
    assert_eq!(content.version(&s("/c/wall.frag")), Some(0));
    assert_eq!(content.version(&s("/c/shaders/2d.vert")), Some(0));
    assert_eq!(shader.program(), None);
}

#[test]
fn second_shader_resets_the_shared_vertex_source() {
    let mut content = Content::new();
    let mut first = Shader::frag(&mut content, s("/c/a.frag"), s("/c/shaders/2d.vert"));
    content.note_write(&s("/c/shaders/2d.vert"));
    let _second = Shader::frag(&mut content, s("/c/b.frag"), s("/c/shaders/2d.vert"));
    assert_eq!(content.version(&s("/c/shaders/2d.vert")), Some(0));
    assert_eq!(first.select(&content), 0);
}

#[test]
fn shader_asks_for_one_reload_per_changed_source() {
    let mut content = Content::new();
    let mut shader = Shader::frag(&mut content, s("/c/a.frag"), s("/c/shaders/2d.vert"));
    assert_eq!(shader.select(&content), 0);
    content.note_write(&s("/c/a.frag"));
    assert_eq!(shader.select(&content), 1);
    assert_eq!(shader.select(&content), 0);
    content.note_write(&s("/c/shaders/2d.vert"));
    assert_eq!(shader.select(&content), 1);
    content.note_write(&s("/c/a.frag"));
    content.note_write(&s("/c/a.frag"));
    content.note_write(&s("/c/shaders/2d.vert"));
    assert_eq!(shader.select(&content), 2);
    assert_eq!(shader.select(&content), 0);
}

#[test]
fn shader_load_and_unload_track_the_native_objects() {
    let mut content = Content::new();
    let mut shader = Shader::frag(&mut content, s("/c/a.frag"), s("/c/shaders/2d.vert"));
    assert_eq!(shader.unload(), ShaderHandles { program: None, vert: None, frag: None });
    shader.load(3, 1, 2);
    assert_eq!(shader.program(), Some(3));
    let freed = shader.unload();
    assert_eq!(freed, ShaderHandles { program: Some(3), vert: Some(1), frag: Some(2) });
    assert_eq!(shader.program(), None);
    assert_eq!(shader.unload(), ShaderHandles { program: None, vert: None, frag: None });
}

#[test]
fn texture_follows_the_version_of_its_file() {
    let mut content = Content::new();
    let mut texture = Texture::new(&mut content, s("/c/player.png"));
    assert_eq!(content.version(&s("/c/player.png")), Some(0));
    assert_eq!(texture.native(), None);
    assert!(!texture.select(&content));
    content.note_write(&s("/c/player.png"));
    assert!(texture.select(&content));
    assert!(!texture.select(&content));
    texture.load(9);
    assert_eq!(texture.native(), Some(9));
    assert_eq!(texture.delete_texture(), Some(9));
    assert_eq!(texture.native(), None);
    assert_eq!(texture.delete_texture(), None);
}

#[test]
fn quad_goes_clockwise_from_the_top_left() {
    let renderer = Renderer::new();
    let quad = renderer.rect(&Rect::new(10, 20, 30, 40));
    assert_eq!(quad[0], Vertex { x: 10, y: 20, u: 0, v: 0 });
    assert_eq!(quad[1], Vertex { x: 40, y: 20, u: 1, v: 0 });
    assert_eq!(quad[2], Vertex { x: 40, y: 60, u: 1, v: 1 });
    assert_eq!(quad[3], Vertex { x: 10, y: 60, u: 0, v: 1 });
    assert_eq!(renderer.rect2(-5, -6, 5, 6), renderer.rect(&Rect::new(-5, -6, 5, 6)));
    assert_eq!(renderer.rect2(-5, -6, 5, 6)[2], Vertex { x: 0, y: 0, u: 1, v: 1 });
}

#[test]
fn opengl_driver_is_found_by_name() {
    let names = vec![s("software"), s("opengl"), s("opengles2"), s("opengl")];
    assert_eq!(find_sdl_gl_driver(&names), Some(1));
    assert_eq!(find_driver(&names, "opengles2"), Some(2));
    assert_eq!(find_driver(&names, "software"), Some(0));
    assert_eq!(find_driver(&names, "OpenGL"), None);
    assert_eq!(find_sdl_gl_driver(&vec![s("software"), s("opengles2")]), None);
    assert_eq!(find_sdl_gl_driver(&vec![]), None);
}
