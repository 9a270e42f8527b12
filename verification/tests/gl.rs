use azul_frame::gl::{
    FragmentShaderCompileError, GlApiVersion, GlShaderCompileError, GlShaderCreateError,
    GlShaderLinkError, IndexBufferFormat, Uniform, UniformType, VertexAttribute,
    VertexAttributeType, VertexLayout, VertexLayoutDescription, VertexShaderCompileError,
};
use azul_frame::shader::{
    cached_location, get_gl_status_error, layout_fits, plan_uniform_updates, to_whole_pixels,
    GlShader, UniformLocations, VertexArrayObject, VertexBuffer,
};
use azul_frame::geometry::LogicalSize;
use azul_frame::gl::Texture;
use azul_frame::gl_context;
use std::cmp::Ordering;
use std::collections::hash_map::DefaultHasher;
use std::hash::{Hash, Hasher};
use std::marker::PhantomData;
use std::rc::Rc;

fn attribute(
    name: &'static str,
    layout_location: Option<usize>,
    attribute_type: VertexAttributeType,
    item_count: usize,
) -> VertexAttribute {
    VertexAttribute { name, layout_location, attribute_type, item_count }
}

struct Vertex {
    _position: [u32; 2],
    _color: [u8; 4],
}

impl VertexLayoutDescription for Vertex {
    fn get_description() -> VertexLayout {
        VertexLayout {
            fields: vec![
                attribute("vAttrXY", None, VertexAttributeType::Float, 2),
                attribute("vColor", Some(3), VertexAttributeType::UnsignedByte, 4),
            ],
        }
    }
}

struct TooLarge;

impl VertexLayoutDescription for TooLarge {
    fn get_description() -> VertexLayout {
        VertexLayout { fields: vec![attribute("huge", None, VertexAttributeType::Double, usize::MAX)] }
    }
}

#[test]
fn attribute_types_have_the_ids_and_sizes_of_opengl() {
    assert_eq!(VertexAttributeType::Float.get_gl_id(), 0x1406);
    assert_eq!(VertexAttributeType::Double.get_gl_id(), 0x140A);
    assert_eq!(VertexAttributeType::UnsignedByte.get_gl_id(), 0x1401);
    assert_eq!(VertexAttributeType::UnsignedShort.get_gl_id(), 0x1403);
    assert_eq!(VertexAttributeType::UnsignedInt.get_gl_id(), 0x1405);
    assert_eq!(VertexAttributeType::Float.get_gl_id(), gleam::gl::FLOAT);

    assert_eq!(VertexAttributeType::Float.get_mem_size(), 4);
    assert_eq!(VertexAttributeType::Double.get_mem_size(), 8);
    assert_eq!(VertexAttributeType::UnsignedByte.get_mem_size(), 1);
    assert_eq!(VertexAttributeType::UnsignedShort.get_mem_size(), 2);
    assert_eq!(VertexAttributeType::UnsignedInt.get_mem_size(), 4);
}

#[test]
fn the_constants_are_those_of_the_driver() {
    assert_eq!(gl_context::FLOAT, gleam::gl::FLOAT);
    assert_eq!(gl_context::DOUBLE, gleam::gl::DOUBLE);
    assert_eq!(gl_context::UNSIGNED_BYTE, gleam::gl::UNSIGNED_BYTE);
    assert_eq!(gl_context::UNSIGNED_SHORT, gleam::gl::UNSIGNED_SHORT);
    assert_eq!(gl_context::UNSIGNED_INT, gleam::gl::UNSIGNED_INT);
    assert_eq!(gl_context::POINTS, gleam::gl::POINTS);
    assert_eq!(gl_context::LINES, gleam::gl::LINES);
    assert_eq!(gl_context::LINE_STRIP, gleam::gl::LINE_STRIP);
    assert_eq!(gl_context::TRIANGLES, gleam::gl::TRIANGLES);
    assert_eq!(gl_context::TRIANGLE_STRIP, gleam::gl::TRIANGLE_STRIP);
    assert_eq!(gl_context::TRIANGLE_FAN, gleam::gl::TRIANGLE_FAN);
    assert_eq!(gl_context::TRUE, gleam::gl::TRUE);
    assert_eq!(gl_context::FALSE, gleam::gl::FALSE);
    assert_eq!(gl_context::FRAMEBUFFER, gleam::gl::FRAMEBUFFER);
    assert_eq!(gl_context::TEXTURE_2D, gleam::gl::TEXTURE_2D);
    assert_eq!(gl_context::RGBA, gleam::gl::RGBA);
    assert_eq!(gl_context::TEXTURE_MAG_FILTER, gleam::gl::TEXTURE_MAG_FILTER);
    assert_eq!(gl_context::TEXTURE_MIN_FILTER, gleam::gl::TEXTURE_MIN_FILTER);
    assert_eq!(gl_context::NEAREST, gleam::gl::NEAREST);
    assert_eq!(gl_context::TEXTURE_WRAP_S, gleam::gl::TEXTURE_WRAP_S);
    assert_eq!(gl_context::TEXTURE_WRAP_T, gleam::gl::TEXTURE_WRAP_T);
    assert_eq!(gl_context::CLAMP_TO_EDGE, gleam::gl::CLAMP_TO_EDGE);
    assert_eq!(gl_context::RENDERBUFFER, gleam::gl::RENDERBUFFER);
    assert_eq!(gl_context::DEPTH_COMPONENT, gleam::gl::DEPTH_COMPONENT);
    assert_eq!(gl_context::DEPTH_ATTACHMENT, gleam::gl::DEPTH_ATTACHMENT);
    assert_eq!(gl_context::COLOR_ATTACHMENT0, gleam::gl::COLOR_ATTACHMENT0);
    assert_eq!(gl_context::MULTISAMPLE, gleam::gl::MULTISAMPLE);
    assert_eq!(gl_context::COLOR_BUFFER_BIT, gleam::gl::COLOR_BUFFER_BIT);
    assert_eq!(gl_context::DEPTH_BUFFER_BIT, gleam::gl::DEPTH_BUFFER_BIT);
    assert_eq!(gl_context::ELEMENT_ARRAY_BUFFER, gleam::gl::ELEMENT_ARRAY_BUFFER);
    assert_eq!(gl_context::ARRAY_BUFFER, gleam::gl::ARRAY_BUFFER);
    assert_eq!(gl_context::VERTEX_SHADER, gleam::gl::VERTEX_SHADER);
    assert_eq!(gl_context::FRAGMENT_SHADER, gleam::gl::FRAGMENT_SHADER);
    assert_eq!(gl_context::STATIC_DRAW, gleam::gl::STATIC_DRAW);
    assert_eq!(gl_context::FRAMEBUFFER_COMPLETE, gleam::gl::FRAMEBUFFER_COMPLETE);
    assert_eq!(gl_context::FRAMEBUFFER_SRGB, gleam::gl::FRAMEBUFFER_SRGB);
}

#[test]
fn index_buffer_formats_have_the_ids_of_opengl() {
    assert_eq!(IndexBufferFormat::Points.get_gl_id(), 0);
    assert_eq!(IndexBufferFormat::Lines.get_gl_id(), 1);
    assert_eq!(IndexBufferFormat::LineStrip.get_gl_id(), 3);
    assert_eq!(IndexBufferFormat::Triangles.get_gl_id(), 4);
    assert_eq!(IndexBufferFormat::TriangleStrip.get_gl_id(), 5);
    assert_eq!(IndexBufferFormat::TriangleFan.get_gl_id(), 6);
    assert_eq!(IndexBufferFormat::TriangleFan.get_gl_id(), gleam::gl::TRIANGLE_FAN);
}

#[test]
fn strides_and_offsets_add_up() {
    assert_eq!(attribute("a", None, VertexAttributeType::Float, 3).get_stride(), 12);
    assert_eq!(attribute("a", None, VertexAttributeType::Double, 0).get_stride(), 0);
    let layout = VertexLayout {
        fields: vec![
            attribute("a", None, VertexAttributeType::Float, 3),
            attribute("b", None, VertexAttributeType::UnsignedByte, 4),
            attribute("c", None, VertexAttributeType::UnsignedShort, 1),
        ],
    };
    assert!(layout_fits(&layout));
    assert_eq!(layout.stride_between_vertices(), 18);
    assert_eq!(layout.attribute_offsets(), vec![0, 12, 16]);
    let empty = VertexLayout { fields: Vec::new() };
    assert_eq!(empty.stride_between_vertices(), 0);
    assert_eq!(empty.attribute_offsets(), Vec::<usize>::new());
    assert!(!layout_fits(&TooLarge::get_description()));
    let sum_too_large = VertexLayout {
        fields: vec![
            attribute("a", None, VertexAttributeType::UnsignedByte, usize::MAX),
            attribute("b", None, VertexAttributeType::UnsignedByte, 1),
        ],
    };
    assert!(!layout_fits(&sum_too_large));
}

#[test]
fn the_version_is_taken_from_the_two_numbers() {
    assert_eq!(GlApiVersion::get(3, 2), GlApiVersion::Gl { major: 3, minor: 2 });
    assert_eq!(GlApiVersion::get(0, 0), GlApiVersion::Gl { major: 0, minor: 0 });
}

#[test]
fn a_status_other_than_true_is_an_error() {
    assert_eq!(get_gl_status_error(1), None);
    assert_eq!(get_gl_status_error(0), Some(0));
    assert_eq!(get_gl_status_error(-7), Some(-7));
}

#[test]
fn whole_pixels_cut_the_fraction_off() {
    assert_eq!(to_whole_pixels(0), 0);
    assert_eq!(to_whole_pixels(999), 0);
    assert_eq!(to_whole_pixels(1_000), 1);
    assert_eq!(to_whole_pixels(640_999), 640);
    assert_eq!(to_whole_pixels(-1_999), -1);
    assert_eq!(to_whole_pixels(i64::MAX), i32::MAX);
    assert_eq!(to_whole_pixels(i64::MIN), i32::MIN);
}

fn layer(uniforms: Vec<Uniform>) -> (Rc<VertexBuffer<Vertex>>, Vec<Uniform>) {
    let buffer = VertexBuffer {
        vertex_buffer_id: 1,
        vertex_buffer_len: 0,
        vao: VertexArrayObject { vertex_layout: Vertex::get_description(), vao_id: 2 },
        vertex_buffer_type: PhantomData,
        index_buffer_id: 3,
        index_buffer_len: 0,
        index_buffer_format: IndexBufferFormat::Triangles,
    };
    (Rc::new(buffer), uniforms)
}

fn hash_of<T: Hash>(value: &T) -> u64 {
    let mut hasher = DefaultHasher::new();
    value.hash(&mut hasher);
    hasher.finish()
}

#[test]
fn gpu_objects_are_told_apart_by_their_handle() {
    let small = Texture { texture_id: 7, size: LogicalSize::new(1, 1) };
    let large = Texture { texture_id: 7, size: LogicalSize::new(900, 900) };
    let other = Texture { texture_id: 8, size: LogicalSize::new(1, 1) };
    assert!(small == large);
    assert!(small != other);
    assert_eq!(hash_of(&small), hash_of(&large));
    assert_eq!(hash_of(&small), hash_of(&7u32));
    assert_eq!(small.partial_cmp(&large), Some(Ordering::Equal));
    assert_eq!(small.partial_cmp(&other), Some(Ordering::Less));
    assert_eq!(other.partial_cmp(&small), Some(Ordering::Greater));
    assert!(small < other);

    assert!(GlShader { program_id: 3 } == GlShader { program_id: 3 });
    assert!(GlShader { program_id: 3 } != GlShader { program_id: 4 });
    assert!(GlShader { program_id: 3 } < GlShader { program_id: 4 });
    assert_eq!(hash_of(&GlShader { program_id: 3 }), hash_of(&3u32));

    let (first, _) = layer(Vec::new());
    let (second, _) = layer(Vec::new());
    assert!(*first == *second);
    assert_eq!(hash_of(&*first), hash_of(&1u32));
    assert_eq!(first.partial_cmp(&second), Some(Ordering::Equal));
}

#[test]
fn driver_errors_are_told_apart_by_their_status() {
    let a = VertexShaderCompileError { error_id: 2, info_log: "one".to_string() };
    let b = VertexShaderCompileError { error_id: 2, info_log: "two".to_string() };
    let c = VertexShaderCompileError { error_id: -2, info_log: "one".to_string() };
    assert!(a == b);
    assert!(a != c);
    assert!(c < a);
    assert_eq!(hash_of(&a), hash_of(&2i32));
    assert!(
        GlShaderCreateError::Compile(GlShaderCompileError::Vertex(a.clone()))
            == GlShaderCreateError::Compile(GlShaderCompileError::Vertex(b))
    );
    assert!(
        GlShaderCreateError::Compile(GlShaderCompileError::Vertex(a))
            != GlShaderCreateError::Compile(GlShaderCompileError::Fragment(
                FragmentShaderCompileError { error_id: 2, info_log: "one".to_string() }
            ))
    );
    assert!(
        GlShaderLinkError { error_id: 1, info_log: String::new() }
            == GlShaderLinkError { error_id: 1, info_log: "x".to_string() }
    );
    assert_eq!(
        GlShaderLinkError { error_id: 1, info_log: String::new() }
            .partial_cmp(&GlShaderLinkError { error_id: 0, info_log: String::new() }),
        Some(Ordering::Greater)
    );
}

#[test]
fn errors_and_objects_have_a_text() {
    let vertex = VertexShaderCompileError { error_id: 0, info_log: "bad vertex".to_string() };
    let fragment = FragmentShaderCompileError { error_id: -12, info_log: "bad fragment".to_string() };
    let link = GlShaderLinkError { error_id: 2147483647, info_log: String::new() };
    assert_eq!(vertex.to_string(), "E0: bad vertex");
    assert_eq!(fragment.to_string(), "E-12: bad fragment");
    assert_eq!(link.to_string(), "E2147483647: ");
    assert_eq!(
        GlShaderLinkError { error_id: i32::MIN, info_log: "x".to_string() }.to_string(),
        "E-2147483648: x"
    );
    assert_eq!(
        GlShaderCompileError::Vertex(vertex.clone()).to_string(),
        "Failed to compile vertex shader: E0: bad vertex"
    );
    assert_eq!(
        GlShaderCreateError::Compile(GlShaderCompileError::Fragment(fragment)).to_string(),
        "Shader compile error: Failed to compile fragment shader: E-12: bad fragment"
    );
    assert_eq!(GlShaderCreateError::Link(link).to_string(), "Shader linking error: E2147483647: ");
    assert_eq!(
        GlShaderCreateError::NoShaderCompiler.to_string(),
        "OpenGL implementation doesn't include a shader compiler"
    );
    assert_eq!(GlShader { program_id: 4000000000 }.to_string(), "GlShader { program_id: 4000000000 }");
    let (buffer, _) = layer(Vec::new());
    assert_eq!(buffer.to_string(), "VertexBuffer { buffer: 1 (length: 0) })");
}

#[test]
fn cached_locations_are_found_by_name() {
    let mut locations = UniformLocations::new();
    locations.insert("color".to_string(), 5);
    locations.insert("zoom".to_string(), 4);
    assert_eq!(cached_location(&locations, &"zoom".to_string()), Some(4));
    assert_eq!(cached_location(&locations, &"color".to_string()), Some(5));
    assert_eq!(cached_location(&locations, &"none".to_string()), None);
    assert_eq!(cached_location(&UniformLocations::new(), &"zoom".to_string()), None);
}

#[test]
fn a_uniform_is_set_only_when_its_slot_changes() {
    let a = Uniform::new("a", UniformType::Float(10));
    let b = Uniform::new("b", UniformType::IntVec2([1, 2]));
    let b_changed = Uniform::new("b", UniformType::IntVec2([1, 3]));
    let c = Uniform::new("c", UniformType::Matrix2 { transpose: false, matrix: [1, 2, 3, 4] });
    let buffers = vec![
        layer(vec![a.clone(), b.clone()]),
        layer(vec![a.clone(), b_changed.clone(), c.clone()]),
        layer(vec![a.clone()]),
        layer(Vec::new()),
        layer(vec![b.clone(), b_changed.clone(), c.clone()]),
    ];
    assert_eq!(
        plan_uniform_updates(&buffers),
        vec![vec![0, 1], vec![1, 2], vec![], vec![], vec![0]]
    );
    assert_eq!(plan_uniform_updates(&Vec::<(Rc<VertexBuffer<Vertex>>, Vec<Uniform>)>::new()), Vec::<Vec<usize>>::new());
}

#[test]
fn uniforms_are_compared_bit_for_bit() {
    assert!(UniformType::Float(7).is_same(&UniformType::Float(7)));
    assert!(!UniformType::Float(7).is_same(&UniformType::Float(8)));
    assert!(!UniformType::Float(7).is_same(&UniformType::UnsignedInt(7)));
    assert!(UniformType::FloatVec3([1, 2, 3]).is_same(&UniformType::FloatVec3([1, 2, 3])));
    assert!(!UniformType::FloatVec3([1, 2, 3]).is_same(&UniformType::FloatVec3([1, 2, 4])));
    assert!(!UniformType::FloatVec4([1, 2, 3, 4]).is_same(&UniformType::UnsignedIntVec4([1, 2, 3, 4])));
    assert!(UniformType::IntVec4([-1, 2, 3, 4]).is_same(&UniformType::IntVec4([-1, 2, 3, 4])));
    let m = [0u32; 16];
    assert!(UniformType::Matrix4 { transpose: true, matrix: m }
        .is_same(&UniformType::Matrix4 { transpose: true, matrix: m }));
    assert!(!UniformType::Matrix4 { transpose: true, matrix: m }
        .is_same(&UniformType::Matrix4 { transpose: false, matrix: m }));
    let mut other = [0u32; 9];
    other[8] = 1;
    assert!(!UniformType::Matrix3 { transpose: true, matrix: [0u32; 9] }
        .is_same(&UniformType::Matrix3 { transpose: true, matrix: other }));
}

