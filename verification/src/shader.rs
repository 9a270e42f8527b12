//! GPU objects that are made through the driver: shader programs, vertex
//! buffers and the textures that are drawn into.
//!
//! An object holds the handles that the driver gave out, nothing else.
//! Whoever makes an object also deletes it, with the object's `delete`.
//!
//! The driver's queries for its own state are not made here. Where a
//! function needs an answer of the driver, it takes the answer as an
//! argument.

use vstd::prelude::*;
use vstd::hash_map::StringHashMap;
use std::marker::PhantomData;
use std::rc::Rc;
use crate::geometry::LogicalSize;
use crate::gl::{
    total_stride, FragmentShaderCompileError, GLint, GLuint, GlShaderCompileError,
    GlShaderCreateError, GlShaderLinkError, IndexBufferFormat, Texture, Uniform, UniformType,
    VertexAttribute, VertexLayout, VertexLayoutDescription, VertexShaderCompileError,
};
use crate::gl_context;
use crate::text::has_nul;
use crate::gl_context::{
    GlCall, GlDriver, ARRAY_BUFFER, CLAMP_TO_EDGE, COLOR_ATTACHMENT0, DEPTH_ATTACHMENT,
    DEPTH_COMPONENT, ELEMENT_ARRAY_BUFFER, FRAGMENT_SHADER, FRAMEBUFFER, FRAMEBUFFER_COMPLETE,
    FRAMEBUFFER_SRGB,
    MULTISAMPLE, NEAREST, RENDERBUFFER, RGBA, STATIC_DRAW, TEXTURE_2D, TEXTURE_MAG_FILTER,
    TEXTURE_MIN_FILTER, TEXTURE_WRAP_S, TEXTURE_WRAP_T, UNSIGNED_BYTE, UNSIGNED_INT, VERTEX_SHADER,
};

verus! {

/// A linked shader program.
#[derive(Debug)]
pub struct GlShader {
    pub program_id: GLuint,
}

/// A vertex array object and the layout that it was set up with.
#[derive(Debug)]
pub struct VertexArrayObject {
    pub vertex_layout: VertexLayout,
    pub vao_id: GLuint,
}

/// A buffer of vertices of type `T` on the GPU, with its index buffer.
#[derive(Debug)]
pub struct VertexBuffer<T: VertexLayoutDescription> {
    pub vertex_buffer_id: GLuint,
    pub vertex_buffer_len: usize,
    pub vao: VertexArrayObject,
    pub vertex_buffer_type: PhantomData<T>,
    // The vertex buffer and the index buffer are made together, because of the VAO
    pub index_buffer_id: GLuint,
    pub index_buffer_len: usize,
    pub index_buffer_format: IndexBufferFormat,
}

impl Texture {
    /// Deletes the texture on the GPU.
    pub fn delete(self, driver: &mut GlDriver)
        ensures
            final(driver).context() == old(driver).context(),
            final(driver).calls() == old(driver).calls().push(
                GlCall::DeleteTextures { textures: seq![self.texture_id] },
            ),
    {
        let textures = vec![self.texture_id];
        assert(textures@ =~= seq![self.texture_id]);
        driver.delete_textures(&textures);
    }
}

impl VertexArrayObject {
    /// Deletes the vertex array object on the GPU.
    pub fn delete(self, driver: &mut GlDriver)
        ensures
            final(driver).context() == old(driver).context(),
            final(driver).calls() == old(driver).calls().push(
                GlCall::DeleteVertexArrays { vertex_arrays: seq![self.vao_id] },
            ),
    {
        let vertex_arrays = vec![self.vao_id];
        assert(vertex_arrays@ =~= seq![self.vao_id]);
        driver.delete_vertex_arrays(&vertex_arrays);
    }
}

/// The location of `field` where the driver is not asked for it: its
/// layout location if it has one, and -1, the location of no attribute,
/// if its name holds a NUL character and so cannot be the name of an
/// attribute.
pub open spec fn known_location(field: VertexAttribute) -> Option<i32> {
    match field.layout_location {
        Some(ll) => Some(ll as i32),
        None => if field.name@.contains('\0') {
            Some(-1i32)
        } else {
            None
        },
    }
}

/// Whether `locations` holds a location for each of `fields`, and for a
/// field whose location is known without the driver that very location.
pub open spec fn are_locations_of(locations: Seq<i32>, fields: Seq<VertexAttribute>) -> bool {
    &&& locations.len() == fields.len()
    &&& forall|i: int|
        0 <= i < fields.len() ==> (known_location(#[trigger] fields[i]) matches Some(known)
            ==> locations[i] == known)
}

/// The call that asks the driver for the location of `field`; none if the
/// location is known without the driver.
pub open spec fn lookup_calls(field: VertexAttribute, program: GLuint, location: i32) -> Seq<GlCall> {
    match known_location(field) {
        Some(_) => Seq::empty(),
        None => seq![GlCall::GetAttribLocation { program, name: field.name@, location }],
    }
}

/// The calls that describe the attribute `index` of `fields` to the
/// driver and enable it: the attribute lies behind the attributes before
/// it, and from one vertex to the next it is the size of all attributes.
pub open spec fn attribute_bind_calls(
    fields: Seq<VertexAttribute>,
    program: GLuint,
    location: i32,
    index: int,
) -> Seq<GlCall> {
    lookup_calls(fields[index], program, location) + seq![
        GlCall::VertexAttribPointer {
            index: location as u32,
            size: fields[index].item_count as i32,
            type_: fields[index].attribute_type.gl_id(),
            normalized: false,
            stride: (total_stride(fields) as usize) as i32,
            offset: (total_stride(fields.take(index)) as usize) as u32,
        },
        GlCall::EnableVertexAttribArray { index: location as u32 },
    ]
}

/// The calls that describe the first `count` attributes of `fields`.
pub open spec fn bind_calls(
    fields: Seq<VertexAttribute>,
    program: GLuint,
    locations: Seq<i32>,
    count: nat,
) -> Seq<GlCall>
    decreases count,
{
    if count == 0 {
        Seq::empty()
    } else {
        bind_calls(fields, program, locations, (count - 1) as nat) + attribute_bind_calls(
            fields,
            program,
            locations[count - 1],
            count - 1,
        )
    }
}

/// The calls that disable the first `count` attributes of `fields`.
pub open spec fn unbind_calls(
    fields: Seq<VertexAttribute>,
    program: GLuint,
    locations: Seq<i32>,
    count: nat,
) -> Seq<GlCall>
    decreases count,
{
    if count == 0 {
        Seq::empty()
    } else {
        unbind_calls(fields, program, locations, (count - 1) as nat) + lookup_calls(
            fields[count - 1],
            program,
            locations[count - 1],
        ).push(GlCall::DisableVertexAttribArray { index: locations[count - 1] as u32 })
    }
}

impl VertexLayout {
    /// The location of the attribute `index` in the program of `shader`:
    /// its layout location if it has one, else what the driver reports
    /// for its name. The driver is not asked for a name that holds a NUL
    /// character; such a name has the location -1.
    fn attribute_location(&self, driver: &mut GlDriver, shader: &GlShader, index: usize) -> (location:
        i32)
        requires
            index < self.fields@.len(),
        ensures
            known_location(self.fields@[index as int]) matches Some(known) ==> location == known,
            final(driver).context() == old(driver).context(),
            final(driver).calls() == old(driver).calls() + lookup_calls(
                self.fields@[index as int],
                shader.program_id,
                location,
            ),
    {
        let vertex_attribute = &self.fields[index];
        match vertex_attribute.layout_location {
            Some(ll) => {
                assert(driver.calls() + Seq::<GlCall>::empty() =~= driver.calls());
                ll as i32
            },
            None => {
                if has_nul(vertex_attribute.name) {
                    assert(driver.calls() + Seq::<GlCall>::empty() =~= driver.calls());
                    return -1;
                }
                let location = driver.get_attrib_location(shader.program_id, vertex_attribute.name);
                assert(old(driver).calls().push(
                    GlCall::GetAttribLocation {
                        program: shader.program_id,
                        name: vertex_attribute.name@,
                        location,
                    },
                ) =~= old(driver).calls() + lookup_calls(
                    self.fields@[index as int],
                    shader.program_id,
                    location,
                ));
                location
            },
        }
    }

    /// Submits the vertex buffer description to OpenGL: each attribute at
    /// its offset in a vertex, all of them enabled. An attribute without a
    /// layout location is looked up by its name, unless the name holds a
    /// NUL character: no program has an attribute of such a name, so it is
    /// taken to have the location -1 without asking.
    pub fn bind(&self, driver: &mut GlDriver, shader: &GlShader)
        requires
            self.fits(),
        ensures
            final(driver).context() == old(driver).context(),
            exists|locations: Seq<i32>|
                are_locations_of(locations, self.fields@) && final(driver).calls()
                    == old(driver).calls() + bind_calls(
                    self.fields@,
                    shader.program_id,
                    locations,
                    self.fields@.len(),
                ),
    {
        let vertices_are_normalized = false;

        let stride_between_vertices: usize = self.stride_between_vertices();
        let offsets = self.attribute_offsets();
        let ghost mut locations: Seq<i32> = Seq::empty();
        assert(driver.calls() + Seq::<GlCall>::empty() =~= driver.calls());

        let mut i: usize = 0;
        while i < self.fields.len()
            invariant
                i <= self.fields.len(),
                self.fits(),
                !vertices_are_normalized,
                stride_between_vertices == total_stride(self.fields@),
                offsets@.len() == self.fields@.len(),
                forall|k: int|
                    0 <= k < offsets@.len() ==> #[trigger] offsets@[k] == total_stride(
                        self.fields@.take(k),
                    ),
                driver.context() == old(driver).context(),
                locations.len() == i,
                forall|k: int|
                    0 <= k < i ==> (known_location(#[trigger] self.fields@[k]) matches Some(known)
                        ==> locations[k] == known),
                driver.calls() == old(driver).calls() + bind_calls(
                    self.fields@,
                    shader.program_id,
                    locations,
                    i as nat,
                ),
            decreases self.fields.len() - i,
        {
            let vertex_attribute = &self.fields[i];
            let ghost before = driver.calls();
            let attribute_location = self.attribute_location(driver, shader, i);
            let ghost looked_up = driver.calls();

            driver.vertex_attrib_pointer(
                attribute_location as u32,
                vertex_attribute.item_count as i32,
                vertex_attribute.attribute_type.get_gl_id(),
                vertices_are_normalized,
                stride_between_vertices as i32,
                offsets[i] as u32,
            );
            driver.enable_vertex_attrib_array(attribute_location as u32);
            proof {
                let earlier = locations;
                locations = locations.push(attribute_location);
                lemma_bind_calls_ignore_later(
                    self.fields@,
                    shader.program_id,
                    earlier,
                    locations,
                    i as nat,
                );
                assert(looked_up == before + lookup_calls(
                    self.fields@[i as int],
                    shader.program_id,
                    attribute_location,
                ));
                assert(total_stride(self.fields@) as usize == stride_between_vertices);
                assert(total_stride(self.fields@.take(i as int)) as usize == offsets@[i as int]);
                assert(driver.calls() == looked_up.push(
                    GlCall::VertexAttribPointer {
                        index: attribute_location as u32,
                        size: self.fields@[i as int].item_count as i32,
                        type_: self.fields@[i as int].attribute_type.gl_id(),
                        normalized: false,
                        stride: stride_between_vertices as i32,
                        offset: offsets@[i as int] as u32,
                    },
                ).push(GlCall::EnableVertexAttribArray { index: attribute_location as u32 }));
                assert(driver.calls() =~= before + attribute_bind_calls(
                    self.fields@,
                    shader.program_id,
                    attribute_location,
                    i as int,
                ));
                assert(driver.calls() =~= old(driver).calls() + bind_calls(
                    self.fields@,
                    shader.program_id,
                    locations,
                    (i + 1) as nat,
                ));
            }
            i = i + 1;
        }
        proof {
            assert(are_locations_of(locations, self.fields@));
        }
    }

    /// Unsets the vertex buffer description: disables every attribute.
    pub fn unbind(&self, driver: &mut GlDriver, shader: &GlShader)
        ensures
            final(driver).context() == old(driver).context(),
            exists|locations: Seq<i32>|
                are_locations_of(locations, self.fields@) && final(driver).calls()
                    == old(driver).calls() + unbind_calls(
                    self.fields@,
                    shader.program_id,
                    locations,
                    self.fields@.len(),
                ),
    {
        let ghost mut locations: Seq<i32> = Seq::empty();
        assert(driver.calls() + Seq::<GlCall>::empty() =~= driver.calls());
        let mut i: usize = 0;
        while i < self.fields.len()
            invariant
                i <= self.fields.len(),
                driver.context() == old(driver).context(),
                locations.len() == i,
                forall|k: int|
                    0 <= k < i ==> (known_location(#[trigger] self.fields@[k]) matches Some(known)
                        ==> locations[k] == known),
                driver.calls() == old(driver).calls() + unbind_calls(
                    self.fields@,
                    shader.program_id,
                    locations,
                    i as nat,
                ),
            decreases self.fields.len() - i,
        {
            let ghost before = driver.calls();
            let attribute_location = self.attribute_location(driver, shader, i);
            driver.disable_vertex_attrib_array(attribute_location as u32);
            proof {
                let earlier = locations;
                locations = locations.push(attribute_location);
                lemma_unbind_calls_ignore_later(
                    self.fields@,
                    shader.program_id,
                    earlier,
                    locations,
                    i as nat,
                );
                assert(driver.calls() =~= old(driver).calls() + unbind_calls(
                    self.fields@,
                    shader.program_id,
                    locations,
                    (i + 1) as nat,
                ));
            }
            i = i + 1;
        }
        proof {
            assert(are_locations_of(locations, self.fields@));
        }
    }
}

/// The calls for the first `count` attributes depend on the first `count`
/// locations only.
proof fn lemma_bind_calls_ignore_later(
    fields: Seq<VertexAttribute>,
    program: GLuint,
    a: Seq<i32>,
    b: Seq<i32>,
    count: nat,
)
    requires
        count <= a.len(),
        count <= b.len(),
        forall|k: int| 0 <= k < count ==> a[k] == b[k],
    ensures
        bind_calls(fields, program, a, count) == bind_calls(fields, program, b, count),
    decreases count,
{
    if count > 0 {
        lemma_bind_calls_ignore_later(fields, program, a, b, (count - 1) as nat);
    }
}

/// The calls for the first `count` attributes depend on the first `count`
/// locations only.
proof fn lemma_unbind_calls_ignore_later(
    fields: Seq<VertexAttribute>,
    program: GLuint,
    a: Seq<i32>,
    b: Seq<i32>,
    count: nat,
)
    requires
        count <= a.len(),
        count <= b.len(),
        forall|k: int| 0 <= k < count ==> a[k] == b[k],
    ensures
        unbind_calls(fields, program, a, count) == unbind_calls(fields, program, b, count),
    decreases count,
{
    if count > 0 {
        lemma_unbind_calls_ignore_later(fields, program, a, b, (count - 1) as nat);
    }
}

/// The buffer and vertex array bindings of a context at one moment, as
/// the driver reported them.
#[derive(Debug, Clone, Copy, PartialEq, Eq, Structural, Hash)]
pub struct SavedBufferBindings {
    pub vertex_array: GLint,
    pub vertex_buffer: GLint,
    pub index_buffer: GLint,
}

/// The calls that make the objects of a vertex buffer and upload
/// `vertex_count` vertices and `index_count` indices.
pub open spec fn upload_calls(
    vao_id: GLuint,
    vertex_buffer_id: GLuint,
    index_buffer_id: GLuint,
    vertex_count: nat,
    index_count: nat,
) -> Seq<GlCall> {
    seq![
        GlCall::GenVertexArrays { n: 1, name: vao_id },
        GlCall::GenBuffers { n: 1, name: vertex_buffer_id },
        GlCall::GenBuffers { n: 1, name: index_buffer_id },
        GlCall::BindVertexArray { vao: vao_id },
        GlCall::BindBuffer { target: ARRAY_BUFFER, buffer: vertex_buffer_id },
        GlCall::BufferData { target: ARRAY_BUFFER, count: vertex_count, usage: STATIC_DRAW },
        GlCall::BindBuffer { target: ELEMENT_ARRAY_BUFFER, buffer: index_buffer_id },
        GlCall::BufferData { target: ELEMENT_ARRAY_BUFFER, count: index_count, usage: STATIC_DRAW },
    ]
}

/// The calls that bind what `saved` holds.
pub open spec fn restore_bindings_calls(saved: SavedBufferBindings) -> Seq<GlCall> {
    seq![
        GlCall::BindBuffer { target: ARRAY_BUFFER, buffer: saved.vertex_buffer as u32 },
        GlCall::BindBuffer { target: ELEMENT_ARRAY_BUFFER, buffer: saved.index_buffer as u32 },
        GlCall::BindVertexArray { vao: saved.vertex_array as u32 },
    ]
}

impl<T: VertexLayoutDescription> VertexBuffer<T> {
    /// Uploads `vertices` and `indices` to the GPU and describes the
    /// layout of a vertex to the driver. `saved` holds the bindings that
    /// the context had before; they are bound again at the end.
    ///
    /// The layout is the one that `T::get_description` gives, and the
    /// buffer is made whenever a vertex of that layout is no larger than a
    /// `usize` counts. Only a layout that is larger makes no buffer, and
    /// then no call.
    pub fn new(
        driver: &mut GlDriver,
        shader: &GlShader,
        vertices: &[T],
        indices: &[u32],
        index_buffer_format: IndexBufferFormat,
        saved: SavedBufferBindings,
    ) -> (buffer: Option<Self>)
        ensures
            final(driver).context() == old(driver).context(),
            buffer is None ==> {
                &&& final(driver).calls() == old(driver).calls()
                &&& exists|layout: VertexLayout|
                    call_ensures(T::get_description, (), layout) && !layout.fits()
            },
            buffer matches Some(b) ==> {
                &&& call_ensures(T::get_description, (), b.vao.vertex_layout)
                &&& b.vertex_buffer_len == vertices@.len()
                &&& b.index_buffer_len == indices@.len()
                &&& b.index_buffer_format == index_buffer_format
                &&& b.vao.vertex_layout.fits()
                &&& exists|locations: Seq<i32>|
                    are_locations_of(locations, b.vao.vertex_layout.fields@) && final(
                        driver
                    ).calls() == old(driver).calls() + upload_calls(
                        b.vao.vao_id,
                        b.vertex_buffer_id,
                        b.index_buffer_id,
                        vertices@.len(),
                        indices@.len(),
                    ) + bind_calls(
                        b.vao.vertex_layout.fields@,
                        shader.program_id,
                        locations,
                        b.vao.vertex_layout.fields@.len(),
                    ) + restore_bindings_calls(saved)
            },
    {
        let vertex_description = T::get_description();
        if !layout_fits(&vertex_description) {
            return None;
        }
        let vertex_array_object = driver.gen_vertex_arrays(1);
        let vertex_buffer_id = driver.gen_buffers(1);
        let index_buffer_id = driver.gen_buffers(1);

        driver.bind_vertex_array(vertex_array_object);

        // Upload vertex data to GPU
        driver.bind_buffer(gl_context::array_buffer(), vertex_buffer_id);
        driver.buffer_data(gl_context::array_buffer(), vertices, gl_context::static_draw());

        // Generate the index buffer + upload data
        driver.bind_buffer(gl_context::element_array_buffer(), index_buffer_id);
        driver.buffer_data(gl_context::element_array_buffer(), indices, gl_context::static_draw());
        let ghost uploaded = driver.calls();
        assert(uploaded =~= old(driver).calls() + upload_calls(
            vertex_array_object,
            vertex_buffer_id,
            index_buffer_id,
            vertices@.len(),
            indices@.len(),
        ));

        vertex_description.bind(driver, shader);
        let ghost bound = driver.calls();
        let ghost locations = choose|locations: Seq<i32>|
            are_locations_of(locations, vertex_description.fields@) && bound == uploaded
                + bind_calls(
                vertex_description.fields@,
                shader.program_id,
                locations,
                vertex_description.fields@.len(),
            );

        // Reset the OpenGL state
        driver.bind_buffer(gl_context::array_buffer(), saved.vertex_buffer as u32);
        driver.bind_buffer(gl_context::element_array_buffer(), saved.index_buffer as u32);
        driver.bind_vertex_array(saved.vertex_array as u32);
        assert(driver.calls() =~= bound + restore_bindings_calls(saved));
        assert(driver.calls() == old(driver).calls() + upload_calls(
            vertex_array_object,
            vertex_buffer_id,
            index_buffer_id,
            vertices@.len(),
            indices@.len(),
        ) + bind_calls(
            vertex_description.fields@,
            shader.program_id,
            locations,
            vertex_description.fields@.len(),
        ) + restore_bindings_calls(saved));

        let buffer = VertexBuffer {
            vertex_buffer_id,
            vertex_buffer_len: vertices.len(),
            vao: VertexArrayObject { vertex_layout: vertex_description, vao_id: vertex_array_object },
            vertex_buffer_type: PhantomData,
            index_buffer_id,
            index_buffer_len: indices.len(),
            index_buffer_format,
        };
        assert(buffer.vertex_buffer_len == vertices@.len());
        assert(buffer.vao.vertex_layout.fits());
        assert(are_locations_of(locations, buffer.vao.vertex_layout.fields@));
        assert(driver.calls() == old(driver).calls() + upload_calls(
            buffer.vao.vao_id,
            buffer.vertex_buffer_id,
            buffer.index_buffer_id,
            vertices@.len(),
            indices@.len(),
        ) + bind_calls(
            buffer.vao.vertex_layout.fields@,
            shader.program_id,
            locations,
            buffer.vao.vertex_layout.fields@.len(),
        ) + restore_bindings_calls(saved));
        Some(buffer)
    }

    /// The buffer as text.
    pub fn to_string(&self) -> (text: String)
        ensures
            text@ == "VertexBuffer { buffer: "@ + crate::text::decimal(
                self.vertex_buffer_id as int,
            ) + " (length: "@ + crate::text::decimal(self.vertex_buffer_len as int) + ") })"@,
    {
        let mut text = String::from_str("VertexBuffer { buffer: ");
        text.append(crate::text::u32_to_string(self.vertex_buffer_id).as_str());
        text.append(" (length: ");
        text.append(crate::text::usize_to_string(self.vertex_buffer_len).as_str());
        text.append(") })");
        text
    }

    /// Deletes the vertex buffer, the index buffer and the vertex array
    /// object on the GPU.
    pub fn delete(self, driver: &mut GlDriver)
        ensures
            final(driver).context() == old(driver).context(),
            final(driver).calls() == old(driver).calls() + seq![
                GlCall::DeleteBuffers { buffers: seq![self.vertex_buffer_id, self.index_buffer_id] },
                GlCall::DeleteVertexArrays { vertex_arrays: seq![self.vao.vao_id] },
            ],
    {
        let buffers = vec![self.vertex_buffer_id, self.index_buffer_id];
        assert(buffers@ =~= seq![self.vertex_buffer_id, self.index_buffer_id]);
        driver.delete_buffers(&buffers);
        self.vao.delete(driver);
        assert(driver.calls() =~= old(driver).calls() + seq![
            GlCall::DeleteBuffers { buffers: seq![self.vertex_buffer_id, self.index_buffer_id] },
            GlCall::DeleteVertexArrays { vertex_arrays: seq![self.vao.vao_id] },
        ]);
    }
}

/// Whether the size of a whole vertex of `layout` is a `usize`.
pub fn layout_fits(layout: &VertexLayout) -> (fits: bool)
    ensures
        fits == layout.fits(),
{
    let mut total: usize = 0;
    let mut i: usize = 0;
    while i < layout.fields.len()
        invariant
            i <= layout.fields.len(),
            total == crate::gl::total_stride(layout.fields@.take(i as int)),
        decreases layout.fields.len() - i,
    {
        proof {
            assert(layout.fields@.take(i + 1).drop_last() =~= layout.fields@.take(i as int));
            assert(layout.fields@.take(i + 1).last() == layout.fields@[i as int]);
            crate::gl::lemma_total_stride_grows(layout.fields@, i as int + 1);
        }
        let field = &layout.fields[i];
        let size = match field.attribute_type.get_mem_size().checked_mul(field.item_count) {
            Some(size) => size,
            None => {
                return false;
            },
        };
        total = match total.checked_add(size) {
            Some(sum) => sum,
            None => {
                return false;
            },
        };
        i = i + 1;
    }
    proof {
        assert(layout.fields@.take(layout.fields.len() as int) =~= layout.fields@);
    }
    true
}

/// The bytes of `input`, followed by a zero byte.
fn str_to_bytes(input: &str) -> (bytes: Vec<u8>)
    ensures
        bytes@ == vstd::utf8::encode_utf8(input@).push(0u8),
{
    let mut v: Vec<u8> = input.as_bytes_vec();
    v.push(0);
    v
}

/// The calls that make a shader of kind `shader_type` from `source` and
/// compile it.
pub open spec fn compile_calls(shader_type: GLuint, shader: GLuint, source: Seq<char>) -> Seq<
    GlCall,
> {
    seq![
        GlCall::CreateShader { shader_type, id: shader },
        GlCall::ShaderSource { shader, source: vstd::utf8::encode_utf8(source).push(0u8) },
        GlCall::CompileShader { shader },
    ]
}

/// The calls that make a program from two shaders and link it.
pub open spec fn link_calls(program: GLuint, vertex_shader: GLuint, fragment_shader: GLuint) -> Seq<
    GlCall,
> {
    seq![
        GlCall::CreateProgram { id: program },
        GlCall::AttachShader { program, shader: vertex_shader },
        GlCall::AttachShader { program, shader: fragment_shader },
        GlCall::LinkProgram { program },
    ]
}

impl GlShader {
    /// First step of making a shader program: compiles the vertex
    /// shader.
    ///
    /// `shader_compiler_supported` is what the driver answers when asked
    /// for `SHADER_COMPILER`. If the driver has no compiler, nothing is
    /// made on the GPU.
    pub fn compile_vertex_shader(
        driver: &mut GlDriver,
        shader_compiler_supported: u8,
        vertex_shader: &str,
    ) -> (vertex_shader_object: Result<GLuint, GlShaderCreateError>)
        ensures
            final(driver).context() == old(driver).context(),
            match vertex_shader_object {
                Ok(shader) => {
                    &&& shader_compiler_supported != 0
                    &&& final(driver).calls() == old(driver).calls() + compile_calls(
                        VERTEX_SHADER,
                        shader,
                        vertex_shader@,
                    )
                },
                Err(e) => {
                    &&& shader_compiler_supported == 0
                    &&& e == GlShaderCreateError::NoShaderCompiler
                    &&& final(driver).calls() == old(driver).calls()
                },
            },
    {
        // Check whether the OpenGL implementation supports a shader compiler...
        if shader_compiler_supported == gl_context::gl_false() {
            // Implementation only supports binary shaders
            return Err(GlShaderCreateError::NoShaderCompiler);
        }
        let vertex_shader_source = str_to_bytes(vertex_shader);

        let vertex_shader_object = driver.create_shader(gl_context::vertex_shader());
        driver.shader_source(vertex_shader_object, &vertex_shader_source);
        driver.compile_shader(vertex_shader_object);
        assert(driver.calls() =~= old(driver).calls() + compile_calls(
            VERTEX_SHADER,
            vertex_shader_object,
            vertex_shader@,
        ));
        Ok(vertex_shader_object)
    }

    /// Second step: looks at how the vertex shader compiled and compiles
    /// the fragment shader.
    ///
    /// `vertex_compile_status` is what the driver answers when asked for
    /// the `COMPILE_STATUS` of the vertex shader, and `vertex_info_log` is
    /// the driver's log for that shader, which is looked at only if the
    /// shader did not compile. In that case the shader is deleted and the
    /// error holds the status and the log.
    pub fn compile_fragment_shader(
        driver: &mut GlDriver,
        vertex_shader_object: GLuint,
        vertex_compile_status: GLint,
        vertex_info_log: String,
        fragment_shader: &str,
    ) -> (fragment_shader_object: Result<GLuint, GlShaderCreateError>)
        ensures
            final(driver).context() == old(driver).context(),
            match fragment_shader_object {
                Ok(shader) => {
                    &&& vertex_compile_status == 1
                    &&& final(driver).calls() == old(driver).calls() + compile_calls(
                        FRAGMENT_SHADER,
                        shader,
                        fragment_shader@,
                    )
                },
                Err(e) => vertex_compile_status != 1 && match e {
                    GlShaderCreateError::Compile(GlShaderCompileError::Vertex(error)) => {
                        &&& error.error_id == vertex_compile_status
                        &&& error.info_log == vertex_info_log
                        &&& final(driver).calls() == old(driver).calls().push(
                            GlCall::DeleteShader { shader: vertex_shader_object },
                        )
                    },
                    _ => false,
                },
            },
    {
        if let Some(error_id) = get_gl_status_error(vertex_compile_status) {
            driver.delete_shader(vertex_shader_object);
            return Err(
                GlShaderCreateError::Compile(
                    GlShaderCompileError::Vertex(
                        VertexShaderCompileError { error_id, info_log: vertex_info_log },
                    ),
                ),
            );
        }
        let fragment_shader_source = str_to_bytes(fragment_shader);

        let fragment_shader_object = driver.create_shader(gl_context::fragment_shader());
        driver.shader_source(fragment_shader_object, &fragment_shader_source);
        driver.compile_shader(fragment_shader_object);
        assert(driver.calls() =~= old(driver).calls() + compile_calls(
            FRAGMENT_SHADER,
            fragment_shader_object,
            fragment_shader@,
        ));
        Ok(fragment_shader_object)
    }

    /// Third step: looks at how the fragment shader compiled and links
    /// the program.
    ///
    /// `fragment_compile_status` is what the driver answers when asked
    /// for the `COMPILE_STATUS` of the fragment shader, and
    /// `fragment_info_log` is the driver's log for that shader, which is
    /// looked at only if the shader did not compile. In that case both
    /// shaders are deleted and the error holds the status and the log.
    pub fn link(
        driver: &mut GlDriver,
        vertex_shader_object: GLuint,
        fragment_shader_object: GLuint,
        fragment_compile_status: GLint,
        fragment_info_log: String,
    ) -> (program_id: Result<GLuint, GlShaderCreateError>)
        ensures
            final(driver).context() == old(driver).context(),
            match program_id {
                Ok(program) => {
                    &&& fragment_compile_status == 1
                    &&& final(driver).calls() == old(driver).calls() + link_calls(
                        program,
                        vertex_shader_object,
                        fragment_shader_object,
                    )
                },
                Err(e) => fragment_compile_status != 1 && match e {
                    GlShaderCreateError::Compile(GlShaderCompileError::Fragment(error)) => {
                        &&& error.error_id == fragment_compile_status
                        &&& error.info_log == fragment_info_log
                        &&& final(driver).calls() == old(driver).calls() + seq![
                            GlCall::DeleteShader { shader: vertex_shader_object },
                            GlCall::DeleteShader { shader: fragment_shader_object },
                        ]
                    },
                    _ => false,
                },
            },
    {
        if let Some(error_id) = get_gl_status_error(fragment_compile_status) {
            driver.delete_shader(vertex_shader_object);
            driver.delete_shader(fragment_shader_object);
            assert(driver.calls() =~= old(driver).calls() + seq![
                GlCall::DeleteShader { shader: vertex_shader_object },
                GlCall::DeleteShader { shader: fragment_shader_object },
            ]);
            return Err(
                GlShaderCreateError::Compile(
                    GlShaderCompileError::Fragment(
                        FragmentShaderCompileError { error_id, info_log: fragment_info_log },
                    ),
                ),
            );
        }
        let program_id = driver.create_program();
        driver.attach_shader(program_id, vertex_shader_object);
        driver.attach_shader(program_id, fragment_shader_object);
        driver.link_program(program_id);
        assert(driver.calls() =~= old(driver).calls() + link_calls(
            program_id,
            vertex_shader_object,
            fragment_shader_object,
        ));
        Ok(program_id)
    }

    /// Last step: looks at how the program linked and deletes the two
    /// shaders, which are no longer needed either way.
    ///
    /// `link_status` is what the driver answers when asked for the
    /// `LINK_STATUS` of the program, and `link_info_log` is the driver's
    /// log for the program, which is looked at only if the program did not
    /// link. In that case the program is deleted too and the error holds
    /// the status and the log.
    pub fn new(
        driver: &mut GlDriver,
        vertex_shader_object: GLuint,
        fragment_shader_object: GLuint,
        program_id: GLuint,
        link_status: GLint,
        link_info_log: String,
    ) -> (shader: Result<Self, GlShaderCreateError>)
        ensures
            final(driver).context() == old(driver).context(),
            match shader {
                Ok(s) => link_status == 1 && s.program_id == program_id && final(driver).calls()
                    == old(driver).calls() + seq![
                    GlCall::DeleteShader { shader: vertex_shader_object },
                    GlCall::DeleteShader { shader: fragment_shader_object },
                ],
                Err(e) => link_status != 1 && match e {
                    GlShaderCreateError::Link(error) => {
                        &&& error.error_id == link_status
                        &&& error.info_log == link_info_log
                        &&& final(driver).calls() == old(driver).calls() + seq![
                            GlCall::DeleteShader { shader: vertex_shader_object },
                            GlCall::DeleteShader { shader: fragment_shader_object },
                            GlCall::DeleteProgram { program: program_id },
                        ]
                    },
                    _ => false,
                },
            },
    {
        if let Some(error_id) = get_gl_status_error(link_status) {
            driver.delete_shader(vertex_shader_object);
            driver.delete_shader(fragment_shader_object);
            driver.delete_program(program_id);
            assert(driver.calls() =~= old(driver).calls() + seq![
                GlCall::DeleteShader { shader: vertex_shader_object },
                GlCall::DeleteShader { shader: fragment_shader_object },
                GlCall::DeleteProgram { program: program_id },
            ]);
            return Err(
                GlShaderCreateError::Link(
                    GlShaderLinkError { error_id, info_log: link_info_log },
                ),
            );
        }
        driver.delete_shader(vertex_shader_object);
        driver.delete_shader(fragment_shader_object);
        assert(driver.calls() =~= old(driver).calls() + seq![
            GlCall::DeleteShader { shader: vertex_shader_object },
            GlCall::DeleteShader { shader: fragment_shader_object },
        ]);

        Ok(GlShader { program_id })
    }

    /// The shader as text.
    pub fn to_string(&self) -> (text: String)
        ensures
            text@ == "GlShader { program_id: "@ + crate::text::decimal(self.program_id as int)
                + " }"@,
    {
        let mut text = String::from_str("GlShader { program_id: ");
        text.append(crate::text::u32_to_string(self.program_id).as_str());
        text.append(" }");
        text
    }

    /// Deletes the program on the GPU.
    pub fn delete(self, driver: &mut GlDriver)
        ensures
            final(driver).context() == old(driver).context(),
            final(driver).calls() == old(driver).calls().push(
                GlCall::DeleteProgram { program: self.program_id },
            ),
    {
        driver.delete_program(self.program_id);
    }
}

/// The error that a compile or link status stands for: none if the status
/// is `TRUE`, else the status itself.
pub fn get_gl_status_error(status: GLint) -> (error: Option<i32>)
    ensures
        error == if status == 1 {
            None
        } else {
            Some(status)
        },
{
    if status == gl_context::gl_true() as i32 {
        None
    } else {
        Some(status)
    }
}

/// The state of a context at one moment, as the driver reported it:
/// whether multisampling is on, and what is bound.
#[derive(Debug, Clone, Copy, PartialEq, Eq, Structural, Hash)]
pub struct GlStateSnapshot {
    pub multisample: u8,
    pub index_buffer: GLint,
    pub vertex_buffer: GLint,
    pub vertex_array_object: GLint,
    pub program: GLint,
    pub framebuffer: GLint,
    pub renderbuffer: GLint,
    pub texture_2d: GLint,
}

/// The objects that one drawing into a texture is made with.
#[derive(Debug, Clone, Copy, PartialEq, Eq, Structural, Hash)]
pub struct DrawTarget {
    /// The texture that is drawn into
    pub texture_id: GLuint,
    /// The framebuffer that the texture is attached to
    pub framebuffer_id: GLuint,
    /// The renderbuffer that holds the depth values
    pub depthbuffer_id: GLuint,
    /// What the driver reported as the state of the framebuffer
    pub framebuffer_status: GLuint,
}

impl DrawTarget {
    /// Whether the driver reported the framebuffer as complete.
    pub fn is_complete(&self) -> (complete: bool)
        ensures
            complete == (self.framebuffer_status == FRAMEBUFFER_COMPLETE),
    {
        self.framebuffer_status == gl_context::framebuffer_complete()
    }
}

/// The number of whole pixels in a fixed-point length, the fraction cut
/// off, and no more than an `i32` holds.
pub open spec fn whole_pixels(length: i64) -> i32 {
    let pixels = if length >= 0 {
        length / 1000
    } else {
        -((-length) / 1000)
    };
    if pixels > i32::MAX {
        i32::MAX
    } else if pixels < i32::MIN {
        i32::MIN
    } else {
        pixels as i32
    }
}

/// The number of whole pixels in a fixed-point length, the fraction cut
/// off, and no more than an `i32` holds.
pub fn to_whole_pixels(length: i64) -> (pixels: i32)
    ensures
        pixels == whole_pixels(length),
{
    let wide: i128 = length as i128;
    let pixels: i128 = if wide >= 0 {
        wide / 1000
    } else {
        -((-wide) / 1000)
    };
    if pixels > 2147483647 {
        i32::MAX
    } else if pixels < -2147483648 {
        i32::MIN
    } else {
        pixels as i32
    }
}

/// The uniforms of each layer of `buffers`.
pub open spec fn layer_uniforms<T: VertexLayoutDescription>(
    buffers: Seq<(Rc<VertexBuffer<T>>, Vec<Uniform>)>,
) -> Seq<Seq<Uniform>> {
    Seq::new(buffers.len(), |i: int| buffers[i].1@)
}

/// The value that the uniform slot `slot` holds after `layers` were
/// drawn: that of the last layer that has a uniform in the slot.
pub open spec fn slot_after(layers: Seq<Seq<Uniform>>, slot: int) -> Option<UniformType>
    decreases layers.len(),
{
    if layers.len() == 0 {
        None
    } else if 0 <= slot < layers.last().len() {
        Some(layers.last()[slot].uniform_type)
    } else {
        slot_after(layers.drop_last(), slot)
    }
}

/// Whether the uniform in slot `slot` of layer `layer` has to be handed
/// to the driver: the slot does not hold its value yet.
pub open spec fn needs_update(layers: Seq<Seq<Uniform>>, layer: int, slot: int) -> bool {
    slot_after(layers.take(layer), slot) != Some(layers[layer][slot].uniform_type)
}

/// The slots among the first `count` of layer `layer` whose uniform has
/// to be handed to the driver, in order.
pub open spec fn updates_of_layer(layers: Seq<Seq<Uniform>>, layer: int, count: nat) -> Seq<usize>
    decreases count,
{
    if count == 0 {
        Seq::empty()
    } else {
        let before = updates_of_layer(layers, layer, (count - 1) as nat);
        if needs_update(layers, layer, count - 1) {
            before.push((count - 1) as usize)
        } else {
            before
        }
    }
}

/// The locations of the uniforms of a program, each under the name of
/// its uniform.
pub type UniformLocations = StringHashMap<i32>;

/// The location that `cache` holds for `name`, if it holds one.
pub fn cached_location(cache: &UniformLocations, name: &String) -> (location: Option<i32>)
    ensures
        location == if cache@.contains_key(name@) {
            Some(cache@[name@])
        } else {
            None
        },
{
    match cache.get(name.as_str()) {
        Some(location) => Some(*location),
        None => None,
    }
}

impl GlShader {
    /// Asks the driver for the location of every uniform of `buffers`,
    /// once for each name, in the order in which the names first occur.
    /// The driver is not asked for a name that holds a NUL character: no
    /// program has a uniform of such a name, so it is taken to have the
    /// location -1.
    pub fn uniform_locations<T: VertexLayoutDescription>(
        &self,
        driver: &mut GlDriver,
        buffers: &Vec<(Rc<VertexBuffer<T>>, Vec<Uniform>)>,
    ) -> (uniform_locations: UniformLocations)
        ensures
            forall|name: Seq<char>| #[trigger]
                uniform_locations@.contains_key(name) <==> uniform_names(
                    layer_uniforms(buffers@),
                ).contains(name),
            forall|name: Seq<char>| #[trigger]
                uniform_locations@.contains_key(name) && name.contains('\0')
                    ==> uniform_locations@[name] == -1,
            final(driver).context() == old(driver).context(),
            final(driver).calls() == old(driver).calls() + location_lookups(
                self.program_id,
                first_occurrences(uniform_names(layer_uniforms(buffers@))),
                uniform_locations@,
            ),
    {
        // Avoid multiple calls to get_uniform_location by caching the uniform locations
        let mut uniform_locations: UniformLocations = StringHashMap::new();
        let ghost layers = layer_uniforms(buffers@);
        assert(driver.calls() =~= old(driver).calls() + location_lookups(
            self.program_id,
            first_occurrences(names_before(layers, 0, 0)),
            uniform_locations@,
        ));
        let mut layer: usize = 0;
        while layer < buffers.len()
            invariant
                layer <= buffers.len(),
                layers == layer_uniforms(buffers@),
                forall|name: Seq<char>| #[trigger]
                    uniform_locations@.contains_key(name) <==> first_occurrences(
                        names_before(layers, layer as int, 0),
                    ).contains(name),
                forall|name: Seq<char>| #[trigger]
                    uniform_locations@.contains_key(name) && name.contains('\0')
                        ==> uniform_locations@[name] == -1,
                driver.context() == old(driver).context(),
                driver.calls() == old(driver).calls() + location_lookups(
                    self.program_id,
                    first_occurrences(names_before(layers, layer as int, 0)),
                    uniform_locations@,
                ),
            decreases buffers.len() - layer,
        {
            let uniforms = &buffers[layer].1;
            assert(layers[layer as int] == uniforms@);
            let mut slot: usize = 0;
            while slot < uniforms.len()
                invariant
                    layer < buffers.len(),
                    slot <= uniforms.len(),
                    layers == layer_uniforms(buffers@),
                    layers[layer as int] == uniforms@,
                    forall|name: Seq<char>| #[trigger]
                        uniform_locations@.contains_key(name) <==> first_occurrences(
                            names_before(layers, layer as int, slot as int),
                        ).contains(name),
                    forall|name: Seq<char>| #[trigger]
                        uniform_locations@.contains_key(name) && name.contains('\0')
                            ==> uniform_locations@[name] == -1,
                    driver.context() == old(driver).context(),
                    driver.calls() == old(driver).calls() + location_lookups(
                        self.program_id,
                        first_occurrences(names_before(layers, layer as int, slot as int)),
                        uniform_locations@,
                    ),
                decreases uniforms.len() - slot,
            {
                let uniform = &uniforms[slot];
                let ghost before = uniform_locations@;
                let ghost seen = first_occurrences(names_before(layers, layer as int, slot as int));
                let ghost next = first_occurrences(names_before(layers, layer as int, slot + 1));
                proof {
                    let names = names_before(layers, layer as int, slot + 1);
                    assert(names.last() == uniform.name@);
                    assert(names.drop_last() =~= names_before(layers, layer as int, slot as int));
                }
                if !uniform_locations.contains_key(uniform.name.as_str()) {
                    let location = if has_nul(uniform.name.as_str()) {
                        -1
                    } else {
                        driver.get_uniform_location(self.program_id, uniform.name.as_str())
                    };
                    uniform_locations.insert(uniform.name.clone(), location);
                    proof {
                        assert(next == seen.push(uniform.name@));
                        assert(next.drop_last() =~= seen);
                        assert(next.last() == uniform.name@);
                        lemma_lookups_of_other_names(
                            self.program_id,
                            seen,
                            before,
                            uniform.name@,
                            location,
                        );
                        assert forall|name: Seq<char>| #[trigger]
                            uniform_locations@.contains_key(name) <==> next.contains(name) by {
                            if seen.contains(name) {
                                let k = choose|k: int| 0 <= k < seen.len() && seen[k] == name;
                                assert(next[k] == name);
                            }
                            if name == uniform.name@ {
                                assert(next[seen.len() as int] == name);
                            }
                            if next.contains(name) {
                                let k = choose|k: int| 0 <= k < next.len() && next[k] == name;
                                if k < seen.len() {
                                    assert(seen[k] == name);
                                }
                            }
                        }
                        assert(driver.calls() =~= old(driver).calls() + location_lookups(
                            self.program_id,
                            next,
                            uniform_locations@,
                        ));
                    }
                } else {
                    assert(next == seen);
                }
                slot = slot + 1;
            }
            layer = layer + 1;
        }
        proof {
            lemma_first_occurrences_has_all(uniform_names(layers));
        }
        uniform_locations
    }

    /// Makes the texture that is drawn into, with its framebuffer and
    /// depth buffer, binds them and makes this program the current one.
    /// The texture is `width` pixels wide and `height` pixels high.
    pub fn begin_draw(&self, driver: &mut GlDriver, width: i32, height: i32) -> (target: DrawTarget)
        ensures
            final(driver).context() == old(driver).context(),
            final(driver).calls() == old(driver).calls() + begin_draw_calls(
                self.program_id,
                width,
                height,
                target,
            ),
    {
        // 1. Create the texture + framebuffer
        let texture_id = driver.gen_textures(1);
        let framebuffer_id = driver.gen_framebuffers(1);
        driver.bind_framebuffer(gl_context::framebuffer(), framebuffer_id);

        let depthbuffer_id = driver.gen_renderbuffers(1);

        driver.bind_texture(gl_context::texture_2d(), texture_id);
        driver.tex_image_2d(
            gl_context::texture_2d(),
            0,
            gl_context::rgba() as i32,
            width,
            height,
            0,
            gl_context::rgba(),
            gl_context::unsigned_byte(),
        );
        driver.tex_parameter_i(
            gl_context::texture_2d(),
            gl_context::texture_mag_filter(),
            gl_context::nearest() as i32,
        );
        driver.tex_parameter_i(
            gl_context::texture_2d(),
            gl_context::texture_min_filter(),
            gl_context::nearest() as i32,
        );
        driver.tex_parameter_i(
            gl_context::texture_2d(),
            gl_context::texture_wrap_s(),
            gl_context::clamp_to_edge() as i32,
        );
        driver.tex_parameter_i(
            gl_context::texture_2d(),
            gl_context::texture_wrap_t(),
            gl_context::clamp_to_edge() as i32,
        );

        driver.bind_renderbuffer(gl_context::renderbuffer(), depthbuffer_id);
        driver.renderbuffer_storage(
            gl_context::renderbuffer(),
            gl_context::depth_component(),
            width,
            height,
        );
        driver.framebuffer_renderbuffer(
            gl_context::framebuffer(),
            gl_context::depth_attachment(),
            gl_context::renderbuffer(),
            depthbuffer_id,
        );

        driver.framebuffer_texture_2d(
            gl_context::framebuffer(),
            gl_context::color_attachment0(),
            gl_context::texture_2d(),
            texture_id,
            0,
        );
        let bufs = vec![gl_context::color_attachment0()];
        assert(bufs@ =~= seq![COLOR_ATTACHMENT0]);
        driver.draw_buffers(&bufs);
        driver.viewport(0, 0, width, height);

        let framebuffer_status = driver.check_frame_buffer_status(gl_context::framebuffer());

        driver.use_program(self.program_id);
        driver.disable(gl_context::multisample());

        let target = DrawTarget { texture_id, framebuffer_id, depthbuffer_id, framebuffer_status };
        assert(driver.calls() =~= old(driver).calls() + begin_draw_calls(
            self.program_id,
            width,
            height,
            target,
        ));
        target
    }

    /// Clears the color and the depth buffer of what is drawn into.
    pub fn clear(&self, driver: &mut GlDriver)
        ensures
            final(driver).context() == old(driver).context(),
            final(driver).calls() == old(driver).calls().push(GlCall::Clear { buffer_mask: 0x4100 }),
    {
        let mask = gl_context::color_buffer_bit() | gl_context::depth_buffer_bit();
        assert(0x4000u32 | 0x100u32 == 0x4100u32) by (bit_vector);
        driver.clear(mask);
    }

    /// Binds the vertex array and the index buffer of a layer, before the
    /// layer's uniforms are set.
    pub fn begin_layer<T: VertexLayoutDescription>(
        &self,
        driver: &mut GlDriver,
        vertex_buffer: &VertexBuffer<T>,
    )
        ensures
            final(driver).context() == old(driver).context(),
            final(driver).calls() == old(driver).calls() + seq![
                GlCall::BindVertexArray { vao: vertex_buffer.vao.vao_id },
                GlCall::BindBuffer {
                    target: ELEMENT_ARRAY_BUFFER,
                    buffer: vertex_buffer.index_buffer_id,
                },
            ],
    {
        driver.bind_vertex_array(vertex_buffer.vao.vao_id);
        // NOTE: Technically not required, but some drivers...
        driver.bind_buffer(gl_context::element_array_buffer(), vertex_buffer.index_buffer_id);
        assert(driver.calls() =~= old(driver).calls() + seq![
            GlCall::BindVertexArray { vao: vertex_buffer.vao.vao_id },
            GlCall::BindBuffer {
                target: ELEMENT_ARRAY_BUFFER,
                buffer: vertex_buffer.index_buffer_id,
            },
        ]);
    }

    /// Draws the elements of a layer, after the layer's uniforms were set.
    pub fn draw_layer<T: VertexLayoutDescription>(
        &self,
        driver: &mut GlDriver,
        vertex_buffer: &VertexBuffer<T>,
    )
        ensures
            final(driver).context() == old(driver).context(),
            final(driver).calls() == old(driver).calls().push(
                GlCall::DrawElements {
                    mode: vertex_buffer.index_buffer_format.gl_id(),
                    count: vertex_buffer.index_buffer_len as i32,
                    element_type: UNSIGNED_INT,
                    indices_offset: 0,
                },
            ),
    {
        driver.draw_elements(
            vertex_buffer.index_buffer_format.get_gl_id(),
            vertex_buffer.index_buffer_len as i32,
            gl_context::unsigned_int(),
            0,
        );
    }

    /// Brings the context back into the state `saved`, deletes the
    /// framebuffer and the depth buffer of `target` and hands out the
    /// texture that was drawn into.
    pub fn end_draw(
        &self,
        driver: &mut GlDriver,
        saved: &GlStateSnapshot,
        target: DrawTarget,
        texture_size: LogicalSize,
    ) -> (texture: Texture)
        ensures
            texture == (Texture { texture_id: target.texture_id, size: texture_size }),
            final(driver).context() == old(driver).context(),
            final(driver).calls() == old(driver).calls() + end_draw_calls(*saved, target),
    {
        // Reset the OpenGL state to what it was before
        if saved.multisample == gl_context::gl_true() {
            driver.enable(gl_context::multisample());
        }
        driver.bind_vertex_array(saved.vertex_array_object as u32);
        driver.bind_framebuffer(gl_context::framebuffer(), saved.framebuffer as u32);
        driver.bind_texture(gl_context::texture_2d(), saved.texture_2d as u32);
        driver.bind_renderbuffer(gl_context::renderbuffer(), saved.renderbuffer as u32);
        driver.bind_buffer(gl_context::element_array_buffer(), saved.index_buffer as u32);
        driver.bind_buffer(gl_context::array_buffer(), saved.vertex_buffer as u32);
        driver.use_program(saved.program as u32);

        let framebuffers = vec![target.framebuffer_id];
        assert(framebuffers@ =~= seq![target.framebuffer_id]);
        driver.delete_framebuffers(&framebuffers);
        let renderbuffers = vec![target.depthbuffer_id];
        assert(renderbuffers@ =~= seq![target.depthbuffer_id]);
        driver.delete_renderbuffers(&renderbuffers);
        assert(driver.calls() =~= old(driver).calls() + end_draw_calls(*saved, target));

        Texture { texture_id: target.texture_id, size: texture_size }
    }
}

/// Brings the context into the state that the rest of a frame relies on,
/// after a callback has rendered a texture: the default framebuffer is
/// bound, and sRGB conversion and multisampling are off.
pub fn reset_after_texture_callback(driver: &mut GlDriver)
    ensures
        final(driver).context() == old(driver).context(),
        final(driver).calls() == old(driver).calls() + seq![
            GlCall::BindFramebuffer { target: FRAMEBUFFER, framebuffer: 0 },
            GlCall::Disable { cap: FRAMEBUFFER_SRGB },
            GlCall::Disable { cap: MULTISAMPLE },
        ],
{
    // Reset the framebuffer and SRGB color target to 0
    driver.bind_framebuffer(gl_context::framebuffer(), 0);
    driver.disable(gl_context::framebuffer_srgb());
    driver.disable(gl_context::multisample());
    assert(driver.calls() =~= old(driver).calls() + seq![
        GlCall::BindFramebuffer { target: FRAMEBUFFER, framebuffer: 0 },
        GlCall::Disable { cap: FRAMEBUFFER_SRGB },
        GlCall::Disable { cap: MULTISAMPLE },
    ]);
}

/// The names of the uniforms of the layers before layer `layer`, layer
/// after layer, and of the first `slot` uniforms of layer `layer`.
pub open spec fn names_before(layers: Seq<Seq<Uniform>>, layer: int, slot: int) -> Seq<Seq<char>>
    decreases layer, slot,
{
    if slot > 0 {
        names_before(layers, layer, slot - 1).push(layers[layer][slot - 1].name@)
    } else if layer > 0 {
        names_before(layers, layer - 1, layers[layer - 1].len() as int)
    } else {
        Seq::empty()
    }
}

/// The names of all uniforms of `layers`, layer after layer.
pub open spec fn uniform_names(layers: Seq<Seq<Uniform>>) -> Seq<Seq<char>> {
    names_before(layers, layers.len() as int, 0)
}

/// The names of `names` without repetition, each at the place where it
/// first occurs.
pub open spec fn first_occurrences(names: Seq<Seq<char>>) -> Seq<Seq<char>>
    decreases names.len(),
{
    if names.len() == 0 {
        Seq::empty()
    } else {
        let before = first_occurrences(names.drop_last());
        if before.contains(names.last()) {
            before
        } else {
            before.push(names.last())
        }
    }
}

/// The calls that ask for the locations of `names`, in order: one for
/// each name but those that hold a NUL character, each with the location
/// that `cache` holds for the name.
pub open spec fn location_lookups(
    program: GLuint,
    names: Seq<Seq<char>>,
    cache: Map<Seq<char>, i32>,
) -> Seq<GlCall>
    decreases names.len(),
{
    if names.len() == 0 {
        Seq::empty()
    } else {
        let before = location_lookups(program, names.drop_last(), cache);
        let name = names.last();
        if name.contains('\0') {
            before
        } else {
            before.push(GlCall::GetUniformLocation { program, name, location: cache[name] })
        }
    }
}

/// A name is among the first occurrences of `names` exactly if it is
/// among `names`.
pub proof fn lemma_first_occurrences_has_all(names: Seq<Seq<char>>)
    ensures
        forall|name: Seq<char>| first_occurrences(names).contains(name) <==> names.contains(name),
    decreases names.len(),
{
    if names.len() > 0 {
        let init = names.drop_last();
        let last = names.last();
        lemma_first_occurrences_has_all(init);
        let before = first_occurrences(init);
        let all = first_occurrences(names);
        assert forall|name: Seq<char>| all.contains(name) <==> names.contains(name) by {
            if names.contains(name) {
                let k = choose|k: int| 0 <= k < names.len() && names[k] == name;
                if k < init.len() {
                    assert(init[k] == name);
                    assert(init.contains(name));
                    assert(before.contains(name));
                    let j = choose|j: int| 0 <= j < before.len() && before[j] == name;
                    assert(all[j] == name);
                } else if !before.contains(last) {
                    assert(all[before.len() as int] == name);
                }
            }
            if all.contains(name) {
                let j = choose|j: int| 0 <= j < all.len() && all[j] == name;
                if j < before.len() {
                    assert(before[j] == name);
                    assert(before.contains(name));
                    assert(init.contains(name));
                    let k = choose|k: int| 0 <= k < init.len() && init[k] == name;
                    assert(names[k] == name);
                } else {
                    assert(names[names.len() - 1] == name);
                }
            }
        }
    }
}

/// The name of every uniform of every layer is among the names of the
/// uniforms of `layers`.
pub proof fn lemma_uniform_names_hold_every_name(layers: Seq<Seq<Uniform>>, layer: int, slot: int)
    requires
        0 <= layer < layers.len(),
        0 <= slot < layers[layer].len(),
    ensures
        uniform_names(layers).contains(layers[layer][slot].name@),
{
    lemma_names_before_hold(layers, layers.len() as int, 0, layer, slot);
}

/// The names before a place hold the name of every uniform before it.
proof fn lemma_names_before_hold(layers: Seq<Seq<Uniform>>, end_layer: int, end_slot: int, layer: int, slot: int)
    requires
        0 <= layer,
        0 <= slot < layers[layer].len(),
        0 <= end_slot,
        layer < end_layer || (layer == end_layer && slot < end_slot),
    ensures
        names_before(layers, end_layer, end_slot).contains(layers[layer][slot].name@),
    decreases end_layer, end_slot,
{
    let name = layers[layer][slot].name@;
    let names = names_before(layers, end_layer, end_slot);
    if end_slot > 0 {
        let init = names_before(layers, end_layer, end_slot - 1);
        if layer == end_layer && slot == end_slot - 1 {
            assert(names[init.len() as int] == name);
        } else {
            lemma_names_before_hold(layers, end_layer, end_slot - 1, layer, slot);
            let k = choose|k: int| 0 <= k < init.len() && init[k] == name;
            assert(names[k] == name);
        }
    } else {
        lemma_names_before_hold(
            layers,
            end_layer - 1,
            layers[end_layer - 1].len() as int,
            layer,
            slot,
        );
    }
}

/// The calls that ask for the locations of `names` are the same after a
/// location was added to the cache under another name.
proof fn lemma_lookups_of_other_names(
    program: GLuint,
    names: Seq<Seq<char>>,
    cache: Map<Seq<char>, i32>,
    name: Seq<char>,
    location: i32,
)
    requires
        !names.contains(name),
    ensures
        location_lookups(program, names, cache.insert(name, location)) == location_lookups(
            program,
            names,
            cache,
        ),
    decreases names.len(),
{
    if names.len() > 0 {
        let init = names.drop_last();
        assert(names[names.len() - 1] != name);
        assert forall|k: int| 0 <= k < init.len() implies init[k] != name by {
            assert(names[k] == init[k]);
        }
        lemma_lookups_of_other_names(program, init, cache, name, location);
    }
}

/// The calls that set up the drawing into a texture of `width` by
/// `height` pixels with the objects of `target`.
pub open spec fn begin_draw_calls(program: GLuint, width: i32, height: i32, target: DrawTarget) -> Seq<
    GlCall,
> {
    seq![
        GlCall::GenTextures { n: 1, name: target.texture_id },
        GlCall::GenFramebuffers { n: 1, name: target.framebuffer_id },
        GlCall::BindFramebuffer { target: FRAMEBUFFER, framebuffer: target.framebuffer_id },
        GlCall::GenRenderbuffers { n: 1, name: target.depthbuffer_id },
        GlCall::BindTexture { target: TEXTURE_2D, texture: target.texture_id },
        GlCall::TexImage2d {
            target: TEXTURE_2D,
            level: 0,
            internal_format: RGBA as i32,
            width,
            height,
            border: 0,
            format: RGBA,
            ty: UNSIGNED_BYTE,
        },
        GlCall::TexParameterI { target: TEXTURE_2D, pname: TEXTURE_MAG_FILTER, param: NEAREST as i32 },
        GlCall::TexParameterI { target: TEXTURE_2D, pname: TEXTURE_MIN_FILTER, param: NEAREST as i32 },
        GlCall::TexParameterI {
            target: TEXTURE_2D,
            pname: TEXTURE_WRAP_S,
            param: CLAMP_TO_EDGE as i32,
        },
        GlCall::TexParameterI {
            target: TEXTURE_2D,
            pname: TEXTURE_WRAP_T,
            param: CLAMP_TO_EDGE as i32,
        },
        GlCall::BindRenderbuffer { target: RENDERBUFFER, renderbuffer: target.depthbuffer_id },
        GlCall::RenderbufferStorage {
            target: RENDERBUFFER,
            internalformat: DEPTH_COMPONENT,
            width,
            height,
        },
        GlCall::FramebufferRenderbuffer {
            target: FRAMEBUFFER,
            attachment: DEPTH_ATTACHMENT,
            renderbuffertarget: RENDERBUFFER,
            renderbuffer: target.depthbuffer_id,
        },
        GlCall::FramebufferTexture2d {
            target: FRAMEBUFFER,
            attachment: COLOR_ATTACHMENT0,
            textarget: TEXTURE_2D,
            texture: target.texture_id,
            level: 0,
        },
        GlCall::DrawBuffers { bufs: seq![COLOR_ATTACHMENT0] },
        GlCall::Viewport { x: 0, y: 0, width, height },
        GlCall::CheckFrameBufferStatus { target: FRAMEBUFFER, status: target.framebuffer_status },
        GlCall::UseProgram { program },
        GlCall::Disable { cap: MULTISAMPLE },
    ]
}

/// The calls that bring the context back into the state `saved` and
/// delete the framebuffer and the depth buffer of `target`. Multisampling
/// is switched on again only if it was on.
pub open spec fn end_draw_calls(saved: GlStateSnapshot, target: DrawTarget) -> Seq<GlCall> {
    (if saved.multisample == 1 {
        seq![GlCall::Enable { cap: MULTISAMPLE }]
    } else {
        Seq::empty()
    }) + seq![
        GlCall::BindVertexArray { vao: saved.vertex_array_object as u32 },
        GlCall::BindFramebuffer { target: FRAMEBUFFER, framebuffer: saved.framebuffer as u32 },
        GlCall::BindTexture { target: TEXTURE_2D, texture: saved.texture_2d as u32 },
        GlCall::BindRenderbuffer { target: RENDERBUFFER, renderbuffer: saved.renderbuffer as u32 },
        GlCall::BindBuffer { target: ELEMENT_ARRAY_BUFFER, buffer: saved.index_buffer as u32 },
        GlCall::BindBuffer { target: ARRAY_BUFFER, buffer: saved.vertex_buffer as u32 },
        GlCall::UseProgram { program: saved.program as u32 },
        GlCall::DeleteFramebuffers { framebuffers: seq![target.framebuffer_id] },
        GlCall::DeleteRenderbuffers { renderbuffers: seq![target.depthbuffer_id] },
    ]
}

/// For each layer of `buffers`, the slots whose uniform has to be handed
/// to the driver before the layer is drawn. A uniform is handed over only
/// if its slot does not hold its value yet.
pub fn plan_uniform_updates<T: VertexLayoutDescription>(
    buffers: &Vec<(Rc<VertexBuffer<T>>, Vec<Uniform>)>,
) -> (updates: Vec<Vec<usize>>)
    ensures
        updates@.len() == buffers@.len(),
        forall|layer: int|
            0 <= layer < buffers@.len() ==> (#[trigger] updates@[layer])@ == updates_of_layer(
                layer_uniforms(buffers@),
                layer,
                buffers@[layer].1@.len(),
            ),
{
    let ghost layers = layer_uniforms(buffers@);
    let mut current_uniforms: Vec<Option<UniformType>> = Vec::new();
    let mut updates: Vec<Vec<usize>> = Vec::new();

    let mut layer: usize = 0;
    while layer < buffers.len()
        invariant
            layer <= buffers.len(),
            layers == layer_uniforms(buffers@),
            updates@.len() == layer,
            forall|slot: int|
                0 <= slot < current_uniforms@.len() ==> #[trigger] current_uniforms@[slot]
                    == slot_after(layers.take(layer as int), slot),
            forall|slot: int|
                current_uniforms@.len() <= slot ==> slot_after(layers.take(layer as int), slot)
                    is None,
            forall|l: int|
                0 <= l < layer ==> (#[trigger] updates@[l])@ == updates_of_layer(
                    layers,
                    l,
                    buffers@[l].1@.len(),
                ),
        decreases buffers.len() - layer,
    {
        let uniforms = &buffers[layer].1;
        let ghost before = layers.take(layer as int);
        proof {
            assert(layers.take(layer + 1).drop_last() =~= before);
            assert(layers.take(layer + 1).last() == uniforms@);
            assert(layers[layer as int] == uniforms@);
        }
        let mut to_set: Vec<usize> = Vec::new();
        let mut uniform_index: usize = 0;
        while uniform_index < uniforms.len()
            invariant
                layer < buffers.len(),
                uniform_index <= uniforms.len(),
                uniform_index <= current_uniforms@.len(),
                layers == layer_uniforms(buffers@),
                layers[layer as int] == uniforms@,
                before == layers.take(layer as int),
                to_set@ == updates_of_layer(layers, layer as int, uniform_index as nat),
                forall|slot: int|
                    0 <= slot < uniform_index ==> slot < current_uniforms@.len()
                        && #[trigger] current_uniforms@[slot] == Some(
                        uniforms@[slot].uniform_type,
                    ),
                forall|slot: int|
                    uniform_index <= slot < current_uniforms@.len()
                        ==> #[trigger] current_uniforms@[slot] == slot_after(before, slot),
                forall|slot: int|
                    current_uniforms@.len() <= slot && uniform_index <= slot ==> slot_after(
                        before,
                        slot,
                    ) is None,
            decreases uniforms.len() - uniform_index,
        {
            let uniform = &uniforms[uniform_index];
            // Only set the uniform if the value has changed
            let unchanged = if uniform_index < current_uniforms.len() {
                match &current_uniforms[uniform_index] {
                    Some(current) => current.is_same(&uniform.uniform_type),
                    None => false,
                }
            } else {
                false
            };
            if !unchanged {
                to_set.push(uniform_index);
                if uniform_index < current_uniforms.len() {
                    current_uniforms.set(uniform_index, Some(uniform.uniform_type));
                } else {
                    current_uniforms.push(Some(uniform.uniform_type));
                }
            }
            uniform_index = uniform_index + 1;
        }
        proof {
            let after = layers.take(layer + 1);
            assert forall|slot: int| 0 <= slot < current_uniforms@.len() implies #[trigger] current_uniforms@[slot]
                == slot_after(after, slot) by {
                if slot < uniforms@.len() {
                    assert(slot_after(after, slot) == Some(uniforms@[slot].uniform_type));
                } else {
                    assert(slot_after(after, slot) == slot_after(before, slot));
                }
            }
            assert forall|slot: int| current_uniforms@.len() <= slot implies slot_after(
                after,
                slot,
            ) is None by {
                assert(slot_after(after, slot) == slot_after(before, slot));
            }
        }
        updates.push(to_set);
        layer = layer + 1;
    }
    updates
}

} // verus!
