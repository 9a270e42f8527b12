//! The door to the graphics driver: a handle to an OpenGL context, the
//! driver's constants, and a driver object that makes the calls and keeps
//! account of them.
//!
//! What a call does to the GPU, and what it reports back, is the driver's
//! business: nothing is claimed of the result of any call. What this
//! library can state, and does, is which calls it makes, in which order
//! and with which arguments.

use vstd::prelude::*;
use gleam::gl;
use gleam::gl::Gl;
use std::rc::Rc;

verus! {

/// A shared handle to an OpenGL context.
#[verifier::external_body]
pub struct GlContext {
    pub gl: Rc<dyn Gl>,
}

/// The value of `gl::FLOAT`.
pub const FLOAT: u32 = 0x1406;

/// The value of `gl::DOUBLE`.
pub const DOUBLE: u32 = 0x140A;

/// The value of `gl::UNSIGNED_BYTE`.
pub const UNSIGNED_BYTE: u32 = 0x1401;

/// The value of `gl::UNSIGNED_SHORT`.
pub const UNSIGNED_SHORT: u32 = 0x1403;

/// The value of `gl::UNSIGNED_INT`.
pub const UNSIGNED_INT: u32 = 0x1405;

/// The value of `gl::POINTS`.
pub const POINTS: u32 = 0;

/// The value of `gl::LINES`.
pub const LINES: u32 = 1;

/// The value of `gl::LINE_STRIP`.
pub const LINE_STRIP: u32 = 3;

/// The value of `gl::TRIANGLES`.
pub const TRIANGLES: u32 = 4;

/// The value of `gl::TRIANGLE_STRIP`.
pub const TRIANGLE_STRIP: u32 = 5;

/// The value of `gl::TRIANGLE_FAN`.
pub const TRIANGLE_FAN: u32 = 6;

/// The value of `gl::TRUE`.
pub const TRUE: u8 = 1;

/// The value of `gl::FALSE`.
pub const FALSE: u8 = 0;

/// The value of `gl::FRAMEBUFFER`.
pub const FRAMEBUFFER: u32 = 0x8D40;

/// The value of `gl::TEXTURE_2D`.
pub const TEXTURE_2D: u32 = 0x0DE1;

/// The value of `gl::RGBA`.
pub const RGBA: u32 = 0x1908;

/// The value of `gl::TEXTURE_MAG_FILTER`.
pub const TEXTURE_MAG_FILTER: u32 = 0x2800;

/// The value of `gl::TEXTURE_MIN_FILTER`.
pub const TEXTURE_MIN_FILTER: u32 = 0x2801;

/// The value of `gl::NEAREST`.
pub const NEAREST: u32 = 0x2600;

/// The value of `gl::TEXTURE_WRAP_S`.
pub const TEXTURE_WRAP_S: u32 = 0x2802;

/// The value of `gl::TEXTURE_WRAP_T`.
pub const TEXTURE_WRAP_T: u32 = 0x2803;

/// The value of `gl::CLAMP_TO_EDGE`.
pub const CLAMP_TO_EDGE: u32 = 0x812F;

/// The value of `gl::RENDERBUFFER`.
pub const RENDERBUFFER: u32 = 0x8D41;

/// The value of `gl::DEPTH_COMPONENT`.
pub const DEPTH_COMPONENT: u32 = 0x1902;

/// The value of `gl::DEPTH_ATTACHMENT`.
pub const DEPTH_ATTACHMENT: u32 = 0x8D00;

/// The value of `gl::COLOR_ATTACHMENT0`.
pub const COLOR_ATTACHMENT0: u32 = 0x8CE0;

/// The value of `gl::MULTISAMPLE`.
pub const MULTISAMPLE: u32 = 0x809D;

/// The value of `gl::COLOR_BUFFER_BIT`.
pub const COLOR_BUFFER_BIT: u32 = 0x4000;

/// The value of `gl::DEPTH_BUFFER_BIT`.
pub const DEPTH_BUFFER_BIT: u32 = 0x100;

/// The value of `gl::ELEMENT_ARRAY_BUFFER`.
pub const ELEMENT_ARRAY_BUFFER: u32 = 0x8893;

/// The value of `gl::ARRAY_BUFFER`.
pub const ARRAY_BUFFER: u32 = 0x8892;

/// The value of `gl::VERTEX_SHADER`.
pub const VERTEX_SHADER: u32 = 0x8B31;

/// The value of `gl::FRAGMENT_SHADER`.
pub const FRAGMENT_SHADER: u32 = 0x8B30;

/// The value of `gl::STATIC_DRAW`.
pub const STATIC_DRAW: u32 = 0x88E4;

/// The value of `gl::FRAMEBUFFER_COMPLETE`.
pub const FRAMEBUFFER_COMPLETE: u32 = 0x8CD5;

/// The value of `gl::FRAMEBUFFER_SRGB`.
pub const FRAMEBUFFER_SRGB: u32 = 0x8DB9;

/// `gl::FLOAT`, which is 0x1406.
#[verifier::external_body]
pub(crate) fn float() -> (value: u32)
    ensures
        value == FLOAT,
{
    gl::FLOAT
}

/// `gl::DOUBLE`, which is 0x140A.
#[verifier::external_body]
pub(crate) fn double() -> (value: u32)
    ensures
        value == DOUBLE,
{
    gl::DOUBLE
}

/// `gl::UNSIGNED_BYTE`, which is 0x1401.
#[verifier::external_body]
pub(crate) fn unsigned_byte() -> (value: u32)
    ensures
        value == UNSIGNED_BYTE,
{
    gl::UNSIGNED_BYTE
}

/// `gl::UNSIGNED_SHORT`, which is 0x1403.
#[verifier::external_body]
pub(crate) fn unsigned_short() -> (value: u32)
    ensures
        value == UNSIGNED_SHORT,
{
    gl::UNSIGNED_SHORT
}

/// `gl::UNSIGNED_INT`, which is 0x1405.
#[verifier::external_body]
pub(crate) fn unsigned_int() -> (value: u32)
    ensures
        value == UNSIGNED_INT,
{
    gl::UNSIGNED_INT
}

/// `gl::POINTS`, which is 0.
#[verifier::external_body]
pub(crate) fn points() -> (value: u32)
    ensures
        value == POINTS,
{
    gl::POINTS
}

/// `gl::LINES`, which is 1.
#[verifier::external_body]
pub(crate) fn lines() -> (value: u32)
    ensures
        value == LINES,
{
    gl::LINES
}

/// `gl::LINE_STRIP`, which is 3.
#[verifier::external_body]
pub(crate) fn line_strip() -> (value: u32)
    ensures
        value == LINE_STRIP,
{
    gl::LINE_STRIP
}

/// `gl::TRIANGLES`, which is 4.
#[verifier::external_body]
pub(crate) fn triangles() -> (value: u32)
    ensures
        value == TRIANGLES,
{
    gl::TRIANGLES
}

/// `gl::TRIANGLE_STRIP`, which is 5.
#[verifier::external_body]
pub(crate) fn triangle_strip() -> (value: u32)
    ensures
        value == TRIANGLE_STRIP,
{
    gl::TRIANGLE_STRIP
}

/// `gl::TRIANGLE_FAN`, which is 6.
#[verifier::external_body]
pub(crate) fn triangle_fan() -> (value: u32)
    ensures
        value == TRIANGLE_FAN,
{
    gl::TRIANGLE_FAN
}

/// `gl::TRUE`, which is 1.
#[verifier::external_body]
pub(crate) fn gl_true() -> (value: u8)
    ensures
        value == TRUE,
{
    gl::TRUE
}

/// `gl::FALSE`, which is 0.
#[verifier::external_body]
pub(crate) fn gl_false() -> (value: u8)
    ensures
        value == FALSE,
{
    gl::FALSE
}

/// `gl::FRAMEBUFFER`, which is 0x8D40.
#[verifier::external_body]
pub(crate) fn framebuffer() -> (value: u32)
    ensures
        value == FRAMEBUFFER,
{
    gl::FRAMEBUFFER
}

/// `gl::TEXTURE_2D`, which is 0x0DE1.
#[verifier::external_body]
pub(crate) fn texture_2d() -> (value: u32)
    ensures
        value == TEXTURE_2D,
{
    gl::TEXTURE_2D
}

/// `gl::RGBA`, which is 0x1908.
#[verifier::external_body]
pub(crate) fn rgba() -> (value: u32)
    ensures
        value == RGBA,
{
    gl::RGBA
}

/// `gl::TEXTURE_MAG_FILTER`, which is 0x2800.
#[verifier::external_body]
pub(crate) fn texture_mag_filter() -> (value: u32)
    ensures
        value == TEXTURE_MAG_FILTER,
{
    gl::TEXTURE_MAG_FILTER
}

/// `gl::TEXTURE_MIN_FILTER`, which is 0x2801.
#[verifier::external_body]
pub(crate) fn texture_min_filter() -> (value: u32)
    ensures
        value == TEXTURE_MIN_FILTER,
{
    gl::TEXTURE_MIN_FILTER
}

/// `gl::NEAREST`, which is 0x2600.
#[verifier::external_body]
pub(crate) fn nearest() -> (value: u32)
    ensures
        value == NEAREST,
{
    gl::NEAREST
}

/// `gl::TEXTURE_WRAP_S`, which is 0x2802.
#[verifier::external_body]
pub(crate) fn texture_wrap_s() -> (value: u32)
    ensures
        value == TEXTURE_WRAP_S,
{
    gl::TEXTURE_WRAP_S
}

/// `gl::TEXTURE_WRAP_T`, which is 0x2803.
#[verifier::external_body]
pub(crate) fn texture_wrap_t() -> (value: u32)
    ensures
        value == TEXTURE_WRAP_T,
{
    gl::TEXTURE_WRAP_T
}

/// `gl::CLAMP_TO_EDGE`, which is 0x812F.
#[verifier::external_body]
pub(crate) fn clamp_to_edge() -> (value: u32)
    ensures
        value == CLAMP_TO_EDGE,
{
    gl::CLAMP_TO_EDGE
}

/// `gl::RENDERBUFFER`, which is 0x8D41.
#[verifier::external_body]
pub(crate) fn renderbuffer() -> (value: u32)
    ensures
        value == RENDERBUFFER,
{
    gl::RENDERBUFFER
}

/// `gl::DEPTH_COMPONENT`, which is 0x1902.
#[verifier::external_body]
pub(crate) fn depth_component() -> (value: u32)
    ensures
        value == DEPTH_COMPONENT,
{
    gl::DEPTH_COMPONENT
}

/// `gl::DEPTH_ATTACHMENT`, which is 0x8D00.
#[verifier::external_body]
pub(crate) fn depth_attachment() -> (value: u32)
    ensures
        value == DEPTH_ATTACHMENT,
{
    gl::DEPTH_ATTACHMENT
}

/// `gl::COLOR_ATTACHMENT0`, which is 0x8CE0.
#[verifier::external_body]
pub(crate) fn color_attachment0() -> (value: u32)
    ensures
        value == COLOR_ATTACHMENT0,
{
    gl::COLOR_ATTACHMENT0
}

/// `gl::MULTISAMPLE`, which is 0x809D.
#[verifier::external_body]
pub(crate) fn multisample() -> (value: u32)
    ensures
        value == MULTISAMPLE,
{
    gl::MULTISAMPLE
}

/// `gl::COLOR_BUFFER_BIT`, which is 0x4000.
#[verifier::external_body]
pub(crate) fn color_buffer_bit() -> (value: u32)
    ensures
        value == COLOR_BUFFER_BIT,
{
    gl::COLOR_BUFFER_BIT
}

/// `gl::DEPTH_BUFFER_BIT`, which is 0x100.
#[verifier::external_body]
pub(crate) fn depth_buffer_bit() -> (value: u32)
    ensures
        value == DEPTH_BUFFER_BIT,
{
    gl::DEPTH_BUFFER_BIT
}

/// `gl::ELEMENT_ARRAY_BUFFER`, which is 0x8893.
#[verifier::external_body]
pub(crate) fn element_array_buffer() -> (value: u32)
    ensures
        value == ELEMENT_ARRAY_BUFFER,
{
    gl::ELEMENT_ARRAY_BUFFER
}

/// `gl::ARRAY_BUFFER`, which is 0x8892.
#[verifier::external_body]
pub(crate) fn array_buffer() -> (value: u32)
    ensures
        value == ARRAY_BUFFER,
{
    gl::ARRAY_BUFFER
}

/// `gl::VERTEX_SHADER`, which is 0x8B31.
#[verifier::external_body]
pub(crate) fn vertex_shader() -> (value: u32)
    ensures
        value == VERTEX_SHADER,
{
    gl::VERTEX_SHADER
}

/// `gl::FRAGMENT_SHADER`, which is 0x8B30.
#[verifier::external_body]
pub(crate) fn fragment_shader() -> (value: u32)
    ensures
        value == FRAGMENT_SHADER,
{
    gl::FRAGMENT_SHADER
}

/// `gl::STATIC_DRAW`, which is 0x88E4.
#[verifier::external_body]
pub(crate) fn static_draw() -> (value: u32)
    ensures
        value == STATIC_DRAW,
{
    gl::STATIC_DRAW
}

/// `gl::FRAMEBUFFER_COMPLETE`, which is 0x8CD5.
#[verifier::external_body]
pub(crate) fn framebuffer_complete() -> (value: u32)
    ensures
        value == FRAMEBUFFER_COMPLETE,
{
    gl::FRAMEBUFFER_COMPLETE
}

/// `gl::FRAMEBUFFER_SRGB`, which is 0x8DB9.
#[verifier::external_body]
pub(crate) fn framebuffer_srgb() -> (value: u32)
    ensures
        value == FRAMEBUFFER_SRGB,
{
    gl::FRAMEBUFFER_SRGB
}

/// Whether the context is one of OpenGL ES, as `Gl::get_type` tells.
pub uninterp spec fn context_is_gles(ctx: GlContext) -> bool;

/// `Gl::get_type`: whether the context is one of OpenGL ES or of desktop
/// OpenGL.
#[verifier::external_body]
fn raw_is_gles(ctx: &GlContext) -> (gles: bool)
    ensures
        gles == context_is_gles(*ctx),
{
    match ctx.gl.get_type() {
        gl::GlType::Gles => true,
        gl::GlType::Gl => false,
    }
}

/// `Gl::get_attrib_location`: the location of the attribute `name` of a
/// linked program, as the driver reports it. The name is handed over as a
/// C string; a NUL character in it makes the call panic, which `requires`
/// rules out.
#[verifier::external_body]
fn raw_get_attrib_location(ctx: &GlContext, program: u32, name: &str) -> (location: i32)
    requires
        !name@.contains('\0'),
{
    ctx.gl.get_attrib_location(program, name)
}

/// `Gl::get_uniform_location`: the location of the uniform `name` of a
/// linked program, as the driver reports it. The name is handed over as a
/// C string; a NUL character in it makes the call panic, which `requires`
/// rules out.
#[verifier::external_body]
fn raw_get_uniform_location(ctx: &GlContext, program: u32, name: &str) -> (location: i32)
    requires
        !name@.contains('\0'),
{
    ctx.gl.get_uniform_location(program, name)
}

/// `Gl::vertex_attrib_pointer`: tells the driver where an attribute lies
/// in the bound vertex buffer.
#[verifier::external_body]
fn raw_vertex_attrib_pointer(
    ctx: &GlContext,
    index: u32,
    size: i32,
    type_: u32,
    normalized: bool,
    stride: i32,
    offset: u32,
) {
    ctx.gl.vertex_attrib_pointer(index, size, type_, normalized, stride, offset)
}

/// `Gl::enable_vertex_attrib_array`: switches an attribute array on.
#[verifier::external_body]
fn raw_enable_vertex_attrib_array(ctx: &GlContext, index: u32) {
    ctx.gl.enable_vertex_attrib_array(index)
}

/// `Gl::disable_vertex_attrib_array`: switches an attribute array off.
#[verifier::external_body]
fn raw_disable_vertex_attrib_array(ctx: &GlContext, index: u32) {
    ctx.gl.disable_vertex_attrib_array(index)
}

/// `Gl::gen_vertex_arrays`: asks the driver for `n` names of vertex array
/// objects. The count must not be negative: the names are written into a
/// vector of that length.
#[verifier::external_body]
fn raw_gen_vertex_arrays(ctx: &GlContext, n: i32) -> (names: Vec<u32>)
    requires
        0 <= n,
{
    ctx.gl.gen_vertex_arrays(n)
}

/// `Gl::gen_buffers`: asks the driver for `n` names of buffers. The count must
/// not be negative: the names are written into a vector of that length.
#[verifier::external_body]
fn raw_gen_buffers(ctx: &GlContext, n: i32) -> (names: Vec<u32>)
    requires
        0 <= n,
{
    ctx.gl.gen_buffers(n)
}

/// `Gl::gen_textures`: asks the driver for `n` names of textures. The count must
/// not be negative: the names are written into a vector of that length.
#[verifier::external_body]
fn raw_gen_textures(ctx: &GlContext, n: i32) -> (names: Vec<u32>)
    requires
        0 <= n,
{
    ctx.gl.gen_textures(n)
}

/// `Gl::gen_framebuffers`: asks the driver for `n` names of framebuffers. The count must
/// not be negative: the names are written into a vector of that length.
#[verifier::external_body]
fn raw_gen_framebuffers(ctx: &GlContext, n: i32) -> (names: Vec<u32>)
    requires
        0 <= n,
{
    ctx.gl.gen_framebuffers(n)
}

/// `Gl::gen_renderbuffers`: asks the driver for `n` names of renderbuffers. The count must
/// not be negative: the names are written into a vector of that length.
#[verifier::external_body]
fn raw_gen_renderbuffers(ctx: &GlContext, n: i32) -> (names: Vec<u32>)
    requires
        0 <= n,
{
    ctx.gl.gen_renderbuffers(n)
}

/// `Gl::bind_vertex_array`: binds a vertex array object.
#[verifier::external_body]
fn raw_bind_vertex_array(ctx: &GlContext, vao: u32) {
    ctx.gl.bind_vertex_array(vao)
}

/// `Gl::bind_buffer`: binds a buffer to a target.
#[verifier::external_body]
fn raw_bind_buffer(ctx: &GlContext, target: u32, buffer: u32) {
    ctx.gl.bind_buffer(target, buffer)
}

/// `Gl::bind_framebuffer`: binds a framebuffer to a target.
#[verifier::external_body]
fn raw_bind_framebuffer(ctx: &GlContext, target: u32, framebuffer: u32) {
    ctx.gl.bind_framebuffer(target, framebuffer)
}

/// `Gl::bind_texture`: binds a texture to a target.
#[verifier::external_body]
fn raw_bind_texture(ctx: &GlContext, target: u32, texture: u32) {
    ctx.gl.bind_texture(target, texture)
}

/// `Gl::bind_renderbuffer`: binds a renderbuffer to a target.
#[verifier::external_body]
fn raw_bind_renderbuffer(ctx: &GlContext, target: u32, renderbuffer: u32) {
    ctx.gl.bind_renderbuffer(target, renderbuffer)
}

/// `Gl::create_shader`: asks the driver for a new shader object.
#[verifier::external_body]
fn raw_create_shader(ctx: &GlContext, shader_type: u32) -> (id: u32) {
    ctx.gl.create_shader(shader_type)
}

/// `Gl::compile_shader`: compiles the source of a shader.
#[verifier::external_body]
fn raw_compile_shader(ctx: &GlContext, shader: u32) {
    ctx.gl.compile_shader(shader)
}

/// `Gl::delete_shader`: deletes a shader object.
#[verifier::external_body]
fn raw_delete_shader(ctx: &GlContext, shader: u32) {
    ctx.gl.delete_shader(shader)
}

/// `Gl::create_program`: asks the driver for a new program object.
#[verifier::external_body]
fn raw_create_program(ctx: &GlContext) -> (id: u32) {
    ctx.gl.create_program()
}

/// `Gl::attach_shader`: attaches a shader to a program.
#[verifier::external_body]
fn raw_attach_shader(ctx: &GlContext, program: u32, shader: u32) {
    ctx.gl.attach_shader(program, shader)
}

/// `Gl::link_program`: links a program.
#[verifier::external_body]
fn raw_link_program(ctx: &GlContext, program: u32) {
    ctx.gl.link_program(program)
}

/// `Gl::delete_program`: deletes a program object.
#[verifier::external_body]
fn raw_delete_program(ctx: &GlContext, program: u32) {
    ctx.gl.delete_program(program)
}

/// `Gl::tex_parameter_i`: sets a parameter of the bound texture.
#[verifier::external_body]
fn raw_tex_parameter_i(ctx: &GlContext, target: u32, pname: u32, param: i32) {
    ctx.gl.tex_parameter_i(target, pname, param)
}

/// `Gl::renderbuffer_storage`: allocates the storage of the bound
/// renderbuffer.
#[verifier::external_body]
fn raw_renderbuffer_storage(
    ctx: &GlContext,
    target: u32,
    internalformat: u32,
    width: i32,
    height: i32,
) {
    ctx.gl.renderbuffer_storage(target, internalformat, width, height)
}

/// `Gl::framebuffer_renderbuffer`: attaches a renderbuffer to the bound
/// framebuffer.
#[verifier::external_body]
fn raw_framebuffer_renderbuffer(
    ctx: &GlContext,
    target: u32,
    attachment: u32,
    renderbuffertarget: u32,
    renderbuffer: u32,
) {
    ctx.gl.framebuffer_renderbuffer(target, attachment, renderbuffertarget, renderbuffer)
}

/// `Gl::framebuffer_texture_2d`: attaches a texture to the bound framebuffer.
#[verifier::external_body]
fn raw_framebuffer_texture_2d(
    ctx: &GlContext,
    target: u32,
    attachment: u32,
    textarget: u32,
    texture: u32,
    level: i32,
) {
    ctx.gl.framebuffer_texture_2d(target, attachment, textarget, texture, level)
}

/// `Gl::viewport`: sets the viewport.
#[verifier::external_body]
fn raw_viewport(ctx: &GlContext, x: i32, y: i32, width: i32, height: i32) {
    ctx.gl.viewport(x, y, width, height)
}

/// `Gl::check_frame_buffer_status`: the state of the bound framebuffer, as
/// the driver reports it.
#[verifier::external_body]
fn raw_check_frame_buffer_status(ctx: &GlContext, target: u32) -> (status: u32) {
    ctx.gl.check_frame_buffer_status(target)
}

/// `Gl::use_program`: makes a program the current one.
#[verifier::external_body]
fn raw_use_program(ctx: &GlContext, program: u32) {
    ctx.gl.use_program(program)
}

/// `Gl::enable`: switches a capability on.
#[verifier::external_body]
fn raw_enable(ctx: &GlContext, cap: u32) {
    ctx.gl.enable(cap)
}

/// `Gl::disable`: switches a capability off.
#[verifier::external_body]
fn raw_disable(ctx: &GlContext, cap: u32) {
    ctx.gl.disable(cap)
}

/// `Gl::clear`: clears the buffers that the mask names.
#[verifier::external_body]
fn raw_clear(ctx: &GlContext, buffer_mask: u32) {
    ctx.gl.clear(buffer_mask)
}

/// `Gl::uniform_1i`: sets an integer uniform.
#[verifier::external_body]
fn raw_uniform_1i(ctx: &GlContext, location: i32, v0: i32) {
    ctx.gl.uniform_1i(location, v0)
}

/// `Gl::uniform_2i`: sets an integer uniform of two components.
#[verifier::external_body]
fn raw_uniform_2i(ctx: &GlContext, location: i32, v0: i32, v1: i32) {
    ctx.gl.uniform_2i(location, v0, v1)
}

/// `Gl::uniform_3i`: sets an integer uniform of three components.
#[verifier::external_body]
fn raw_uniform_3i(ctx: &GlContext, location: i32, v0: i32, v1: i32, v2: i32) {
    ctx.gl.uniform_3i(location, v0, v1, v2)
}

/// `Gl::uniform_4i`: sets an integer uniform of four components.
#[verifier::external_body]
fn raw_uniform_4i(ctx: &GlContext, location: i32, x: i32, y: i32, z: i32, w: i32) {
    ctx.gl.uniform_4i(location, x, y, z, w)
}

/// `Gl::uniform_1ui`: sets an unsigned uniform.
/// The context must not be one of OpenGL ES: there gleam has no such
/// call and panics.
#[verifier::external_body]
fn raw_uniform_1ui(ctx: &GlContext, location: i32, v0: u32)
    requires
        !context_is_gles(*ctx),
{
    ctx.gl.uniform_1ui(location, v0)
}

/// `Gl::uniform_2ui`: sets an unsigned uniform of two components.
/// The context must not be one of OpenGL ES: there gleam has no such
/// call and panics.
#[verifier::external_body]
fn raw_uniform_2ui(ctx: &GlContext, location: i32, v0: u32, v1: u32)
    requires
        !context_is_gles(*ctx),
{
    ctx.gl.uniform_2ui(location, v0, v1)
}

/// `Gl::uniform_3ui`: sets an unsigned uniform of three components.
/// The context must not be one of OpenGL ES: there gleam has no such
/// call and panics.
#[verifier::external_body]
fn raw_uniform_3ui(ctx: &GlContext, location: i32, v0: u32, v1: u32, v2: u32)
    requires
        !context_is_gles(*ctx),
{
    ctx.gl.uniform_3ui(location, v0, v1, v2)
}

/// `Gl::uniform_4ui`: sets an unsigned uniform of four components.
/// The context must not be one of OpenGL ES: there gleam has no such
/// call and panics.
#[verifier::external_body]
fn raw_uniform_4ui(ctx: &GlContext, location: i32, x: u32, y: u32, z: u32, w: u32)
    requires
        !context_is_gles(*ctx),
{
    ctx.gl.uniform_4ui(location, x, y, z, w)
}

/// `Gl::draw_elements`: draws the elements of the bound index buffer.
#[verifier::external_body]
fn raw_draw_elements(
    ctx: &GlContext,
    mode: u32,
    count: i32,
    element_type: u32,
    indices_offset: u32,
) {
    ctx.gl.draw_elements(mode, count, element_type, indices_offset)
}

/// `Gl::delete_vertex_arrays`: deletes vertex array objects.
#[verifier::external_body]
fn raw_delete_vertex_arrays(ctx: &GlContext, vertex_arrays: &Vec<u32>) {
    ctx.gl.delete_vertex_arrays(vertex_arrays)
}

/// `Gl::delete_buffers`: deletes buffers.
#[verifier::external_body]
fn raw_delete_buffers(ctx: &GlContext, buffers: &Vec<u32>) {
    ctx.gl.delete_buffers(buffers)
}

/// `Gl::delete_renderbuffers`: deletes renderbuffers.
#[verifier::external_body]
fn raw_delete_renderbuffers(ctx: &GlContext, renderbuffers: &Vec<u32>) {
    ctx.gl.delete_renderbuffers(renderbuffers)
}

/// `Gl::delete_framebuffers`: deletes framebuffers.
#[verifier::external_body]
fn raw_delete_framebuffers(ctx: &GlContext, framebuffers: &Vec<u32>) {
    ctx.gl.delete_framebuffers(framebuffers)
}

/// `Gl::delete_textures`: deletes textures.
#[verifier::external_body]
fn raw_delete_textures(ctx: &GlContext, textures: &Vec<u32>) {
    ctx.gl.delete_textures(textures)
}

/// `Gl::draw_buffers`: names the color buffers that are drawn into.
#[verifier::external_body]
fn raw_draw_buffers(ctx: &GlContext, bufs: &Vec<u32>) {
    ctx.gl.draw_buffers(bufs)
}

/// `Gl::shader_source`: gives a shader its source, one string of bytes.
#[verifier::external_body]
fn raw_shader_source(ctx: &GlContext, shader: u32, source: &Vec<u8>) {
    ctx.gl.shader_source(shader, &[source.as_slice()])
}

/// `Gl::tex_image_2d` without pixel data: allocates the storage of the
/// bound texture.
#[verifier::external_body]
fn raw_tex_image_2d(
    ctx: &GlContext,
    target: u32,
    level: i32,
    internal_format: i32,
    width: i32,
    height: i32,
    border: i32,
    format: u32,
    ty: u32,
) {
    ctx.gl.tex_image_2d(target, level, internal_format, width, height, border, format, ty, None)
}

/// `gleam::gl::buffer_data`: uploads the items of `data` into the buffer
/// that is bound to `target`.
#[verifier::external_body]
fn raw_buffer_data<T>(ctx: &GlContext, target: u32, data: &[T], usage: u32) {
    gl::buffer_data(&*ctx.gl, target, data, usage)
}

/// One call into the driver: its arguments and, where the driver answers,
/// the answer. Of the names that the driver generates, the first is kept,
/// or 0 if the driver gave none.
#[allow(inconsistent_fields)]
pub enum GlCall {
    GetAttribLocation { program: u32, name: Seq<char>, location: i32 },
    GetUniformLocation { program: u32, name: Seq<char>, location: i32 },
    VertexAttribPointer {
        index: u32,
        size: i32,
        type_: u32,
        normalized: bool,
        stride: i32,
        offset: u32,
    },
    EnableVertexAttribArray { index: u32 },
    DisableVertexAttribArray { index: u32 },
    GenVertexArrays { n: i32, name: u32 },
    GenBuffers { n: i32, name: u32 },
    GenTextures { n: i32, name: u32 },
    GenFramebuffers { n: i32, name: u32 },
    GenRenderbuffers { n: i32, name: u32 },
    BindVertexArray { vao: u32 },
    BindBuffer { target: u32, buffer: u32 },
    BindFramebuffer { target: u32, framebuffer: u32 },
    BindTexture { target: u32, texture: u32 },
    BindRenderbuffer { target: u32, renderbuffer: u32 },
    CreateShader { shader_type: u32, id: u32 },
    CompileShader { shader: u32 },
    DeleteShader { shader: u32 },
    CreateProgram { id: u32 },
    AttachShader { program: u32, shader: u32 },
    LinkProgram { program: u32 },
    DeleteProgram { program: u32 },
    TexParameterI { target: u32, pname: u32, param: i32 },
    RenderbufferStorage { target: u32, internalformat: u32, width: i32, height: i32 },
    FramebufferRenderbuffer {
        target: u32,
        attachment: u32,
        renderbuffertarget: u32,
        renderbuffer: u32,
    },
    FramebufferTexture2d { target: u32, attachment: u32, textarget: u32, texture: u32, level: i32 },
    Viewport { x: i32, y: i32, width: i32, height: i32 },
    CheckFrameBufferStatus { target: u32, status: u32 },
    UseProgram { program: u32 },
    Enable { cap: u32 },
    Disable { cap: u32 },
    Clear { buffer_mask: u32 },
    Uniform1i { location: i32, v0: i32 },
    Uniform2i { location: i32, v0: i32, v1: i32 },
    Uniform3i { location: i32, v0: i32, v1: i32, v2: i32 },
    Uniform4i { location: i32, x: i32, y: i32, z: i32, w: i32 },
    Uniform1ui { location: i32, v0: u32 },
    Uniform2ui { location: i32, v0: u32, v1: u32 },
    Uniform3ui { location: i32, v0: u32, v1: u32, v2: u32 },
    Uniform4ui { location: i32, x: u32, y: u32, z: u32, w: u32 },
    DrawElements { mode: u32, count: i32, element_type: u32, indices_offset: u32 },
    DeleteVertexArrays { vertex_arrays: Seq<u32> },
    DeleteBuffers { buffers: Seq<u32> },
    DeleteRenderbuffers { renderbuffers: Seq<u32> },
    DeleteFramebuffers { framebuffers: Seq<u32> },
    DeleteTextures { textures: Seq<u32> },
    DrawBuffers { bufs: Seq<u32> },
    ShaderSource { shader: u32, source: Seq<u8> },
    TexImage2d {
        target: u32,
        level: i32,
        internal_format: i32,
        width: i32,
        height: i32,
        border: i32,
        format: u32,
        ty: u32,
    },
    BufferData { target: u32, count: nat, usage: u32 },
}

/// An OpenGL context together with the account of the calls that were
/// made through it.
pub struct GlDriver {
    context: GlContext,
    calls: Ghost<Seq<GlCall>>,
}

impl GlDriver {
    /// The context that the calls go to.
    pub closed spec fn context(&self) -> GlContext {
        self.context
    }

    /// The calls that were made through this driver, oldest first.
    pub closed spec fn calls(&self) -> Seq<GlCall> {
        self.calls@
    }

    /// A driver for `context` through which no call was made yet.
    pub fn new(context: GlContext) -> (driver: GlDriver)
        ensures
            driver.context() == context,
            driver.calls() == Seq::<GlCall>::empty(),
    {
        GlDriver { context, calls: Ghost(Seq::empty()) }
    }

    /// The context that the calls go to.
    pub fn gl_context(&self) -> (context: &GlContext)
        ensures
            *context == self.context(),
    {
        &self.context
    }

    /// Whether the context is one of OpenGL ES. The answer is that of the
    /// object that stands for the driver; no call goes to the GPU.
    pub fn is_gles(&self) -> (gles: bool)
        ensures
            gles == context_is_gles(self.context()),
    {
        raw_is_gles(&self.context)
    }

    /// Makes the call `Gl::get_attrib_location`. The name must not hold a NUL
    /// character.
    pub fn get_attrib_location(&mut self, program: u32, name: &str) -> (location: i32)
        requires
            !name@.contains('\0'),
        ensures
            final(self).context() == old(self).context(),
            final(self).calls() == old(self).calls().push(
                GlCall::GetAttribLocation { program, name: name@, location },
            ),
    {
        let location = raw_get_attrib_location(&self.context, program, name);
        proof {
            self.calls@ = self.calls@.push(
                GlCall::GetAttribLocation { program, name: name@, location },
            );
        }
        location
    }

    /// Makes the call `Gl::get_uniform_location`. The name must not hold a NUL
    /// character.
    pub fn get_uniform_location(&mut self, program: u32, name: &str) -> (location: i32)
        requires
            !name@.contains('\0'),
        ensures
            final(self).context() == old(self).context(),
            final(self).calls() == old(self).calls().push(
                GlCall::GetUniformLocation { program, name: name@, location },
            ),
    {
        let location = raw_get_uniform_location(&self.context, program, name);
        proof {
            self.calls@ = self.calls@.push(
                GlCall::GetUniformLocation { program, name: name@, location },
            );
        }
        location
    }

    /// Makes the call `Gl::vertex_attrib_pointer`.
    pub fn vertex_attrib_pointer(
        &mut self,
        index: u32,
        size: i32,
        type_: u32,
        normalized: bool,
        stride: i32,
        offset: u32,
    )
        ensures
            final(self).context() == old(self).context(),
            final(self).calls() == old(self).calls().push(
                GlCall::VertexAttribPointer {
                    index,
                    size,
                    type_,
                    normalized,
                    stride,
                    offset,
                },
            ),
    {
        raw_vertex_attrib_pointer(&self.context, index, size, type_, normalized, stride, offset);
        proof {
            self.calls@ = self.calls@.push(
                GlCall::VertexAttribPointer {
                    index,
                    size,
                    type_,
                    normalized,
                    stride,
                    offset,
                },
            );
        }
    }

    /// Makes the call `Gl::enable_vertex_attrib_array`.
    pub fn enable_vertex_attrib_array(&mut self, index: u32)
        ensures
            final(self).context() == old(self).context(),
            final(self).calls() == old(self).calls().push(
                GlCall::EnableVertexAttribArray { index },
            ),
    {
        raw_enable_vertex_attrib_array(&self.context, index);
        proof {
            self.calls@ = self.calls@.push(GlCall::EnableVertexAttribArray { index });
        }
    }

    /// Makes the call `Gl::disable_vertex_attrib_array`.
    pub fn disable_vertex_attrib_array(&mut self, index: u32)
        ensures
            final(self).context() == old(self).context(),
            final(self).calls() == old(self).calls().push(
                GlCall::DisableVertexAttribArray { index },
            ),
    {
        raw_disable_vertex_attrib_array(&self.context, index);
        proof {
            self.calls@ = self.calls@.push(GlCall::DisableVertexAttribArray { index });
        }
    }

    /// Makes the call `Gl::gen_vertex_arrays` and hands out the first name that the
    /// driver gave, or 0 if it gave none. The count must not be negative.
    pub fn gen_vertex_arrays(&mut self, n: i32) -> (name: u32)
        requires
            0 <= n,
        ensures
            final(self).context() == old(self).context(),
            final(self).calls() == old(self).calls().push(GlCall::GenVertexArrays { n, name }),
    {
        let names = raw_gen_vertex_arrays(&self.context, n);
        let name = if names.len() > 0 {
            names[0]
        } else {
            0
        };
        proof {
            self.calls@ = self.calls@.push(GlCall::GenVertexArrays { n, name });
        }
        name
    }

    /// Makes the call `Gl::gen_buffers` and hands out the first name that the
    /// driver gave, or 0 if it gave none. The count must not be negative.
    pub fn gen_buffers(&mut self, n: i32) -> (name: u32)
        requires
            0 <= n,
        ensures
            final(self).context() == old(self).context(),
            final(self).calls() == old(self).calls().push(GlCall::GenBuffers { n, name }),
    {
        let names = raw_gen_buffers(&self.context, n);
        let name = if names.len() > 0 {
            names[0]
        } else {
            0
        };
        proof {
            self.calls@ = self.calls@.push(GlCall::GenBuffers { n, name });
        }
        name
    }

    /// Makes the call `Gl::gen_textures` and hands out the first name that the
    /// driver gave, or 0 if it gave none. The count must not be negative.
    pub fn gen_textures(&mut self, n: i32) -> (name: u32)
        requires
            0 <= n,
        ensures
            final(self).context() == old(self).context(),
            final(self).calls() == old(self).calls().push(GlCall::GenTextures { n, name }),
    {
        let names = raw_gen_textures(&self.context, n);
        let name = if names.len() > 0 {
            names[0]
        } else {
            0
        };
        proof {
            self.calls@ = self.calls@.push(GlCall::GenTextures { n, name });
        }
        name
    }

    /// Makes the call `Gl::gen_framebuffers` and hands out the first name that the
    /// driver gave, or 0 if it gave none. The count must not be negative.
    pub fn gen_framebuffers(&mut self, n: i32) -> (name: u32)
        requires
            0 <= n,
        ensures
            final(self).context() == old(self).context(),
            final(self).calls() == old(self).calls().push(GlCall::GenFramebuffers { n, name }),
    {
        let names = raw_gen_framebuffers(&self.context, n);
        let name = if names.len() > 0 {
            names[0]
        } else {
            0
        };
        proof {
            self.calls@ = self.calls@.push(GlCall::GenFramebuffers { n, name });
        }
        name
    }

    /// Makes the call `Gl::gen_renderbuffers` and hands out the first name that the
    /// driver gave, or 0 if it gave none. The count must not be negative.
    pub fn gen_renderbuffers(&mut self, n: i32) -> (name: u32)
        requires
            0 <= n,
        ensures
            final(self).context() == old(self).context(),
            final(self).calls() == old(self).calls().push(GlCall::GenRenderbuffers { n, name }),
    {
        let names = raw_gen_renderbuffers(&self.context, n);
        let name = if names.len() > 0 {
            names[0]
        } else {
            0
        };
        proof {
            self.calls@ = self.calls@.push(GlCall::GenRenderbuffers { n, name });
        }
        name
    }

    /// Makes the call `Gl::bind_vertex_array`.
    pub fn bind_vertex_array(&mut self, vao: u32)
        ensures
            final(self).context() == old(self).context(),
            final(self).calls() == old(self).calls().push(GlCall::BindVertexArray { vao }),
    {
        raw_bind_vertex_array(&self.context, vao);
        proof {
            self.calls@ = self.calls@.push(GlCall::BindVertexArray { vao });
        }
    }

    /// Makes the call `Gl::bind_buffer`.
    pub fn bind_buffer(&mut self, target: u32, buffer: u32)
        ensures
            final(self).context() == old(self).context(),
            final(self).calls() == old(self).calls().push(GlCall::BindBuffer { target, buffer }),
    {
        raw_bind_buffer(&self.context, target, buffer);
        proof {
            self.calls@ = self.calls@.push(GlCall::BindBuffer { target, buffer });
        }
    }

    /// Makes the call `Gl::bind_framebuffer`.
    pub fn bind_framebuffer(&mut self, target: u32, framebuffer: u32)
        ensures
            final(self).context() == old(self).context(),
            final(self).calls() == old(self).calls().push(
                GlCall::BindFramebuffer { target, framebuffer },
            ),
    {
        raw_bind_framebuffer(&self.context, target, framebuffer);
        proof {
            self.calls@ = self.calls@.push(GlCall::BindFramebuffer { target, framebuffer });
        }
    }

    /// Makes the call `Gl::bind_texture`.
    pub fn bind_texture(&mut self, target: u32, texture: u32)
        ensures
            final(self).context() == old(self).context(),
            final(self).calls() == old(self).calls().push(GlCall::BindTexture { target, texture }),
    {
        raw_bind_texture(&self.context, target, texture);
        proof {
            self.calls@ = self.calls@.push(GlCall::BindTexture { target, texture });
        }
    }

    /// Makes the call `Gl::bind_renderbuffer`.
    pub fn bind_renderbuffer(&mut self, target: u32, renderbuffer: u32)
        ensures
            final(self).context() == old(self).context(),
            final(self).calls() == old(self).calls().push(
                GlCall::BindRenderbuffer { target, renderbuffer },
            ),
    {
        raw_bind_renderbuffer(&self.context, target, renderbuffer);
        proof {
            self.calls@ = self.calls@.push(GlCall::BindRenderbuffer { target, renderbuffer });
        }
    }

    /// Makes the call `Gl::create_shader`.
    pub fn create_shader(&mut self, shader_type: u32) -> (id: u32)
        ensures
            final(self).context() == old(self).context(),
            final(self).calls() == old(self).calls().push(
                GlCall::CreateShader { shader_type, id },
            ),
    {
        let id = raw_create_shader(&self.context, shader_type);
        proof {
            self.calls@ = self.calls@.push(GlCall::CreateShader { shader_type, id });
        }
        id
    }

    /// Makes the call `Gl::compile_shader`.
    pub fn compile_shader(&mut self, shader: u32)
        ensures
            final(self).context() == old(self).context(),
            final(self).calls() == old(self).calls().push(GlCall::CompileShader { shader }),
    {
        raw_compile_shader(&self.context, shader);
        proof {
            self.calls@ = self.calls@.push(GlCall::CompileShader { shader });
        }
    }

    /// Makes the call `Gl::delete_shader`.
    pub fn delete_shader(&mut self, shader: u32)
        ensures
            final(self).context() == old(self).context(),
            final(self).calls() == old(self).calls().push(GlCall::DeleteShader { shader }),
    {
        raw_delete_shader(&self.context, shader);
        proof {
            self.calls@ = self.calls@.push(GlCall::DeleteShader { shader });
        }
    }

    /// Makes the call `Gl::create_program`.
    pub fn create_program(&mut self) -> (id: u32)
        ensures
            final(self).context() == old(self).context(),
            final(self).calls() == old(self).calls().push(GlCall::CreateProgram { id }),
    {
        let id = raw_create_program(&self.context);
        proof {
            self.calls@ = self.calls@.push(GlCall::CreateProgram { id });
        }
        id
    }

    /// Makes the call `Gl::attach_shader`.
    pub fn attach_shader(&mut self, program: u32, shader: u32)
        ensures
            final(self).context() == old(self).context(),
            final(self).calls() == old(self).calls().push(
                GlCall::AttachShader { program, shader },
            ),
    {
        raw_attach_shader(&self.context, program, shader);
        proof {
            self.calls@ = self.calls@.push(GlCall::AttachShader { program, shader });
        }
    }

    /// Makes the call `Gl::link_program`.
    pub fn link_program(&mut self, program: u32)
        ensures
            final(self).context() == old(self).context(),
            final(self).calls() == old(self).calls().push(GlCall::LinkProgram { program }),
    {
        raw_link_program(&self.context, program);
        proof {
            self.calls@ = self.calls@.push(GlCall::LinkProgram { program });
        }
    }

    /// Makes the call `Gl::delete_program`.
    pub fn delete_program(&mut self, program: u32)
        ensures
            final(self).context() == old(self).context(),
            final(self).calls() == old(self).calls().push(GlCall::DeleteProgram { program }),
    {
        raw_delete_program(&self.context, program);
        proof {
            self.calls@ = self.calls@.push(GlCall::DeleteProgram { program });
        }
    }

    /// Makes the call `Gl::tex_parameter_i`.
    pub fn tex_parameter_i(&mut self, target: u32, pname: u32, param: i32)
        ensures
            final(self).context() == old(self).context(),
            final(self).calls() == old(self).calls().push(
                GlCall::TexParameterI { target, pname, param },
            ),
    {
        raw_tex_parameter_i(&self.context, target, pname, param);
        proof {
            self.calls@ = self.calls@.push(GlCall::TexParameterI { target, pname, param });
        }
    }

    /// Makes the call `Gl::renderbuffer_storage`.
    pub fn renderbuffer_storage(
        &mut self,
        target: u32,
        internalformat: u32,
        width: i32,
        height: i32,
    )
        ensures
            final(self).context() == old(self).context(),
            final(self).calls() == old(self).calls().push(
                GlCall::RenderbufferStorage { target, internalformat, width, height },
            ),
    {
        raw_renderbuffer_storage(&self.context, target, internalformat, width, height);
        proof {
            self.calls@ = self.calls@.push(
                GlCall::RenderbufferStorage { target, internalformat, width, height },
            );
        }
    }

    /// Makes the call `Gl::framebuffer_renderbuffer`.
    pub fn framebuffer_renderbuffer(
        &mut self,
        target: u32,
        attachment: u32,
        renderbuffertarget: u32,
        renderbuffer: u32,
    )
        ensures
            final(self).context() == old(self).context(),
            final(self).calls() == old(self).calls().push(
                GlCall::FramebufferRenderbuffer {
                    target,
                    attachment,
                    renderbuffertarget,
                    renderbuffer,
                },
            ),
    {
        raw_framebuffer_renderbuffer(
            &self.context,
            target,
            attachment,
            renderbuffertarget,
            renderbuffer,
        );
        proof {
            self.calls@ = self.calls@.push(
                GlCall::FramebufferRenderbuffer {
                    target,
                    attachment,
                    renderbuffertarget,
                    renderbuffer,
                },
            );
        }
    }

    /// Makes the call `Gl::framebuffer_texture_2d`.
    pub fn framebuffer_texture_2d(
        &mut self,
        target: u32,
        attachment: u32,
        textarget: u32,
        texture: u32,
        level: i32,
    )
        ensures
            final(self).context() == old(self).context(),
            final(self).calls() == old(self).calls().push(
                GlCall::FramebufferTexture2d {
                    target,
                    attachment,
                    textarget,
                    texture,
                    level,
                },
            ),
    {
        raw_framebuffer_texture_2d(&self.context, target, attachment, textarget, texture, level);
        proof {
            self.calls@ = self.calls@.push(
                GlCall::FramebufferTexture2d {
                    target,
                    attachment,
                    textarget,
                    texture,
                    level,
                },
            );
        }
    }

    /// Makes the call `Gl::viewport`.
    pub fn viewport(&mut self, x: i32, y: i32, width: i32, height: i32)
        ensures
            final(self).context() == old(self).context(),
            final(self).calls() == old(self).calls().push(
                GlCall::Viewport { x, y, width, height },
            ),
    {
        raw_viewport(&self.context, x, y, width, height);
        proof {
            self.calls@ = self.calls@.push(GlCall::Viewport { x, y, width, height });
        }
    }

    /// Makes the call `Gl::check_frame_buffer_status`.
    pub fn check_frame_buffer_status(&mut self, target: u32) -> (status: u32)
        ensures
            final(self).context() == old(self).context(),
            final(self).calls() == old(self).calls().push(
                GlCall::CheckFrameBufferStatus { target, status },
            ),
    {
        let status = raw_check_frame_buffer_status(&self.context, target);
        proof {
            self.calls@ = self.calls@.push(GlCall::CheckFrameBufferStatus { target, status });
        }
        status
    }

    /// Makes the call `Gl::use_program`.
    pub fn use_program(&mut self, program: u32)
        ensures
            final(self).context() == old(self).context(),
            final(self).calls() == old(self).calls().push(GlCall::UseProgram { program }),
    {
        raw_use_program(&self.context, program);
        proof {
            self.calls@ = self.calls@.push(GlCall::UseProgram { program });
        }
    }

    /// Makes the call `Gl::enable`.
    pub fn enable(&mut self, cap: u32)
        ensures
            final(self).context() == old(self).context(),
            final(self).calls() == old(self).calls().push(GlCall::Enable { cap }),
    {
        raw_enable(&self.context, cap);
        proof {
            self.calls@ = self.calls@.push(GlCall::Enable { cap });
        }
    }

    /// Makes the call `Gl::disable`.
    pub fn disable(&mut self, cap: u32)
        ensures
            final(self).context() == old(self).context(),
            final(self).calls() == old(self).calls().push(GlCall::Disable { cap }),
    {
        raw_disable(&self.context, cap);
        proof {
            self.calls@ = self.calls@.push(GlCall::Disable { cap });
        }
    }

    /// Makes the call `Gl::clear`.
    pub fn clear(&mut self, buffer_mask: u32)
        ensures
            final(self).context() == old(self).context(),
            final(self).calls() == old(self).calls().push(GlCall::Clear { buffer_mask }),
    {
        raw_clear(&self.context, buffer_mask);
        proof {
            self.calls@ = self.calls@.push(GlCall::Clear { buffer_mask });
        }
    }

    /// Makes the call `Gl::uniform_1i`.
    pub fn uniform_1i(&mut self, location: i32, v0: i32)
        ensures
            final(self).context() == old(self).context(),
            final(self).calls() == old(self).calls().push(GlCall::Uniform1i { location, v0 }),
    {
        raw_uniform_1i(&self.context, location, v0);
        proof {
            self.calls@ = self.calls@.push(GlCall::Uniform1i { location, v0 });
        }
    }

    /// Makes the call `Gl::uniform_2i`.
    pub fn uniform_2i(&mut self, location: i32, v0: i32, v1: i32)
        ensures
            final(self).context() == old(self).context(),
            final(self).calls() == old(self).calls().push(GlCall::Uniform2i { location, v0, v1 }),
    {
        raw_uniform_2i(&self.context, location, v0, v1);
        proof {
            self.calls@ = self.calls@.push(GlCall::Uniform2i { location, v0, v1 });
        }
    }

    /// Makes the call `Gl::uniform_3i`.
    pub fn uniform_3i(&mut self, location: i32, v0: i32, v1: i32, v2: i32)
        ensures
            final(self).context() == old(self).context(),
            final(self).calls() == old(self).calls().push(
                GlCall::Uniform3i { location, v0, v1, v2 },
            ),
    {
        raw_uniform_3i(&self.context, location, v0, v1, v2);
        proof {
            self.calls@ = self.calls@.push(GlCall::Uniform3i { location, v0, v1, v2 });
        }
    }

    /// Makes the call `Gl::uniform_4i`.
    pub fn uniform_4i(&mut self, location: i32, x: i32, y: i32, z: i32, w: i32)
        ensures
            final(self).context() == old(self).context(),
            final(self).calls() == old(self).calls().push(
                GlCall::Uniform4i { location, x, y, z, w },
            ),
    {
        raw_uniform_4i(&self.context, location, x, y, z, w);
        proof {
            self.calls@ = self.calls@.push(GlCall::Uniform4i { location, x, y, z, w });
        }
    }

    /// Makes the call `Gl::uniform_1ui`. The context must not be one of
    /// OpenGL ES, which `is_gles` tells.
    pub fn uniform_1ui(&mut self, location: i32, v0: u32)
        requires
            !context_is_gles(old(self).context()),
        ensures
            final(self).context() == old(self).context(),
            final(self).calls() == old(self).calls().push(GlCall::Uniform1ui { location, v0 }),
    {
        raw_uniform_1ui(&self.context, location, v0);
        proof {
            self.calls@ = self.calls@.push(GlCall::Uniform1ui { location, v0 });
        }
    }

    /// Makes the call `Gl::uniform_2ui`. The context must not be one of
    /// OpenGL ES, which `is_gles` tells.
    pub fn uniform_2ui(&mut self, location: i32, v0: u32, v1: u32)
        requires
            !context_is_gles(old(self).context()),
        ensures
            final(self).context() == old(self).context(),
            final(self).calls() == old(self).calls().push(GlCall::Uniform2ui { location, v0, v1 }),
    {
        raw_uniform_2ui(&self.context, location, v0, v1);
        proof {
            self.calls@ = self.calls@.push(GlCall::Uniform2ui { location, v0, v1 });
        }
    }

    /// Makes the call `Gl::uniform_3ui`. The context must not be one of
    /// OpenGL ES, which `is_gles` tells.
    pub fn uniform_3ui(&mut self, location: i32, v0: u32, v1: u32, v2: u32)
        requires
            !context_is_gles(old(self).context()),
        ensures
            final(self).context() == old(self).context(),
            final(self).calls() == old(self).calls().push(
                GlCall::Uniform3ui { location, v0, v1, v2 },
            ),
    {
        raw_uniform_3ui(&self.context, location, v0, v1, v2);
        proof {
            self.calls@ = self.calls@.push(GlCall::Uniform3ui { location, v0, v1, v2 });
        }
    }

    /// Makes the call `Gl::uniform_4ui`. The context must not be one of
    /// OpenGL ES, which `is_gles` tells.
    pub fn uniform_4ui(&mut self, location: i32, x: u32, y: u32, z: u32, w: u32)
        requires
            !context_is_gles(old(self).context()),
        ensures
            final(self).context() == old(self).context(),
            final(self).calls() == old(self).calls().push(
                GlCall::Uniform4ui { location, x, y, z, w },
            ),
    {
        raw_uniform_4ui(&self.context, location, x, y, z, w);
        proof {
            self.calls@ = self.calls@.push(GlCall::Uniform4ui { location, x, y, z, w });
        }
    }

    /// Makes the call `Gl::draw_elements`.
    pub fn draw_elements(&mut self, mode: u32, count: i32, element_type: u32, indices_offset: u32)
        ensures
            final(self).context() == old(self).context(),
            final(self).calls() == old(self).calls().push(
                GlCall::DrawElements { mode, count, element_type, indices_offset },
            ),
    {
        raw_draw_elements(&self.context, mode, count, element_type, indices_offset);
        proof {
            self.calls@ = self.calls@.push(
                GlCall::DrawElements { mode, count, element_type, indices_offset },
            );
        }
    }

    /// Makes the call `Gl::delete_vertex_arrays`.
    pub fn delete_vertex_arrays(&mut self, vertex_arrays: &Vec<u32>)
        ensures
            final(self).context() == old(self).context(),
            final(self).calls() == old(self).calls().push(
                GlCall::DeleteVertexArrays { vertex_arrays: vertex_arrays@ },
            ),
    {
        raw_delete_vertex_arrays(&self.context, vertex_arrays);
        proof {
            self.calls@ = self.calls@.push(
                GlCall::DeleteVertexArrays { vertex_arrays: vertex_arrays@ },
            );
        }
    }

    /// Makes the call `Gl::delete_buffers`.
    pub fn delete_buffers(&mut self, buffers: &Vec<u32>)
        ensures
            final(self).context() == old(self).context(),
            final(self).calls() == old(self).calls().push(
                GlCall::DeleteBuffers { buffers: buffers@ },
            ),
    {
        raw_delete_buffers(&self.context, buffers);
        proof {
            self.calls@ = self.calls@.push(GlCall::DeleteBuffers { buffers: buffers@ });
        }
    }

    /// Makes the call `Gl::delete_renderbuffers`.
    pub fn delete_renderbuffers(&mut self, renderbuffers: &Vec<u32>)
        ensures
            final(self).context() == old(self).context(),
            final(self).calls() == old(self).calls().push(
                GlCall::DeleteRenderbuffers { renderbuffers: renderbuffers@ },
            ),
    {
        raw_delete_renderbuffers(&self.context, renderbuffers);
        proof {
            self.calls@ = self.calls@.push(
                GlCall::DeleteRenderbuffers { renderbuffers: renderbuffers@ },
            );
        }
    }

    /// Makes the call `Gl::delete_framebuffers`.
    pub fn delete_framebuffers(&mut self, framebuffers: &Vec<u32>)
        ensures
            final(self).context() == old(self).context(),
            final(self).calls() == old(self).calls().push(
                GlCall::DeleteFramebuffers { framebuffers: framebuffers@ },
            ),
    {
        raw_delete_framebuffers(&self.context, framebuffers);
        proof {
            self.calls@ = self.calls@.push(
                GlCall::DeleteFramebuffers { framebuffers: framebuffers@ },
            );
        }
    }

    /// Makes the call `Gl::delete_textures`.
    pub fn delete_textures(&mut self, textures: &Vec<u32>)
        ensures
            final(self).context() == old(self).context(),
            final(self).calls() == old(self).calls().push(
                GlCall::DeleteTextures { textures: textures@ },
            ),
    {
        raw_delete_textures(&self.context, textures);
        proof {
            self.calls@ = self.calls@.push(GlCall::DeleteTextures { textures: textures@ });
        }
    }

    /// Makes the call `Gl::draw_buffers`.
    pub fn draw_buffers(&mut self, bufs: &Vec<u32>)
        ensures
            final(self).context() == old(self).context(),
            final(self).calls() == old(self).calls().push(GlCall::DrawBuffers { bufs: bufs@ }),
    {
        raw_draw_buffers(&self.context, bufs);
        proof {
            self.calls@ = self.calls@.push(GlCall::DrawBuffers { bufs: bufs@ });
        }
    }

    /// Makes the call `Gl::shader_source` with one string of bytes.
    pub fn shader_source(&mut self, shader: u32, source: &Vec<u8>)
        ensures
            final(self).context() == old(self).context(),
            final(self).calls() == old(self).calls().push(
                GlCall::ShaderSource { shader, source: source@ },
            ),
    {
        raw_shader_source(&self.context, shader, source);
        proof {
            self.calls@ = self.calls@.push(GlCall::ShaderSource { shader, source: source@ });
        }
    }

    /// Makes the call `Gl::tex_image_2d` without pixel data.
    pub fn tex_image_2d(
        &mut self,
        target: u32,
        level: i32,
        internal_format: i32,
        width: i32,
        height: i32,
        border: i32,
        format: u32,
        ty: u32,
    )
        ensures
            final(self).context() == old(self).context(),
            final(self).calls() == old(self).calls().push(
                GlCall::TexImage2d {
                    target,
                    level,
                    internal_format,
                    width,
                    height,
                    border,
                    format,
                    ty,
                },
            ),
    {
        raw_tex_image_2d(
            &self.context,
            target,
            level,
            internal_format,
            width,
            height,
            border,
            format,
            ty,
        );
        proof {
            self.calls@ = self.calls@.push(
                GlCall::TexImage2d {
                    target,
                    level,
                    internal_format,
                    width,
                    height,
                    border,
                    format,
                    ty,
                },
            );
        }
    }

    /// Uploads the items of `data` into the buffer that is bound to
    /// `target`, with `gleam::gl::buffer_data`.
    pub fn buffer_data<T>(&mut self, target: u32, data: &[T], usage: u32)
        ensures
            final(self).context() == old(self).context(),
            final(self).calls() == old(self).calls().push(
                GlCall::BufferData { target, count: data@.len(), usage },
            ),
    {
        raw_buffer_data(&self.context, target, data, usage);
        proof {
            self.calls@ = self.calls@.push(GlCall::BufferData { target, count: data@.len(), usage });
        }
    }
}

} // verus!
