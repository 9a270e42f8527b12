//! Frame construction and GPU-resource lifecycle for a retained-mode GUI.
//!
//! From a styled node tree and its layout the library finds the order in
//! which the nodes are painted, the nodes that scroll, and the display
//! list that a rasterizer draws. It keeps the register of the textures
//! that were rendered for a frame until the rasterizer is done with them,
//! and it makes the GPU objects that such textures are rendered with.
//!
//! All lengths are fixed-point numbers, in thousandths of a pixel. The
//! library does no floating-point arithmetic.

pub mod css;
pub mod display_list;
pub mod font_loading;
pub mod geometry;
pub mod gl;
pub mod gl_context;
pub mod id_tree;
pub mod identity;
pub mod image_loading;
pub mod rendering_order;
pub mod resources;
pub mod scroll_clip;
pub mod shader;
pub mod style_overrides;
pub mod text;
pub mod text_input;
