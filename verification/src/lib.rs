//! Verified texture and render-target planning for an OpenGL-style driver.
//!
//! Nothing here touches the GPU. Every operation validates its arguments,
//! updates the bindings that the [`context::Context`] tracks and appends the
//! driver calls it decided on to the context's command stream. The
//! embedding program asks the driver for object names, hands them in, and
//! drains the stream into the driver, in order.
//!
//! A fill, a read, a copy or a write that is refused has recorded nothing.
//! A construction takes its steps in order, and one that is refused keeps
//! what the steps before the failing one recorded; a texture that was
//! built but could not be filled gives its name back. An operation that
//! binds a framebuffer for its own use puts the bindings back before it
//! returns, also when the drawing it wraps fails.
//!
//! - [`format`], [`mip`]: storage formats and mip level counts.
//! - [`context`]: the command stream and the bindings it leads to.
//! - [`texture`], [`cube_map`]: textures that are filled and sampled.
//! - [`color_target`], [`depth_target`], [`color_target_array`],
//!   [`depth_target_array`]: textures that are rendered into.
//! - [`render_target`]: colour and depth rendered into together.
//! - [`target`]: clearing, the window as a target, copies between targets.

pub mod color_target;
pub mod color_target_array;
pub mod consts;
pub mod context;
pub mod cube_map;
pub mod depth_target;
pub mod depth_target_array;
pub mod error;
pub mod format;
pub mod full_screen_quad;
pub mod mip;
pub mod pixels;
pub mod render_target;
pub mod states;
pub mod target;
pub mod texture;
