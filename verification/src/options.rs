//! The plain settings of the options for running an app natively or in a web
//! page, with their documented defaults.

use vstd::prelude::*;

use crate::backend::{Renderer, WebGlContextOption};

verus! {

/// The plain-valued settings of a native window's options.
#[derive(Clone, Copy, Debug, PartialEq, Eq, Structural)]
pub struct NativeSettings {
    /// The level of multisampling anti-aliasing (MSAA); a power of two, `0` turns it off.
    pub multisampling: u16,
    /// The number of bits in the depth buffer.
    pub depth_buffer: u8,
    /// The number of bits in the stencil buffer.
    pub stencil_buffer: u8,
    /// What rendering backend to use.
    pub renderer: Renderer,
    /// If `true`, execution continues after the window is closed.
    pub run_and_return: bool,
    /// On desktop: center the window position at initialization.
    pub centered: bool,
    /// Whether the native window position and size will be persisted.
    pub persist_window: bool,
    /// Whether to apply dithering to minimize banding artifacts.
    pub dithering: bool,
}

impl Default for NativeSettings {
    /// No multisampling and no depth or stencil bits, the default renderer,
    /// run-and-return, not centered, persisted window position, and dithering.
    fn default() -> (settings: Self)
        ensures
            settings == (NativeSettings {
                multisampling: 0,
                depth_buffer: 0,
                stencil_buffer: 0,
                renderer: Renderer::Wgpu,
                run_and_return: true,
                centered: false,
                persist_window: true,
                dithering: true,
            }),
    {
        NativeSettings {
            multisampling: 0,
            depth_buffer: 0,
            stencil_buffer: 0,
            renderer: Renderer::default(),
            run_and_return: true,
            centered: false,
            persist_window: true,
            dithering: true,
        }
    }
}

/// The plain-valued settings of the options for running in a web page.
#[derive(Clone, Copy, Debug, PartialEq, Eq, Structural)]
pub struct WebSettings {
    /// What rendering backend to use.
    pub renderer: Renderer,
    /// The number of bits in the depth buffer.
    pub depth_buffer: u8,
    /// Which version of WebGL context to select.
    pub webgl_context_option: WebGlContextOption,
    /// Whether to apply dithering to minimize banding artifacts.
    pub dithering: bool,
    /// Maximum rate at which to repaint.
    pub max_fps: Option<u32>,
}

impl Default for WebSettings {
    /// The default renderer, no depth bits, WebGL2 first, dithering, and no
    /// repaint limit.
    fn default() -> (settings: Self)
        ensures
            settings == (WebSettings {
                renderer: Renderer::Wgpu,
                depth_buffer: 0,
                webgl_context_option: WebGlContextOption::BestFirst,
                dithering: true,
                max_fps: None,
            }),
    {
        WebSettings {
            renderer: Renderer::default(),
            depth_buffer: 0,
            webgl_context_option: WebGlContextOption::BestFirst,
            dithering: true,
            max_fps: None,
        }
    }
}

} // verus!
