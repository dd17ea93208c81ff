use std::str::FromStr;

use eframe::backend::{Renderer, WebGlContextOption};
use eframe::storage::APP_KEY;

#[test]
fn renderer_defaults_to_wgpu() {
    assert_eq!(Renderer::default(), Renderer::Wgpu);
}

#[test]
fn renderer_names() {
    assert_eq!(Renderer::Glow.to_string(), "glow");
    assert_eq!(Renderer::Wgpu.to_string(), "wgpu");
}

#[test]
fn renderer_names_parse_back() {
    for renderer in [Renderer::Glow, Renderer::Wgpu] {
        assert_eq!(Renderer::parse(&renderer.to_string()), Ok(renderer));
        assert_eq!(Renderer::from_str(&renderer.to_string()), Ok(renderer));
    }
}

#[test]
fn renderer_parse_ignores_case() {
    assert_eq!(Renderer::parse("GLOW"), Ok(Renderer::Glow));
    assert_eq!(Renderer::parse("WgPu"), Ok(Renderer::Wgpu));
    // The Kelvin sign lowercases to an ASCII 'k'; no name contains one, but
    // the lowercase is taken under Unicode, not ASCII, rules.
    assert!(Renderer::parse("\u{212A}").is_err());
}

#[test]
fn unknown_renderer_is_reported() {
    assert_eq!(
        Renderer::parse("vulkan"),
        Err("eframe renderer \"vulkan\" is not available. Make sure that the corresponding eframe feature is enabled.".to_owned())
    );
    assert_eq!(
        Renderer::parse("a\"b"),
        Err("eframe renderer \"a\\\"b\" is not available. Make sure that the corresponding eframe feature is enabled.".to_owned())
    );
    assert!(Renderer::parse(" glow").is_err());
    assert!(Renderer::parse("").is_err());
}

#[test]
fn webgl_options_compare() {
    assert_ne!(WebGlContextOption::BestFirst, WebGlContextOption::WebGl2);
    assert_eq!(WebGlContextOption::CompatibilityFirst, WebGlContextOption::CompatibilityFirst);
}

#[test]
fn app_key_is_app() {
    assert_eq!(APP_KEY, "app");
}

#[test]
fn lowercase_names_map_to_renderers() {
    assert_eq!(Renderer::from_lowercase_name("glow"), Some(Renderer::Glow));
    assert_eq!(Renderer::from_lowercase_name("wgpu"), Some(Renderer::Wgpu));
    assert_eq!(Renderer::from_lowercase_name("GLOW"), None);
    assert_eq!(Renderer::from_lowercase_name("opengl"), None);
}

#[test]
fn unavailable_message_wraps_the_quoted_name() {
    assert_eq!(
        Renderer::unavailable_message_of("\"dx12\""),
        "eframe renderer \"dx12\" is not available. Make sure that the corresponding eframe feature is enabled."
    );
}
