//! Surface capabilities and the configuration derived from them.

use vstd::prelude::*;
use crate::format::{select_format, selected_format};

verus! {

/// `wgpu::PresentMode`, carried through as an opaque value.
#[verifier::external_type_specification]
#[verifier::external_body]
pub struct ExPresentMode(wgpu::PresentMode);

/// `wgpu::CompositeAlphaMode`, carried through as an opaque value.
#[verifier::external_type_specification]
#[verifier::external_body]
pub struct ExCompositeAlphaMode(wgpu::CompositeAlphaMode);

/// A size in physical pixels.
#[derive(Clone, Copy, Debug, PartialEq, Eq, Hash, Structural)]
pub struct PhysicalSize {
    pub width: u32,
    pub height: u32,
}

/// The ways a surface texture may be used, one flag for each.
#[derive(Clone, Copy, Debug, PartialEq, Eq, Hash, Structural)]
pub struct TextureUsages {
    pub copy_src: bool,
    pub copy_dst: bool,
    pub texture_binding: bool,
    pub storage_binding: bool,
    pub render_attachment: bool,
}

impl TextureUsages {
    /// Use as the output attachment of a render pass, and nothing else.
    pub open spec fn spec_render_attachment() -> TextureUsages {
        TextureUsages {
            copy_src: false,
            copy_dst: false,
            texture_binding: false,
            storage_binding: false,
            render_attachment: true,
        }
    }

    /// Use as the output attachment of a render pass, and nothing else.
    #[verifier::when_used_as_spec(spec_render_attachment)]
    pub fn render_attachment() -> (usage: TextureUsages)
        ensures
            usage == TextureUsages::spec_render_attachment(),
    {
        TextureUsages {
            copy_src: false,
            copy_dst: false,
            texture_binding: false,
            storage_binding: false,
            render_attachment: true,
        }
    }
}

/// What a surface supports on the chosen adapter, each list in the
/// platform's order of preference.
#[derive(Debug, PartialEq, Eq)]
pub struct SurfaceCapabilities {
    pub formats: Vec<wgpu::TextureFormat>,
    pub present_modes: Vec<wgpu::PresentMode>,
    pub alpha_modes: Vec<wgpu::CompositeAlphaMode>,
}

/// The mathematical content of `SurfaceCapabilities`.
pub struct CapabilitiesView {
    pub formats: Seq<wgpu::TextureFormat>,
    pub present_modes: Seq<wgpu::PresentMode>,
    pub alpha_modes: Seq<wgpu::CompositeAlphaMode>,
}

impl CapabilitiesView {
    /// The surface can be presented to: it supports at least one format, one
    /// presentation mode and one alpha mode.
    pub open spec fn presentable(self) -> bool {
        &&& self.formats.len() > 0
        &&& self.present_modes.len() > 0
        &&& self.alpha_modes.len() > 0
    }
}

impl View for SurfaceCapabilities {
    type V = CapabilitiesView;

    open spec fn view(&self) -> CapabilitiesView {
        CapabilitiesView {
            formats: self.formats@,
            present_modes: self.present_modes@,
            alpha_modes: self.alpha_modes@,
        }
    }
}

impl SurfaceCapabilities {
    /// Whether the surface can be presented to.
    pub fn presentable(&self) -> (ok: bool)
        ensures
            ok == self@.presentable(),
    {
        self.formats.len() > 0 && self.present_modes.len() > 0 && self.alpha_modes.len() > 0
    }
}

/// The parameters a surface is configured with before it is presented to.
#[derive(Debug, PartialEq, Eq)]
pub struct SurfaceConfiguration {
    pub usage: TextureUsages,
    pub format: wgpu::TextureFormat,
    pub width: u32,
    pub height: u32,
    pub present_mode: wgpu::PresentMode,
    pub alpha_mode: wgpu::CompositeAlphaMode,
    /// Further formats in which views of the surface texture may be made.
    pub view_formats: Vec<wgpu::TextureFormat>,
}

/// The mathematical content of `SurfaceConfiguration`.
pub struct ConfigurationView {
    pub usage: TextureUsages,
    pub format: wgpu::TextureFormat,
    pub width: u32,
    pub height: u32,
    pub present_mode: wgpu::PresentMode,
    pub alpha_mode: wgpu::CompositeAlphaMode,
    pub view_formats: Seq<wgpu::TextureFormat>,
}

impl View for SurfaceConfiguration {
    type V = ConfigurationView;

    open spec fn view(&self) -> ConfigurationView {
        ConfigurationView {
            usage: self.usage,
            format: self.format,
            width: self.width,
            height: self.height,
            present_mode: self.present_mode,
            alpha_mode: self.alpha_mode,
            view_formats: self.view_formats@,
        }
    }
}

/// The initial configuration of a surface of the given size with the given
/// capabilities: render-attachment usage, the selected format, the size as it
/// is, the first presentation mode, the first alpha mode, no view formats.
pub open spec fn initial_configuration(
    size: PhysicalSize,
    capabilities: CapabilitiesView,
) -> ConfigurationView {
    ConfigurationView {
        usage: TextureUsages::spec_render_attachment(),
        format: selected_format(capabilities.formats),
        width: size.width,
        height: size.height,
        present_mode: capabilities.present_modes[0],
        alpha_mode: capabilities.alpha_modes[0],
        view_formats: Seq::empty(),
    }
}

impl SurfaceConfiguration {
    /// Builds the initial configuration of a surface from the window's size
    /// and the surface's capabilities.
    pub fn initial(size: PhysicalSize, capabilities: &SurfaceCapabilities) -> (config:
        SurfaceConfiguration)
        requires
            capabilities@.presentable(),
        ensures
            config@ == initial_configuration(size, capabilities@),
    {
        SurfaceConfiguration {
            usage: TextureUsages::render_attachment(),
            format: select_format(&capabilities.formats),
            width: size.width,
            height: size.height,
            present_mode: capabilities.present_modes[0],
            alpha_mode: capabilities.alpha_modes[0],
            view_formats: Vec::new(),
        }
    }
}

/// The state of an initialized graphics context that the library keeps: the
/// configuration applied to the surface and the window's size at that moment.
#[derive(Debug, PartialEq, Eq)]
pub struct GraphicsContext {
    pub surface_config: SurfaceConfiguration,
    pub size: PhysicalSize,
}

/// The mathematical content of `GraphicsContext`.
pub struct GraphicsContextView {
    pub surface_config: ConfigurationView,
    pub size: PhysicalSize,
}

impl GraphicsContextView {
    /// The surface is configured at the size the window had at that moment.
    pub open spec fn well_formed(self) -> bool {
        &&& self.surface_config.width == self.size.width
        &&& self.surface_config.height == self.size.height
    }

    /// The configuration no longer fits a window of this size: the surface
    /// is stale until it is configured again.
    pub open spec fn stale_for(self, window: PhysicalSize) -> bool {
        self.surface_config.width != window.width || self.surface_config.height != window.height
    }
}

impl View for GraphicsContext {
    type V = GraphicsContextView;

    open spec fn view(&self) -> GraphicsContextView {
        GraphicsContextView { surface_config: self.surface_config@, size: self.size }
    }
}

/// The context of a surface that was configured at `size` with
/// `capabilities`.
pub open spec fn initial_context(
    size: PhysicalSize,
    capabilities: CapabilitiesView,
) -> GraphicsContextView {
    GraphicsContextView { surface_config: initial_configuration(size, capabilities), size }
}

impl GraphicsContext {
    /// Configures a surface of the given size for the first time.
    pub fn initial(size: PhysicalSize, capabilities: &SurfaceCapabilities) -> (context:
        GraphicsContext)
        requires
            capabilities@.presentable(),
        ensures
            context@ == initial_context(size, capabilities@),
            context@.well_formed(),
            !context@.stale_for(size),
    {
        GraphicsContext { surface_config: SurfaceConfiguration::initial(size, capabilities), size }
    }

    /// Whether the surface is stale for a window that now has this size.
    pub fn is_stale(&self, window: PhysicalSize) -> (stale: bool)
        ensures
            stale == self@.stale_for(window),
    {
        self.surface_config.width != window.width || self.surface_config.height != window.height
    }
}

} // verus!
