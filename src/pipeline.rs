use vstd::prelude::*;
use wgpu::{BindGroupLayout, Device, TextureFormat, VertexBufferLayout};

verus! {

#[verifier::external_type_specification]
#[verifier::external_body]
pub struct ExDevice(wgpu::Device);

#[verifier::external_type_specification]
#[verifier::external_body]
pub struct ExBindGroupLayout(wgpu::BindGroupLayout);

#[verifier::external_type_specification]
pub struct ExTextureFormat(wgpu::TextureFormat);

#[verifier::external_type_specification]
#[verifier::external_body]
pub struct ExAstcBlock(wgpu::AstcBlock);

#[verifier::external_type_specification]
#[verifier::external_body]
pub struct ExAstcChannel(wgpu::AstcChannel);

#[verifier::external_type_specification]
#[verifier::external_body]
pub struct ExVertexBufferLayout<'a>(wgpu::VertexBufferLayout<'a>);

/// What a render-pipeline builder has collected so far.
pub struct PipelineSettings<'a> {
    pub shader_filename: Seq<char>,
    pub vertex_entry: Seq<char>,
    pub fragment_entry: Seq<char>,
    pub surface_format: TextureFormat,
    pub vertex_buffer_layouts: Seq<VertexBufferLayout<'static>>,
    pub bind_group_layouts: Seq<&'a BindGroupLayout>,
}

/// Collects the parts of a render pipeline: the shader file and its entry
/// points, the target format, and the vertex-buffer and bind-group layouts.
pub struct CreateRenderPipeline<'a> {
    device: &'a Device,
    bind_group_layouts: Vec<&'a BindGroupLayout>,
    shader_filename: String,
    vertex_entry: String,
    fragment_entry: String,
    vertex_buffer_layouts: Vec<VertexBufferLayout<'static>>,
    surface_format: TextureFormat,
}

impl<'a> View for CreateRenderPipeline<'a> {
    type V = PipelineSettings<'a>;

    closed spec fn view(&self) -> PipelineSettings<'a> {
        PipelineSettings {
            shader_filename: self.shader_filename@,
            vertex_entry: self.vertex_entry@,
            fragment_entry: self.fragment_entry@,
            surface_format: self.surface_format,
            vertex_buffer_layouts: self.vertex_buffer_layouts@,
            bind_group_layouts: self.bind_group_layouts@,
        }
    }
}

impl<'a> CreateRenderPipeline<'a> {
    /// The device that the pipeline will be created on.
    pub closed spec fn spec_device(&self) -> &'a Device {
        self.device
    }

    /// A builder for `device` with placeholder shader names, no layouts, and
    /// the RGBA8 unsigned-normalized target format.
    pub fn new(device: &'a Device) -> (r: Self)
        ensures
            r.spec_device() == device,
            r@.shader_filename == "dummy"@,
            r@.vertex_entry == "dummy"@,
            r@.fragment_entry == "dummy"@,
            r@.surface_format == TextureFormat::Rgba8Unorm,
            r@.vertex_buffer_layouts.len() == 0,
            r@.bind_group_layouts.len() == 0,
    {
        CreateRenderPipeline {
            device,
            bind_group_layouts: Vec::new(),
            shader_filename: "dummy".to_owned(),
            vertex_entry: "dummy".to_owned(),
            fragment_entry: "dummy".to_owned(),
            vertex_buffer_layouts: Vec::new(),
            surface_format: TextureFormat::Rgba8Unorm,
        }
    }

    /// Sets the shader file and the names of its vertex and fragment entry points.
    pub fn set_shader_module(
        &mut self,
        shader_filename: &str,
        vertex_entry: &str,
        fragment_entry: &str,
    ) -> (r: &mut Self)
        ensures
            r.spec_device() == old(self).spec_device(),
            r@ == (PipelineSettings {
                shader_filename: shader_filename@,
                vertex_entry: vertex_entry@,
                fragment_entry: fragment_entry@,
                ..old(self)@
            }),
            *final(self) == *final(r),
    {
        self.shader_filename = shader_filename.to_owned();
        self.vertex_entry = vertex_entry.to_owned();
        self.fragment_entry = fragment_entry.to_owned();
        self
    }

    /// Sets the format of the surface that the pipeline renders to.
    pub fn set_surface_format(&mut self, surface_format: TextureFormat) -> (r: &mut Self)
        ensures
            r.spec_device() == old(self).spec_device(),
            r@ == (PipelineSettings { surface_format, ..old(self)@ }),
            *final(self) == *final(r),
    {
        self.surface_format = surface_format;
        self
    }

    /// Appends a vertex-buffer layout.
    pub fn add_vertex_buffer(&mut self, layout: VertexBufferLayout<'static>) -> (r: &mut Self)
        ensures
            r.spec_device() == old(self).spec_device(),
            r@ == (PipelineSettings {
                vertex_buffer_layouts: old(self)@.vertex_buffer_layouts.push(layout),
                ..old(self)@
            }),
            *final(self) == *final(r),
    {
        self.vertex_buffer_layouts.push(layout);
        self
    }

    /// Appends a bind-group layout.
    pub fn add_bind_group_layout(&mut self, layout: &'a BindGroupLayout)
        ensures
            final(self).spec_device() == old(self).spec_device(),
            final(self)@ == (PipelineSettings {
                bind_group_layouts: old(self)@.bind_group_layouts.push(layout),
                ..old(self)@
            }),
    {
        self.bind_group_layouts.push(layout);
    }

    pub fn device(&self) -> (r: &'a Device)
        ensures
            r == self.spec_device(),
    {
        self.device
    }

    pub fn shader_filename(&self) -> (r: &str)
        ensures
            r@ == self@.shader_filename,
    {
        self.shader_filename.as_str()
    }

    pub fn vertex_entry(&self) -> (r: &str)
        ensures
            r@ == self@.vertex_entry,
    {
        self.vertex_entry.as_str()
    }

    pub fn fragment_entry(&self) -> (r: &str)
        ensures
            r@ == self@.fragment_entry,
    {
        self.fragment_entry.as_str()
    }

    pub fn surface_format(&self) -> (r: TextureFormat)
        ensures
            r == self@.surface_format,
    {
        self.surface_format
    }

    pub fn vertex_buffer_layouts(&self) -> (r: &[VertexBufferLayout<'static>])
        ensures
            r@ == self@.vertex_buffer_layouts,
    {
        self.vertex_buffer_layouts.as_slice()
    }

    pub fn bind_group_layouts(&self) -> (r: &[&'a BindGroupLayout])
        ensures
            r@ == self@.bind_group_layouts,
    {
        self.bind_group_layouts.as_slice()
    }
}

} // verus!
