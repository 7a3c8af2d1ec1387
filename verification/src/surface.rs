//! The configuration of the surface that frames are presented to: its size,
//! and the choice of its texture format, present mode and alpha mode among
//! those that the surface supports.

use vstd::prelude::*;

verus! {

/// `wgpu::TextureFormat`, the format of a texture's data. Nothing is
/// claimed of what a value holds: it is carried from the list of
/// supported formats into the configuration.
#[verifier::external_type_specification]
#[verifier::external_body]
pub struct ExTextureFormat(wgpu::TextureFormat);

/// `wgpu::PresentMode`, how frames are handed to the display. Nothing is
/// claimed of what a value holds.
#[verifier::external_type_specification]
#[verifier::external_body]
pub struct ExPresentMode(wgpu::PresentMode);

/// `wgpu::CompositeAlphaMode`, how the alpha channel is treated when the
/// surface is composited. Nothing is claimed of what a value holds.
#[verifier::external_type_specification]
#[verifier::external_body]
pub struct ExCompositeAlphaMode(wgpu::CompositeAlphaMode);

/// Whether a texture format stores its colours sRGB-encoded, as
/// `wgpu::TextureFormat::is_srgb` reports it.
pub uninterp spec fn format_is_srgb(format: wgpu::TextureFormat) -> bool;

/// Calls `wgpu::TextureFormat::is_srgb`, which compares the format with the
/// one that it becomes without its sRGB suffix. The answer depends on the
/// format alone; the contract gives it the name `format_is_srgb` and says
/// nothing else of it.
#[verifier::external_body]
fn is_srgb(format: &wgpu::TextureFormat) -> (srgb: bool)
    ensures
        srgb == format_is_srgb(*format),
{
    format.is_srgb()
}

/// A size in physical pixels.
#[derive(Clone, Copy, Debug, PartialEq, Eq, Structural)]
pub struct Size {
    pub width: u32,
    pub height: u32,
}

impl Size {
    /// Neither dimension is zero.
    pub open spec fn spec_has_area(self) -> bool {
        self.width > 0 && self.height > 0
    }

    /// Whether neither dimension is zero.
    pub fn has_area(&self) -> (yes: bool)
        ensures
            yes == self.spec_has_area(),
    {
        self.width > 0 && self.height > 0
    }
}

/// What a surface is configured with. It is always used as a render
/// attachment, and its views have its own format.
#[derive(Clone, Copy, Debug)]
pub struct SurfaceConfig {
    pub format: wgpu::TextureFormat,
    pub width: u32,
    pub height: u32,
    pub present_mode: wgpu::PresentMode,
    pub alpha_mode: wgpu::CompositeAlphaMode,
}

impl SurfaceConfig {
    /// The same configuration at another size.
    pub open spec fn spec_with_size(self, size: Size) -> SurfaceConfig {
        SurfaceConfig { width: size.width, height: size.height, ..self }
    }

    /// The size that the surface is configured for.
    pub open spec fn spec_size(self) -> Size {
        Size { width: self.width, height: self.height }
    }
}

/// For each format, whether it is sRGB-encoded.
pub open spec fn srgb_flags(formats: Seq<wgpu::TextureFormat>) -> Seq<bool> {
    Seq::new(formats.len(), |i: int| format_is_srgb(formats[i]))
}

/// Position `i` is the one to take from a list of formats, of which `srgb`
/// says which are sRGB-encoded: it is the first that is not, or the first
/// of all where every format is.
pub open spec fn is_preferred(srgb: Seq<bool>, i: int) -> bool {
    &&& 0 <= i < srgb.len()
    &&& forall|j: int| 0 <= j < i ==> srgb[j]
    &&& srgb[i] ==> i == 0 && forall|j: int| 0 <= j < srgb.len() ==> srgb[j]
}

/// At most one position is the one to take.
pub proof fn lemma_preferred_unique(srgb: Seq<bool>, i: int, j: int)
    requires
        is_preferred(srgb, i),
        is_preferred(srgb, j),
    ensures
        i == j,
{
}

/// Picks the format to prefer, given for each supported format whether it
/// is sRGB-encoded: the first that is not, else the first one. There is
/// nothing to pick from an empty list.
pub fn preferred_format_index(srgb: &Vec<bool>) -> (picked: Option<usize>)
    ensures
        picked is None <==> srgb@.len() == 0,
        picked matches Some(i) ==> is_preferred(srgb@, i as int),
{
    if srgb.len() == 0 {
        return None;
    }
    let mut i: usize = 0;
    while i < srgb.len()
        invariant
            i <= srgb.len(),
            forall|j: int| 0 <= j < i ==> srgb@[j],
        decreases srgb.len() - i,
    {
        if !srgb[i] {
            return Some(i);
        }
        i += 1;
    }
    Some(0)
}

/// Chooses the texture format of the surface among the supported ones: the
/// first that is not sRGB-encoded, else the first one.
pub fn choose_surface_format(formats: &Vec<wgpu::TextureFormat>) -> (chosen: Option<
    wgpu::TextureFormat,
>)
    ensures
        chosen is None <==> formats@.len() == 0,
        chosen matches Some(format) ==> exists|i: int|
            is_preferred(srgb_flags(formats@), i) && format == formats@[i],
{
    let mut srgb: Vec<bool> = Vec::new();
    let mut k: usize = 0;
    while k < formats.len()
        invariant
            k <= formats.len(),
            srgb@ == srgb_flags(formats@.take(k as int)),
        decreases formats.len() - k,
    {
        let flag = is_srgb(&formats[k]);
        srgb.push(flag);
        k += 1;
        assert(srgb@ =~= srgb_flags(formats@.take(k as int)));
    }
    assert(formats@.take(k as int) =~= formats@);
    match preferred_format_index(&srgb) {
        None => None,
        Some(i) => Some(formats[i]),
    }
}

/// The configuration that a surface of the given size starts with: the
/// preferred format, and the first present mode and the first alpha mode
/// that it supports. There is none where one of the three lists is empty.
pub fn initial_config(
    size: Size,
    formats: &Vec<wgpu::TextureFormat>,
    present_modes: &Vec<wgpu::PresentMode>,
    alpha_modes: &Vec<wgpu::CompositeAlphaMode>,
) -> (config: Option<SurfaceConfig>)
    ensures
        config is None <==> formats@.len() == 0 || present_modes@.len() == 0 || alpha_modes@.len()
            == 0,
        config matches Some(c) ==> {
            &&& c.spec_size() == size
            &&& c.present_mode == present_modes@[0]
            &&& c.alpha_mode == alpha_modes@[0]
            &&& exists|i: int|
                is_preferred(srgb_flags(formats@), i) && c.format == formats@[i]
        },
{
    if present_modes.len() == 0 || alpha_modes.len() == 0 {
        return None;
    }
    match choose_surface_format(formats) {
        None => None,
        Some(format) => Some(
            SurfaceConfig {
                format,
                width: size.width,
                height: size.height,
                present_mode: present_modes[0],
                alpha_mode: alpha_modes[0],
            },
        ),
    }
}

} // verus!
