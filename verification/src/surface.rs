//! The presentation surface: which texture format it is configured with, and
//! the ways in which acquiring its next image can end.

use vstd::prelude::*;

verus! {

#[verifier::external_type_specification]
#[verifier::external_body]
pub struct ExTextureFormat(wgpu::TextureFormat);

/// Whether a texture format stores its colours sRGB-encoded, as
/// `wgpu::TextureFormat::is_srgb` reports it.
pub uninterp spec fn srgb_encoded(format: wgpu::TextureFormat) -> bool;

/// Calls `wgpu::TextureFormat::is_srgb`, which compares the format with the
/// same format stripped of its sRGB suffix. The answer depends on the format
/// alone; the contract gives it the name `srgb_encoded` and claims no more.
#[verifier::external_body]
fn is_srgb(format: &wgpu::TextureFormat) -> (srgb: bool)
    ensures
        srgb == srgb_encoded(*format),
{
    format.is_srgb()
}

/// How many frames may wait for presentation before the control loop is
/// held back.
pub const FRAME_LATENCY: u32 = 2;

/// How an attempt to acquire and present the next surface image ended.
#[derive(Clone, Copy, Debug, PartialEq, Eq, Structural)]
pub enum Acquisition {
    /// The frame was drawn and presented.
    Presented,
    /// The surface was lost and has to be configured again.
    Lost,
    /// The surface no longer fits the window and has to be configured again.
    Outdated,
    /// The device has run out of memory.
    OutOfMemory,
    /// No image became available in time.
    Timeout,
}

/// For each format, in order, whether it is sRGB-encoded.
pub open spec fn srgb_flags(formats: Seq<wgpu::TextureFormat>) -> Seq<bool> {
    Seq::new(formats.len(), |i: int| srgb_encoded(formats[i]))
}

/// Whether position `index` is the one to use among formats with the given
/// sRGB flags: the first that is set, or position 0 where none is set.
pub open spec fn is_preferred(srgb: Seq<bool>, index: int) -> bool {
    &&& 0 <= index < srgb.len()
    &&& forall|j: int| 0 <= j < index ==> !srgb[j]
    &&& (srgb[index] || (index == 0 && forall|j: int| 0 <= j < srgb.len() ==> !srgb[j]))
}

/// At most one position is preferred.
pub proof fn lemma_preferred_is_unique(srgb: Seq<bool>, first: int, second: int)
    requires
        is_preferred(srgb, first),
        is_preferred(srgb, second),
    ensures
        first == second,
{
    if first < second {
        assert(!srgb[first]);
    } else if second < first {
        assert(!srgb[second]);
    }
}

/// The position of the format to use, given for each supported format
/// whether it is sRGB-encoded: the first that is, else the first of all.
/// There is none only where no format is supported.
pub fn preferred_position(srgb: &Vec<bool>) -> (position: Option<usize>)
    ensures
        position is None <==> srgb@.len() == 0,
        position matches Some(index) ==> is_preferred(srgb@, index as int),
{
    if srgb.len() == 0 {
        return None;
    }
    let mut index: usize = 0;
    while index < srgb.len()
        invariant
            index <= srgb@.len(),
            forall|j: int| 0 <= j < index ==> !srgb@[j],
        decreases srgb@.len() - index,
    {
        if srgb[index] {
            return Some(index);
        }
        index = index + 1;
    }
    Some(0)
}

/// The format to configure the surface with, out of those that it supports
/// in the order in which it reports them: the first sRGB-encoded one, else
/// the first of all. There is none only where `formats` is empty.
pub fn choose_format(formats: &Vec<wgpu::TextureFormat>) -> (chosen: Option<wgpu::TextureFormat>)
    ensures
        chosen is None <==> formats@.len() == 0,
        chosen matches Some(format) ==> exists|index: int|
            is_preferred(srgb_flags(formats@), index) && format == formats@[index],
{
    let mut srgb: Vec<bool> = Vec::new();
    let mut index: usize = 0;
    while index < formats.len()
        invariant
            index <= formats@.len(),
            srgb@ == srgb_flags(formats@.subrange(0, index as int)),
        decreases formats@.len() - index,
    {
        let flag = is_srgb(&formats[index]);
        srgb.push(flag);
        assert(srgb@ =~= srgb_flags(formats@.subrange(0, index + 1)));
        index = index + 1;
    }
    assert(formats@.subrange(0, index as int) =~= formats@);
    match preferred_position(&srgb) {
        None => None,
        Some(position) => Some(formats[position]),
    }
}

} // verus!
