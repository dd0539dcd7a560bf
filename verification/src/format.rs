//! Choice of the surface's texture format.
//!
//! A surface reports the formats it supports in its order of preference. The
//! first sRGB-encoded one is taken; a list without any falls back to its first
//! entry.

use vstd::prelude::*;

verus! {

/// `wgpu::TextureFormat`, carried through as an opaque value.
#[verifier::external_type_specification]
#[verifier::external_body]
pub struct ExTextureFormat(wgpu::TextureFormat);

/// Whether a texture format stores its colour channels sRGB-encoded: the
/// answer of `wgpu::TextureFormat::is_srgb`, which depends on the format alone.
pub uninterp spec fn srgb_encoded(format: wgpu::TextureFormat) -> bool;

/// Calls `wgpu::TextureFormat::is_srgb`. Trusted: the result is the one that
/// `srgb_encoded` names for this format.
#[verifier::external_body]
fn is_srgb(format: &wgpu::TextureFormat) -> (srgb: bool)
    ensures
        srgb == srgb_encoded(*format),
{
    format.is_srgb()
}

/// For each format of the list, in order, whether it is sRGB-encoded.
pub open spec fn srgb_flags_of(formats: Seq<wgpu::TextureFormat>) -> Seq<bool> {
    Seq::new(formats.len(), |i: int| srgb_encoded(formats[i]))
}

/// `i` is the position of the first set flag.
pub open spec fn is_first_set(flags: Seq<bool>, i: int) -> bool {
    &&& 0 <= i < flags.len()
    &&& flags[i]
    &&& forall|j: int| 0 <= j < i ==> !flags[j]
}

/// The position of the first set flag, if any flag is set.
pub open spec fn first_set(flags: Seq<bool>) -> Option<int> {
    if exists|i: int| is_first_set(flags, i) {
        Some(choose|i: int| is_first_set(flags, i))
    } else {
        None
    }
}

/// The position that is preferred among formats with these sRGB flags: that of
/// the first sRGB one, or the head of the list where none is sRGB.
pub open spec fn preferred_index_of(flags: Seq<bool>) -> int {
    match first_set(flags) {
        Some(i) => i,
        None => 0,
    }
}

/// The format that is selected from a non-empty list of supported formats.
pub open spec fn selected_format(formats: Seq<wgpu::TextureFormat>) -> wgpu::TextureFormat {
    formats[preferred_index_of(srgb_flags_of(formats))]
}

/// A position that satisfies `is_first_set` is the one `first_set` gives.
pub proof fn lemma_first_set_unique(flags: Seq<bool>, i: int)
    requires
        is_first_set(flags, i),
    ensures
        first_set(flags) == Some(i),
{
    let k = choose|k: int| is_first_set(flags, k);
    assert(is_first_set(flags, k));
    if k < i {
        assert(!flags[k]);
    } else if i < k {
        assert(!flags[i]);
    }
}

/// Without a set flag there is no first one.
pub proof fn lemma_first_set_none(flags: Seq<bool>)
    requires
        forall|j: int| 0 <= j < flags.len() ==> !flags[j],
    ensures
        first_set(flags) is None,
{
    if exists|i: int| is_first_set(flags, i) {
        let k = choose|k: int| is_first_set(flags, k);
        assert(flags[k]);
    }
}

/// Computes for each supported format whether it is sRGB-encoded.
pub fn srgb_flags(formats: &Vec<wgpu::TextureFormat>) -> (flags: Vec<bool>)
    ensures
        flags@ == srgb_flags_of(formats@),
{
    let mut flags: Vec<bool> = Vec::new();
    let mut i: usize = 0;
    while i < formats.len()
        invariant
            i <= formats.len(),
            flags@.len() == i,
            forall|j: int| 0 <= j < i ==> flags@[j] == srgb_encoded(formats@[j]),
        decreases formats.len() - i,
    {
        let srgb: bool = is_srgb(&formats[i]);
        flags.push(srgb);
        i += 1;
    }
    assert(flags@ =~= srgb_flags_of(formats@));
    flags
}

/// Picks the preferred position from the sRGB flags of a non-empty format
/// list: the first set flag wins, and a list without one yields position 0.
pub fn preferred_index(flags: &Vec<bool>) -> (index: usize)
    requires
        flags.len() > 0,
    ensures
        index == preferred_index_of(flags@),
        index < flags.len(),
{
    let mut i: usize = 0;
    while i < flags.len()
        invariant
            i <= flags.len(),
            forall|j: int| 0 <= j < i ==> !flags@[j],
        decreases flags.len() - i,
    {
        if flags[i] {
            proof {
                lemma_first_set_unique(flags@, i as int);
            }
            return i;
        }
        i += 1;
    }
    proof {
        lemma_first_set_none(flags@);
    }
    0
}

/// Selects the surface format from the supported formats, which the platform
/// reports as a non-empty list.
pub fn select_format(formats: &Vec<wgpu::TextureFormat>) -> (format: wgpu::TextureFormat)
    requires
        formats.len() > 0,
    ensures
        format == selected_format(formats@),
{
    let flags = srgb_flags(formats);
    let index = preferred_index(&flags);
    formats[index]
}

/// Where a list holds an sRGB format, the selection is the first such format
/// in list order: no later sRGB entry and no earlier non-sRGB entry is taken.
pub proof fn lemma_selects_first_srgb(formats: Seq<wgpu::TextureFormat>, first: int)
    requires
        0 <= first < formats.len(),
        srgb_encoded(formats[first]),
        forall|j: int| 0 <= j < first ==> !srgb_encoded(formats[j]),
    ensures
        preferred_index_of(srgb_flags_of(formats)) == first,
        selected_format(formats) == formats[first],
        srgb_encoded(selected_format(formats)),
{
    lemma_first_set_unique(srgb_flags_of(formats), first);
}

/// Every list with an sRGB format has a first one, so its selection is
/// sRGB-encoded and no entry before the selected position is.
pub proof fn lemma_some_srgb_selects_srgb(formats: Seq<wgpu::TextureFormat>, any: int)
    requires
        0 <= any < formats.len(),
        srgb_encoded(formats[any]),
    ensures
        srgb_encoded(selected_format(formats)),
        0 <= preferred_index_of(srgb_flags_of(formats)) <= any,
        forall|j: int|
            0 <= j < preferred_index_of(srgb_flags_of(formats)) ==> !srgb_encoded(formats[j]),
    decreases any,
{
    if exists|j: int| 0 <= j < any && srgb_encoded(formats[j]) {
        let earlier = choose|j: int| 0 <= j < any && srgb_encoded(formats[j]);
        lemma_some_srgb_selects_srgb(formats, earlier);
    } else {
        lemma_selects_first_srgb(formats, any);
    }
}

/// A list without any sRGB format selects its first element.
pub proof fn lemma_no_srgb_selects_head(formats: Seq<wgpu::TextureFormat>)
    requires
        formats.len() > 0,
        forall|j: int| 0 <= j < formats.len() ==> !srgb_encoded(formats[j]),
    ensures
        selected_format(formats) == formats[0],
{
    lemma_first_set_none(srgb_flags_of(formats));
}

} // verus!
