use vstd::prelude::*;
use wgpu::TextureFormat;

verus! {

#[verifier::external_type_specification]
#[verifier::external_body]
pub struct ExTextureFormat(wgpu::TextureFormat);

/// Whether a texture format stores its colour channels sRGB-encoded.
pub uninterp spec fn srgb_encoded(format: TextureFormat) -> bool;

/// Relies on wgpu::TextureFormat::is_srgb: whether the format is one of the
/// sRGB variants, a property of the format alone.
#[verifier::external_body]
fn is_srgb(format: TextureFormat) -> (r: bool)
    ensures
        r == srgb_encoded(format),
{
    format.is_srgb()
}

/// `i` is the position of the first `true` in `marks`.
pub open spec fn first_marked(marks: Seq<bool>, i: int) -> bool {
    &&& 0 <= i < marks.len()
    &&& marks[i]
    &&& forall|j: int| 0 <= j < i ==> !marks[j]
}

/// For each format, whether it is sRGB-encoded.
pub open spec fn srgb_marks(formats: Seq<TextureFormat>) -> Seq<bool> {
    formats.map_values(|f: TextureFormat| srgb_encoded(f))
}

/// The position of the first `true` in `marks`, if there is one.
pub fn first_marked_index(marks: &Vec<bool>) -> (r: Option<usize>)
    ensures
        match r {
            Some(i) => first_marked(marks@, i as int),
            None => forall|j: int| 0 <= j < marks@.len() ==> !marks@[j],
        },
{
    let mut i: usize = 0;
    while i < marks.len()
        invariant
            i <= marks@.len(),
            forall|j: int| 0 <= j < i ==> !marks@[j],
        decreases marks@.len() - i,
    {
        if marks[i] {
            return Some(i);
        }
        i = i + 1;
    }
    None
}

/// The first sRGB format among those a surface supports, in the order the
/// surface lists them (its preferred format first). Colours are written in
/// linear space and the surface encodes them, so only such a format shows
/// them as intended.
pub fn choose_srgb_format(formats: &Vec<TextureFormat>) -> (r: Option<TextureFormat>)
    ensures
        match r {
            Some(f) => exists|i: int|
                #[trigger] first_marked(srgb_marks(formats@), i) && formats@[i] == f,
            None => forall|j: int| 0 <= j < formats@.len() ==> !srgb_encoded(#[trigger] formats@[j]),
        },
{
    let mut marks: Vec<bool> = Vec::new();
    let mut k: usize = 0;
    while k < formats.len()
        invariant
            k <= formats@.len(),
            marks@ == srgb_marks(formats@.subrange(0, k as int)),
        decreases formats@.len() - k,
    {
        let format = formats[k];
        marks.push(is_srgb(format));
        assert(formats@.subrange(0, k + 1) == formats@.subrange(0, k as int).push(format));
        k = k + 1;
    }
    assert(formats@.subrange(0, formats@.len() as int) == formats@);
    match first_marked_index(&marks) {
        Some(i) => {
            let f = formats[i];
            assert(marks@ == srgb_marks(formats@));
            assert(first_marked(srgb_marks(formats@), i as int) && formats@[i as int] == f);
            Some(f)
        },
        None => {
            assert forall|j: int| 0 <= j < formats@.len() implies !srgb_encoded(
                #[trigger] formats@[j],
            ) by {
                assert(marks@[j] == srgb_marks(formats@)[j]);
            }
            None
        },
    }
}

} // verus!
