//! Texture pixel data, and how the GPU's first texture-combiner stage is set
//! up to draw with it.
use vstd::prelude::*;

verus! {

/// The bytes of a 32-bit word, least significant first when `little`, most
/// significant first otherwise.
pub open spec fn word_bytes(w: u32, little: bool) -> Seq<u8> {
    let b0 = (w % 0x100) as u8;
    let b1 = ((w / 0x100) % 0x100) as u8;
    let b2 = ((w / 0x1_0000) % 0x100) as u8;
    let b3 = (w / 0x100_0000) as u8;
    if little {
        seq![b0, b1, b2, b3]
    } else {
        seq![b3, b2, b1, b0]
    }
}

/// The bytes of a run of 32-bit words laid out in memory one after the other,
/// in little-endian order when `little`, big-endian otherwise.
pub open spec fn words_as_bytes(words: Seq<u32>, little: bool) -> Seq<u8>
    decreases words.len(),
{
    if words.len() == 0 {
        Seq::empty()
    } else {
        word_bytes(words[0], little) + words_as_bytes(words.drop_first(), little)
    }
}

/// A run of words occupies four bytes per word.
pub proof fn lemma_words_as_bytes_len(words: Seq<u32>, little: bool)
    ensures
        words_as_bytes(words, little).len() == 4 * words.len(),
    decreases words.len(),
{
    if words.len() > 0 {
        lemma_words_as_bytes_len(words.drop_first(), little);
    }
}

/// The word at index `i` occupies bytes `4 * i` to `4 * i + 4`.
pub proof fn lemma_words_as_bytes_index(words: Seq<u32>, little: bool, i: int)
    requires
        0 <= i < words.len(),
    ensures
        words_as_bytes(words, little).subrange(4 * i, 4 * i + 4) == word_bytes(words[i], little),
    decreases words.len(),
{
    lemma_words_as_bytes_len(words.drop_first(), little);
    let all = words_as_bytes(words, little);
    if i == 0 {
        assert(all.subrange(0, 4) =~= word_bytes(words[0], little));
    } else {
        lemma_words_as_bytes_index(words.drop_first(), little, i - 1);
        let rest = words_as_bytes(words.drop_first(), little);
        assert(all.subrange(4 * i, 4 * i + 4) =~= rest.subrange(4 * (i - 1), 4 * (i - 1) + 4));
    }
}

/// `bytemuck::cast_slice` from 32-bit words to bytes. bytemuck reinterprets
/// the memory of the slice, so the result is the words' bytes in the
/// machine's byte order; the contract claims only that this order is little-
/// or big-endian, the same for every word, and not which one.
#[verifier::external_body]
fn cast_words_to_bytes(words: &[u32]) -> (bytes: &[u8])
    ensures
        bytes@ == words_as_bytes(words@, true) || bytes@ == words_as_bytes(words@, false),
{
    bytemuck::cast_slice(words)
}

/// The pixel data of a texture: 32-bit RGBA pixels, or 8-bit alpha values
/// (used by the font atlas).
pub enum ImgDat {
    Rgba8(Vec<u32>),
    Alpha8(Vec<u8>),
}

/// The bytes of the pixel data in memory: the RGBA words in the machine's
/// byte order (`little` says which), or the alpha bytes as they are.
pub open spec fn pixel_bytes(data: ImgDat, little: bool) -> Seq<u8> {
    match data {
        ImgDat::Rgba8(v) => words_as_bytes(v@, little),
        ImgDat::Alpha8(v) => v@,
    }
}

/// The number of pixels of the data.
pub open spec fn pixel_count(data: ImgDat) -> nat {
    match data {
        ImgDat::Rgba8(v) => v@.len(),
        ImgDat::Alpha8(v) => v@.len(),
    }
}

/// The number of bytes per pixel.
pub open spec fn bytes_per_pixel(data: ImgDat) -> nat {
    match data {
        ImgDat::Rgba8(_) => 4,
        ImgDat::Alpha8(_) => 1,
    }
}

impl ImgDat {
    /// The pixel data as raw bytes, as the GPU reads it.
    pub fn bytes(&self) -> (r: &[u8])
        ensures
            r@ == pixel_bytes(*self, true) || r@ == pixel_bytes(*self, false),
            r@.len() == bytes_per_pixel(*self) * pixel_count(*self),
    {
        match self {
            ImgDat::Rgba8(v) => {
                let r = cast_words_to_bytes(v.as_slice());
                proof {
                    lemma_words_as_bytes_len(v@, true);
                    lemma_words_as_bytes_len(v@, false);
                }
                r
            },
            ImgDat::Alpha8(v) => v.as_slice(),
        }
    }
}

impl core::ops::Deref for ImgDat {
    type Target = [u8];

    fn deref(&self) -> (r: &[u8])
        ensures
            r@ == pixel_bytes(*self, true) || r@ == pixel_bytes(*self, false),
    {
        self.bytes()
    }
}

impl From<Vec<u32>> for ImgDat {
    fn from(v: Vec<u32>) -> (r: ImgDat) {
        ImgDat::Rgba8(v)
    }
}

impl vstd::std_specs::convert::FromSpecImpl<Vec<u32>> for ImgDat {
    open spec fn obeys_from_spec() -> bool {
        true
    }

    open spec fn from_spec(v: Vec<u32>) -> ImgDat {
        ImgDat::Rgba8(v)
    }
}

impl From<Vec<u8>> for ImgDat {
    fn from(v: Vec<u8>) -> (r: ImgDat) {
        ImgDat::Alpha8(v)
    }
}

impl vstd::std_specs::convert::FromSpecImpl<Vec<u8>> for ImgDat {
    open spec fn obeys_from_spec() -> bool {
        true
    }

    open spec fn from_spec(v: Vec<u8>) -> ImgDat {
        ImgDat::Alpha8(v)
    }
}

/// A source of the texture combiner.
#[derive(Clone, Copy, PartialEq, Eq, Structural, Debug)]
pub enum TexEnvSource {
    PrimaryColor,
    Texture0,
}

/// How a texture combiner combines its sources.
#[derive(Clone, Copy, PartialEq, Eq, Structural, Debug)]
pub enum CombineFunc {
    Replace,
    Modulate,
}

/// One half (colour or alpha) of a texture-combiner stage: up to three
/// sources and the function that combines them.
#[derive(Clone, Copy, PartialEq, Eq, Structural, Debug)]
pub struct TexEnvCombiner {
    pub source0: TexEnvSource,
    pub source1: Option<TexEnvSource>,
    pub source2: Option<TexEnvSource>,
    pub func: CombineFunc,
}

/// The set-up of texture-combiner stage 0.
#[derive(Clone, Copy, PartialEq, Eq, Structural, Debug)]
pub struct TexEnvStage {
    pub rgb: TexEnvCombiner,
    pub alpha: TexEnvCombiner,
}

/// The alpha half shared by both set-ups: texture alpha times vertex alpha.
pub open spec fn modulated_alpha() -> TexEnvCombiner {
    TexEnvCombiner {
        source0: TexEnvSource::Texture0,
        source1: Some(TexEnvSource::PrimaryColor),
        source2: None,
        func: CombineFunc::Modulate,
    }
}

/// Font glyphs: the colour is the vertex colour, the coverage comes from the
/// alpha texture.
pub open spec fn font_stage() -> TexEnvStage {
    TexEnvStage {
        rgb: TexEnvCombiner {
            source0: TexEnvSource::PrimaryColor,
            source1: None,
            source2: None,
            func: CombineFunc::Replace,
        },
        alpha: modulated_alpha(),
    }
}

/// RGBA images: the colour is the texture colour, the alpha is the texture
/// alpha times the vertex alpha.
pub open spec fn rgba8_stage() -> TexEnvStage {
    TexEnvStage {
        rgb: TexEnvCombiner {
            source0: TexEnvSource::Texture0,
            source1: None,
            source2: None,
            func: CombineFunc::Replace,
        },
        alpha: modulated_alpha(),
    }
}

fn modulated_alpha_combiner() -> (c: TexEnvCombiner)
    ensures
        c == modulated_alpha(),
{
    TexEnvCombiner {
        source0: TexEnvSource::Texture0,
        source1: Some(TexEnvSource::PrimaryColor),
        source2: None,
        func: CombineFunc::Modulate,
    }
}

/// The stage-0 set-up for drawing text with the alpha-only font texture.
pub fn configure_font_texenv() -> (s: TexEnvStage)
    ensures
        s == font_stage(),
        s.rgb.source0 == TexEnvSource::PrimaryColor,
        s.rgb.source1 is None,
        s.rgb.source2 is None,
        s.rgb.func == CombineFunc::Replace,
{
    TexEnvStage {
        rgb: TexEnvCombiner {
            source0: TexEnvSource::PrimaryColor,
            source1: None,
            source2: None,
            func: CombineFunc::Replace,
        },
        alpha: modulated_alpha_combiner(),
    }
}

/// The stage-0 set-up for drawing an RGBA image.
pub fn configure_rgba8_texenv() -> (s: TexEnvStage)
    ensures
        s == rgba8_stage(),
        s.rgb.source0 == TexEnvSource::Texture0,
        s.rgb.source1 is None,
        s.rgb.source2 is None,
        s.rgb.func == CombineFunc::Replace,
{
    TexEnvStage {
        rgb: TexEnvCombiner {
            source0: TexEnvSource::Texture0,
            source1: None,
            source2: None,
            func: CombineFunc::Replace,
        },
        alpha: modulated_alpha_combiner(),
    }
}

/// The stage-0 set-up that the kind of pixel data needs.
pub open spec fn stage_for(data: ImgDat) -> TexEnvStage {
    match data {
        ImgDat::Rgba8(_) => rgba8_stage(),
        ImgDat::Alpha8(_) => font_stage(),
    }
}

/// Chooses the stage-0 set-up for the kind of pixel data being drawn.
pub fn configure_texenv(data: &ImgDat) -> (s: TexEnvStage)
    ensures
        s == stage_for(*data),
        data is Rgba8 ==> s.rgb.source0 == TexEnvSource::Texture0 && s.rgb.func
            == CombineFunc::Replace,
        data is Alpha8 ==> s.rgb.source0 == TexEnvSource::PrimaryColor && s.rgb.func
            == CombineFunc::Replace,
{
    match data {
        ImgDat::Rgba8(..) => configure_rgba8_texenv(),
        ImgDat::Alpha8(..) => configure_font_texenv(),
    }
}

/// egui's texture sampling filter.
#[derive(Clone, Copy, PartialEq, Eq, Structural, Debug)]
pub enum TextureFilter {
    Nearest,
    Linear,
}

/// The GPU's texture sampling filter.
#[derive(Clone, Copy, PartialEq, Eq, Structural, Debug)]
pub enum GpuFilter {
    Nearest,
    Linear,
}

/// The GPU filter for an egui filter: nearest stays nearest, linear stays
/// linear.
pub fn egui_filter_to_3ds(t: TextureFilter) -> (f: GpuFilter)
    ensures
        t == TextureFilter::Nearest ==> f == GpuFilter::Nearest,
        t == TextureFilter::Linear ==> f == GpuFilter::Linear,
{
    match t {
        TextureFilter::Nearest => GpuFilter::Nearest,
        TextureFilter::Linear => GpuFilter::Linear,
    }
}

/// The pixel format of a texture.
#[derive(Clone, Copy, PartialEq, Eq, Structural, Debug)]
pub enum TexFormat {
    Rgba8,
    A8,
}

/// The size and pixel format of a texture on the GPU.
#[derive(Clone, Copy, PartialEq, Eq, Structural, Debug)]
pub struct Texture {
    pub width: u16,
    pub height: u16,
    pub format: TexFormat,
}

/// A texture together with the pixel data it was filled from.
pub struct TexAndData {
    tex: Texture,
    data: ImgDat,
}

impl TexAndData {
    /// Pairs a texture with its pixel data.
    pub fn new(tex: Texture, data: ImgDat) -> (r: TexAndData)
        ensures
            r.tex_spec() == tex,
            r.data_spec() == data,
    {
        TexAndData { tex, data }
    }

    pub closed spec fn tex_spec(&self) -> Texture {
        self.tex
    }

    pub closed spec fn data_spec(&self) -> ImgDat {
        self.data
    }

    /// The texture.
    pub fn tex(&self) -> (t: &Texture)
        ensures
            *t == self.tex_spec(),
    {
        &self.tex
    }

    /// The pixel data.
    pub fn data(&self) -> (d: &ImgDat)
        ensures
            *d == self.data_spec(),
    {
        &self.data
    }

    /// The stage-0 set-up for drawing with this texture.
    pub fn texenv(&self) -> (s: TexEnvStage)
        ensures
            s == stage_for(self.data_spec()),
    {
        configure_texenv(&self.data)
    }
}


/// An RGBA image is drawn in its own colours: the colour half of its set-up
/// is the texture colour alone, replacing, for every image whatever its
/// pixels or their number; its alpha is texture alpha times vertex alpha.
pub proof fn lemma_rgba8_drawn_in_texture_colour(v: Vec<u32>)
    ensures
        stage_for(ImgDat::Rgba8(v)).rgb == (TexEnvCombiner {
            source0: TexEnvSource::Texture0,
            source1: None,
            source2: None,
            func: CombineFunc::Replace,
        }),
        stage_for(ImgDat::Rgba8(v)).alpha == (TexEnvCombiner {
            source0: TexEnvSource::Texture0,
            source1: Some(TexEnvSource::PrimaryColor),
            source2: None,
            func: CombineFunc::Modulate,
        }),
        rgba8_stage().rgb == (TexEnvCombiner {
            source0: TexEnvSource::Texture0,
            source1: None,
            source2: None,
            func: CombineFunc::Replace,
        }),
{
}

/// Font glyphs are drawn in the vertex colour: the colour half of the
/// alpha-only set-up is the vertex colour alone, replacing, for all alpha
/// data; the coverage is texture alpha times vertex alpha.
pub proof fn lemma_alpha8_drawn_in_vertex_colour(v: Vec<u8>)
    ensures
        stage_for(ImgDat::Alpha8(v)).rgb == (TexEnvCombiner {
            source0: TexEnvSource::PrimaryColor,
            source1: None,
            source2: None,
            func: CombineFunc::Replace,
        }),
        stage_for(ImgDat::Alpha8(v)).alpha == (TexEnvCombiner {
            source0: TexEnvSource::Texture0,
            source1: Some(TexEnvSource::PrimaryColor),
            source2: None,
            func: CombineFunc::Modulate,
        }),
{
}


/// The four bytes of a word are its base-256 digits: least significant
/// first in little-endian order, most significant first in big-endian order.
pub proof fn lemma_word_bytes_digits(w: u32)
    ensures
        ({
            let l = word_bytes(w, true);
            &&& l.len() == 4
            &&& w == l[0] + 0x100 * l[1] + 0x1_0000 * l[2] + 0x100_0000 * l[3]
        }),
        word_bytes(w, false) == word_bytes(w, true).reverse(),
{
    let l = word_bytes(w, true);
    assert(w == l[0] + 0x100 * l[1] + 0x1_0000 * l[2] + 0x100_0000 * l[3]) by (nonlinear_arith)
        requires
            l[0] == w % 0x100,
            l[1] == (w / 0x100) % 0x100,
            l[2] == (w / 0x1_0000) % 0x100,
            l[3] == w / 0x100_0000,
            w < 0x1_0000_0000,
    ;
    assert(word_bytes(w, false) =~= word_bytes(w, true).reverse());
}

} // verus!
