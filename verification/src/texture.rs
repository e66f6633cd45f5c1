use vstd::prelude::*;

verus! {

/// What the image decoder yields for a byte string: the RGBA8 width,
/// height and pixel bytes, or the decoder's diagnostic.
pub uninterp spec fn rgba_decode(bytes: Seq<u8>) -> Result<(u32, u32, Seq<u8>), Seq<char>>;

/// An RGBA8 texture held as plain values: width, height and four bytes per
/// pixel, row-major. The GPU-resident copy lives with the embedder, keyed
/// by the owning playground's generation counter.
pub struct TextureImage {
    width: u32,
    height: u32,
    pixels: Vec<u8>,
}

/// Relies on image::load_from_memory (format sniffed from the bytes) and
/// DynamicImage::to_rgba8: the decoded pixels depend on the bytes alone,
/// and an RGBA8 buffer holds exactly four bytes per pixel.
#[verifier::external_body]
pub(crate) fn decode_rgba(bytes: &Vec<u8>) -> (r: Result<TextureImage, String>)
    ensures
        r is Ok <==> rgba_decode(bytes@) is Ok,
        r matches Ok(t) ==> (t.w(), t.h(), t.px()) == rgba_decode(bytes@)->Ok_0 && t.px().len()
            == 4 * t.w() * t.h(),
        r matches Err(d) ==> d@ == rgba_decode(bytes@)->Err_0,
{
    match image::load_from_memory(bytes) {
        Ok(img) => {
            let rgba = img.to_rgba8();
            let (width, height) = (rgba.width(), rgba.height());
            Ok(TextureImage { width, height, pixels: rgba.into_raw() })
        },
        Err(e) => Err(e.to_string()),
    }
}

impl TextureImage {
    /// Width in pixels.
    pub closed spec fn w(&self) -> u32 {
        self.width
    }

    /// Height in pixels.
    pub closed spec fn h(&self) -> u32 {
        self.height
    }

    /// The pixel bytes, four per pixel, row-major.
    pub closed spec fn px(&self) -> Seq<u8> {
        self.pixels@
    }

    /// Four bytes per pixel.
    pub open spec fn wf(&self) -> bool {
        self.px().len() == 4 * self.w() * self.h()
    }

    /// The 1-by-1 transparent placeholder bound before any texture loads.
    pub fn placeholder() -> (r: TextureImage)
        ensures
            r.w() == 1,
            r.h() == 1,
            r.px() == seq![0u8, 0u8, 0u8, 0u8],
            r.wf(),
    {
        let mut pixels: Vec<u8> = Vec::new();
        pixels.push(0);
        pixels.push(0);
        pixels.push(0);
        pixels.push(0);
        proof {
            assert(pixels@ =~= seq![0u8, 0u8, 0u8, 0u8]);
        }
        TextureImage { width: 1, height: 1, pixels }
    }

    /// Width in pixels.
    pub fn width(&self) -> (r: u32)
        ensures
            r == self.w(),
    {
        self.width
    }

    /// Height in pixels.
    pub fn height(&self) -> (r: u32)
        ensures
            r == self.h(),
    {
        self.height
    }

    /// The pixel bytes.
    pub fn pixels(&self) -> (r: &Vec<u8>)
        ensures
            r@ == self.px(),
    {
        &self.pixels
    }
}

} // verus!
