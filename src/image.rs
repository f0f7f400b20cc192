//! Image format detection and measurement from header bytes.
use vstd::prelude::*;

verus! {

/// The raster formats that can be embedded without re-encoding.
#[derive(Debug, Clone, Copy, PartialEq, Eq, Structural)]
pub enum HwpxImageFormat {
    Png,
    Jpeg,
    Gif,
    Bmp,
}

/// Big-endian value of two bytes.
pub open spec fn be16(a: u8, b: u8) -> nat {
    a as nat * 256 + b as nat
}

/// Big-endian value of four bytes.
pub open spec fn be32(a: u8, b: u8, c: u8, d: u8) -> nat {
    a as nat * 16777216 + b as nat * 65536 + c as nat * 256 + d as nat
}

/// Little-endian value of two bytes.
pub open spec fn le16(a: u8, b: u8) -> nat {
    a as nat + b as nat * 256
}

/// Little-endian value of four bytes, read as an unsigned word.
pub open spec fn le32(a: u8, b: u8, c: u8, d: u8) -> nat {
    be32(d, c, b, a)
}

/// Magnitude of a 32-bit word read as a two's-complement signed integer.
pub open spec fn signed_magnitude(w: nat) -> nat {
    if w < 2147483648 {
        w
    } else {
        (4294967296 - w) as nat
    }
}

/// Format recognised by the leading magic bytes, in priority order.
pub open spec fn format_of(d: Seq<u8>) -> Option<HwpxImageFormat> {
    if d.len() < 8 {
        None
    } else if d[0] == 0x89 && d[1] == 0x50 && d[2] == 0x4E && d[3] == 0x47 {
        Some(HwpxImageFormat::Png)
    } else if d[0] == 0xFF && d[1] == 0xD8 && d[2] == 0xFF {
        Some(HwpxImageFormat::Jpeg)
    } else if d[0] == 0x47 && d[1] == 0x49 && d[2] == 0x46 {
        Some(HwpxImageFormat::Gif)
    } else if d[0] == 0x42 && d[1] == 0x4D {
        Some(HwpxImageFormat::Bmp)
    } else {
        None
    }
}

/// PNG: width and height are big-endian words at offsets 16 and 20.
pub open spec fn png_dims(d: Seq<u8>) -> Option<(nat, nat)> {
    if d.len() < 24 {
        None
    } else {
        Some((be32(d[16], d[17], d[18], d[19]), be32(d[20], d[21], d[22], d[23])))
    }
}

/// GIF: width and height are little-endian halfwords at offsets 6 and 8.
pub open spec fn gif_dims(d: Seq<u8>) -> Option<(nat, nat)> {
    if d.len() < 10 {
        None
    } else {
        Some((le16(d[6], d[7]), le16(d[8], d[9])))
    }
}

/// BMP: width and height are signed little-endian words at offsets 18 and 22,
/// taken as magnitudes.
pub open spec fn bmp_dims(d: Seq<u8>) -> Option<(nat, nat)> {
    if d.len() < 26 {
        None
    } else {
        Some(
            (
                signed_magnitude(le32(d[18], d[19], d[20], d[21])),
                signed_magnitude(le32(d[22], d[23], d[24], d[25])),
            ),
        )
    }
}

/// JPEG marker scan from offset `i`: stop at the first start-of-frame marker
/// (`FF C0` or `FF C2`), skip any other marker segment by its length field,
/// and step over bytes that are not `FF`.
pub open spec fn jpeg_scan(d: Seq<u8>, i: int) -> Option<(nat, nat)>
    decreases d.len() - i,
{
    if i < 0 || i + 1 >= d.len() {
        None
    } else if d[i] != 0xFF {
        jpeg_scan(d, i + 1)
    } else if d[i + 1] == 0xC0 || d[i + 1] == 0xC2 {
        if i + 9 < d.len() {
            Some((be16(d[i + 7], d[i + 8]), be16(d[i + 5], d[i + 6])))
        } else {
            None
        }
    } else if i + 3 < d.len() {
        let next = i + 2 + be16(d[i + 2], d[i + 3]);
        if next + 1 >= d.len() {
            None
        } else {
            jpeg_scan(d, next)
        }
    } else {
        None
    }
}

pub open spec fn jpeg_dims(d: Seq<u8>) -> Option<(nat, nat)> {
    jpeg_scan(d, 2)
}

/// Pixel dimensions of an image of the given format.
pub open spec fn pixel_dims(d: Seq<u8>, f: HwpxImageFormat) -> Option<(nat, nat)> {
    match f {
        HwpxImageFormat::Png => png_dims(d),
        HwpxImageFormat::Jpeg => jpeg_dims(d),
        HwpxImageFormat::Gif => gif_dims(d),
        HwpxImageFormat::Bmp => bmp_dims(d),
    }
}

/// Millimetres of `px` pixels at 96 DPI, rounded half up (`px * 25.4 / 96`),
/// never below 1.
pub open spec fn px_to_mm(px: nat) -> nat {
    let mm = (px * 254 + 480) / 960;
    if mm < 1 {
        1
    } else {
        mm
    }
}

/// Physical size in millimetres: both axes or neither; each axis is at
/// least 1 mm.
pub open spec fn dims_mm(d: Seq<u8>, f: HwpxImageFormat) -> (Option<u32>, Option<u32>) {
    match pair_of(pixel_dims(d, f)) {
        (Some(w), Some(h)) => (Some(px_to_mm(w as nat) as u32), Some(px_to_mm(h as nat) as u32)),
        _ => (None, None),
    }
}

/// Both axes, or neither.
pub open spec fn pair_of(d: Option<(nat, nat)>) -> (Option<u32>, Option<u32>) {
    match d {
        Some((w, h)) => (Some(w as u32), Some(h as u32)),
        None => (None, None),
    }
}

fn be16_of(a: u8, b: u8) -> (r: u32)
    ensures
        r == be16(a, b),
{
    a as u32 * 256 + b as u32
}

fn le32_of(a: u8, b: u8, c: u8, d: u8) -> (r: u32)
    ensures
        r == le32(a, b, c, d),
{
    d as u32 * 16777216 + c as u32 * 65536 + b as u32 * 256 + a as u32
}

fn magnitude_of(w: u32) -> (r: u32)
    ensures
        r == signed_magnitude(w as nat),
{
    if w < 0x8000_0000 {
        w
    } else {
        (4294967296u64 - w as u64) as u32
    }
}

fn mm_of(px: u32) -> (r: u32)
    ensures
        r == px_to_mm(px as nat),
{
    let mm: u64 = (px as u64 * 254 + 480) / 960;
    if mm < 1 {
        1
    } else {
        mm as u32
    }
}

impl HwpxImageFormat {
    /// File extension used for the embedded binary entry.
    pub fn extension(&self) -> (r: &'static str)
        ensures
            r@ == self.extension_spec(),
    {
        match self {
            HwpxImageFormat::Png => "png",
            HwpxImageFormat::Jpeg => "jpg",
            HwpxImageFormat::Gif => "gif",
            HwpxImageFormat::Bmp => "bmp",
        }
    }

    pub open spec fn extension_spec(&self) -> Seq<char> {
        match self {
            HwpxImageFormat::Png => "png"@,
            HwpxImageFormat::Jpeg => "jpg"@,
            HwpxImageFormat::Gif => "gif"@,
            HwpxImageFormat::Bmp => "bmp"@,
        }
    }

    /// Detects the format from magic bytes; buffers under 8 bytes are refused.
    pub fn from_bytes(data: &[u8]) -> (r: Option<HwpxImageFormat>)
        ensures
            r == format_of(data@),
    {
        if data.len() < 8 {
            None
        } else if data[0] == 0x89 && data[1] == 0x50 && data[2] == 0x4E && data[3] == 0x47 {
            Some(HwpxImageFormat::Png)
        } else if data[0] == 0xFF && data[1] == 0xD8 && data[2] == 0xFF {
            Some(HwpxImageFormat::Jpeg)
        } else if data[0] == 0x47 && data[1] == 0x49 && data[2] == 0x46 {
            Some(HwpxImageFormat::Gif)
        } else if data[0] == 0x42 && data[1] == 0x4D {
            Some(HwpxImageFormat::Bmp)
        } else {
            None
        }
    }
}

/// Raw image bytes with their format and cached physical size.
#[derive(Debug, Clone)]
pub struct HwpxImage {
    pub data: Vec<u8>,
    pub format: HwpxImageFormat,
    pub width_mm: Option<u32>,
    pub height_mm: Option<u32>,
}

impl HwpxImage {
    /// Both sizes are present or both are absent.
    pub open spec fn wf(&self) -> bool {
        self.width_mm.is_some() == self.height_mm.is_some()
    }

    /// Sniffs the format and measures the image; `None` for unknown bytes.
    pub fn from_bytes(data: Vec<u8>) -> (r: Option<HwpxImage>)
        ensures
            r is None <==> format_of(data@) is None,
            r matches Some(img) ==> {
                &&& img.data@ == data@
                &&& Some(img.format) == format_of(data@)
                &&& (img.width_mm, img.height_mm) == dims_mm(data@, img.format)
                &&& img.wf()
            },
    {
        match HwpxImageFormat::from_bytes(data.as_slice()) {
            None => None,
            Some(format) => {
                let (width_mm, height_mm) = HwpxImage::read_dimensions_mm(data.as_slice(), format);
                Some(HwpxImage { data, format, width_mm, height_mm })
            },
        }
    }

    /// Overrides the physical size.
    pub fn with_size(self, width_mm: u32, height_mm: u32) -> (r: HwpxImage)
        ensures
            r.data == self.data,
            r.format == self.format,
            r.width_mm == Some(width_mm),
            r.height_mm == Some(height_mm),
    {
        HwpxImage { width_mm: Some(width_mm), height_mm: Some(height_mm), ..self }
    }

    /// Physical size in millimetres at 96 DPI, both axes or neither.
    pub fn read_dimensions_mm(data: &[u8], format: HwpxImageFormat) -> (r: (
        Option<u32>,
        Option<u32>,
    ))
        ensures
            r == dims_mm(data@, format),
    {
        let (w_px, h_px) = match format {
            HwpxImageFormat::Png => HwpxImage::read_png_dimensions(data),
            HwpxImageFormat::Jpeg => HwpxImage::read_jpeg_dimensions(data),
            HwpxImageFormat::Gif => HwpxImage::read_gif_dimensions(data),
            HwpxImageFormat::Bmp => HwpxImage::read_bmp_dimensions(data),
        };
        match (w_px, h_px) {
            (Some(w), Some(h)) => (Some(mm_of(w)), Some(mm_of(h))),
            _ => (None, None),
        }
    }

    pub fn read_png_dimensions(data: &[u8]) -> (r: (Option<u32>, Option<u32>))
        ensures
            r == pair_of(png_dims(data@)),
    {
        if data.len() < 24 {
            return (None, None);
        }
        let w = le32_of(data[19], data[18], data[17], data[16]);
        let h = le32_of(data[23], data[22], data[21], data[20]);
        (Some(w), Some(h))
    }

    pub fn read_jpeg_dimensions(data: &[u8]) -> (r: (Option<u32>, Option<u32>))
        ensures
            r == pair_of(jpeg_dims(data@)),
    {
        let mut i: usize = 2;
        while i < data.len() && data.len() - i > 1
            invariant
                2 <= i,
                jpeg_scan(data@, i as int) == jpeg_scan(data@, 2),
            decreases data.len() - i,
        {
            if data[i] != 0xFF {
                i += 1;
                continue;
            }
            let marker = data[i + 1];
            if marker == 0xC0 || marker == 0xC2 {
                if data.len() - i > 9 {
                    let h = be16_of(data[i + 5], data[i + 6]);
                    let w = be16_of(data[i + 7], data[i + 8]);
                    return (Some(w), Some(h));
                }
                return (None, None);
            }
            if data.len() - i > 3 {
                let seg_len = be16_of(data[i + 2], data[i + 3]) as usize;
                if seg_len + 3 >= data.len() - i {
                    return (None, None);
                }
                i = i + 2 + seg_len;
            } else {
                return (None, None);
            }
        }
        (None, None)
    }

    pub fn read_gif_dimensions(data: &[u8]) -> (r: (Option<u32>, Option<u32>))
        ensures
            r == pair_of(gif_dims(data@)),
    {
        if data.len() < 10 {
            return (None, None);
        }
        let w = data[6] as u32 + data[7] as u32 * 256;
        let h = data[8] as u32 + data[9] as u32 * 256;
        (Some(w), Some(h))
    }

    pub fn read_bmp_dimensions(data: &[u8]) -> (r: (Option<u32>, Option<u32>))
        ensures
            r == pair_of(bmp_dims(data@)),
    {
        if data.len() < 26 {
            return (None, None);
        }
        let w = magnitude_of(le32_of(data[18], data[19], data[20], data[21]));
        let h = magnitude_of(le32_of(data[22], data[23], data[24], data[25]));
        (Some(w), Some(h))
    }
}

} // verus!
