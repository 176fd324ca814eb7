//! Icon bitmaps: coverage pixels, the bitmap of an icon, requests for loading them,
//! and icon scales.

use vstd::prelude::*;

use crate::resource::ResourceHandle;

verus! {

/// Width and height, in pixels, of every icon bitmap.
pub const ICON_BITMAP_DIMENSION: u32 = 20;

/// Coverage of one icon pixel (0 none, 255 full).
#[derive(Copy, Clone, PartialEq, Eq, Structural, Debug, Default)]
pub struct IconPixelData {
    pub data: u8,
}

impl IconPixelData {
    pub const FULL_COVERAGE: u8 = 255u8;
    pub const NO_COVERAGE: u8 = 0u8;

    pub fn new(data: u8) -> (r: IconPixelData)
        ensures
            r.data == data,
    {
        IconPixelData { data }
    }
}

impl From<u8> for IconPixelData {
    fn from(value: u8) -> (r: IconPixelData) {
        IconPixelData { data: value }
    }
}

impl vstd::std_specs::convert::FromSpecImpl<u8> for IconPixelData {
    open spec fn obeys_from_spec() -> bool {
        true
    }

    open spec fn from_spec(value: u8) -> IconPixelData {
        IconPixelData { data: value }
    }
}

/// The coverage pixels of `bytes`, one per byte.
pub open spec fn pixels_of(bytes: Seq<u8>) -> Seq<IconPixelData> {
    bytes.map_values(|b: u8| IconPixelData { data: b })
}

/// What `serde_json` parses `text` into as a `Vec<u8>`: the bytes of a JSON array of
/// integers from 0 to 255, or nothing when `text` is not one.
pub uninterp spec fn json_byte_array(text: Seq<char>) -> Option<Seq<u8>>;

#[verifier::external_type_specification]
#[verifier::external_body]
pub struct ExJsonError(serde_json::Error);

/// Calls `serde_json::from_str::<Vec<u8>>` on `text`. The claim is that the call's
/// outcome depends on `text` alone: the bytes named by `json_byte_array` on success,
/// an error exactly when `json_byte_array` names none. The content of the error is
/// left unsaid.
#[verifier::external_body]
fn parse_byte_array(text: &str) -> (r: Result<Vec<u8>, serde_json::Error>)
    ensures
        match r {
            Ok(bytes) => json_byte_array(text@) == Some(bytes@),
            Err(_) => json_byte_array(text@) is None,
        },
{
    serde_json::from_str::<Vec<u8>>(text)
}

/// The pixels of an icon file: a JSON array of coverage bytes.
pub(crate) fn read_icon_file(file: &str) -> (r: Vec<IconPixelData>)
    requires
        json_byte_array(file@) is Some,
    ensures
        r@ == pixels_of(json_byte_array(file@).unwrap()),
{
    match parse_byte_array(file) {
        Ok(bytes) => pixels_from_bytes(&bytes),
        Err(_) => {
            proof {
                assert(false);
            }
            Vec::new()
        },
    }
}

/// The pixels of an icon file, or nothing when the file is not a JSON byte array.
pub fn try_read_icon_file(file: &str) -> (r: Option<Vec<IconPixelData>>)
    ensures
        match json_byte_array(file@) {
            Some(bytes) => r matches Some(p) && p@ == pixels_of(bytes),
            None => r is None,
        },
{
    match parse_byte_array(file) {
        Ok(bytes) => Some(pixels_from_bytes(&bytes)),
        Err(_) => None,
    }
}

/// One coverage pixel per byte.
pub fn pixels_from_bytes(bytes: &Vec<u8>) -> (r: Vec<IconPixelData>)
    ensures
        r@ == pixels_of(bytes@),
{
    let mut pixels: Vec<IconPixelData> = Vec::new();
    let mut i: usize = 0;
    while i < bytes.len()
        invariant
            0 <= i <= bytes@.len(),
            pixels@ == pixels_of(bytes@.take(i as int)),
        decreases bytes@.len() - i,
    {
        pixels.push(IconPixelData::new(bytes[i]));
        proof {
            assert(bytes@.take(i + 1) == bytes@.take(i as int).push(bytes@[i as int]));
        }
        i = i + 1;
    }
    proof {
        assert(bytes@.take(bytes@.len() as int) == bytes@);
    }
    pixels
}

/// The coverage bitmap of one icon: `ICON_BITMAP_DIMENSION` squared pixels, row by row.
#[derive(Clone, Debug)]
pub struct IconBitmap {
    pub data: Vec<IconPixelData>,
}

impl IconBitmap {
    /// A bitmap of exactly `ICON_BITMAP_DIMENSION * ICON_BITMAP_DIMENSION` pixels.
    pub fn new(data: Vec<IconPixelData>) -> (r: IconBitmap)
        requires
            data@.len() == ICON_BITMAP_DIMENSION * ICON_BITMAP_DIMENSION,
        ensures
            r.data@ == data@,
    {
        IconBitmap { data }
    }

    /// The bitmap of an icon file, or nothing when the file is not a JSON byte array of
    /// the right length.
    pub fn from_icon_file(file: &str) -> (r: Option<IconBitmap>)
        ensures
            match json_byte_array(file@) {
                Some(bytes) => if bytes.len() == ICON_BITMAP_DIMENSION * ICON_BITMAP_DIMENSION {
                    r matches Some(b) && b.data@ == pixels_of(bytes)
                } else {
                    r is None
                },
                None => r is None,
            },
    {
        match try_read_icon_file(file) {
            Some(pixels) => {
                if pixels.len() == (ICON_BITMAP_DIMENSION * ICON_BITMAP_DIMENSION) as usize {
                    Some(IconBitmap::new(pixels))
                } else {
                    None
                }
            },
            None => None,
        }
    }
}

/// Icons whose bitmaps ship with the library.
#[derive(Copy, Clone, PartialEq, Eq, Structural, Debug)]
pub enum BundledIcon {
    Square,
    Edit,
    Add,
    ArrowRight,
    ArrowLeft,
    Run,
    Delete,
    Generate,
    At,
}

impl BundledIcon {
    /// Name of the icon file holding this icon's bitmap.
    pub fn file_name(&self) -> (r: &'static str)
        ensures
            r@ == match *self {
                BundledIcon::Square => "square.icon"@,
                BundledIcon::Edit => "edit_alt.icon"@,
                BundledIcon::Add => "add.icon"@,
                BundledIcon::ArrowRight => "page_right.icon"@,
                BundledIcon::ArrowLeft => "page_left.icon"@,
                BundledIcon::Run => "run.icon"@,
                BundledIcon::Delete => "delete.icon"@,
                BundledIcon::Generate => "generate.icon"@,
                BundledIcon::At => "at.icon"@,
            },
    {
        match self {
            BundledIcon::Square => "square.icon",
            BundledIcon::Edit => "edit_alt.icon",
            BundledIcon::Add => "add.icon",
            BundledIcon::ArrowRight => "page_right.icon",
            BundledIcon::ArrowLeft => "page_left.icon",
            BundledIcon::Run => "run.icon",
            BundledIcon::Delete => "delete.icon",
            BundledIcon::Generate => "generate.icon",
            BundledIcon::At => "at.icon",
        }
    }
}

/// A bitmap to upload under a resource handle.
#[derive(Clone, Debug)]
pub struct IconBitmapRequest {
    pub id: ResourceHandle,
    pub bitmap: Option<IconBitmap>,
}

impl IconBitmapRequest {
    pub fn new(id: ResourceHandle, bitmap: IconBitmap) -> (r: IconBitmapRequest)
        ensures
            r.id == id,
            r.bitmap matches Some(b) && b.data@ == bitmap.data@,
    {
        IconBitmapRequest { id, bitmap: Some(bitmap) }
    }
}

/// Bitmap requests gathered before the icon renderer starts.
pub struct IconBitmapRequestManager {
    pub requests: Vec<IconBitmapRequest>,
}

impl IconBitmapRequestManager {
    pub fn new() -> (r: IconBitmapRequestManager)
        ensures
            r.requests@.len() == 0,
    {
        IconBitmapRequestManager { requests: Vec::new() }
    }

    /// Queues `request` after the ones already gathered.
    pub fn add(&mut self, request: IconBitmapRequest)
        ensures
            final(self).requests@ == old(self).requests@.push(request),
    {
        self.requests.push(request);
    }
}

/// Names an icon.
#[derive(Copy, Clone, PartialEq, Eq, Structural, Debug, Hash)]
pub struct IconHandle(pub i32);

impl From<i32> for IconHandle {
    fn from(value: i32) -> (r: IconHandle) {
        IconHandle(value)
    }
}

impl vstd::std_specs::convert::FromSpecImpl<i32> for IconHandle {
    open spec fn obeys_from_spec() -> bool {
        true
    }

    open spec fn from_spec(value: i32) -> IconHandle {
        IconHandle(value)
    }
}

/// Size of an icon: square, or width by height.
#[derive(Copy, Clone, PartialEq, Eq, Debug)]
pub enum IconScale {
    Symmetrical(u32),
    Asymmetrical((u32, u32)),
}

impl From<u32> for IconScale {
    fn from(value: u32) -> (r: IconScale) {
        IconScale::Symmetrical(value)
    }
}

impl vstd::std_specs::convert::FromSpecImpl<u32> for IconScale {
    open spec fn obeys_from_spec() -> bool {
        true
    }

    open spec fn from_spec(value: u32) -> IconScale {
        IconScale::Symmetrical(value)
    }
}

impl IconScale {
    /// Width and height of the icon (its area, before conversion to pixels as floats).
    pub fn dimensions(&self) -> (r: (u32, u32))
        ensures
            r == match *self {
                IconScale::Symmetrical(d) => (d, d),
                IconScale::Asymmetrical(wh) => wh,
            },
    {
        match self {
            IconScale::Symmetrical(dim) => (*dim, *dim),
            IconScale::Asymmetrical((width, height)) => (*width, *height),
        }
    }
}

/// Side, in cells, of the square atlas that holds `count` icon bitmaps: the smallest side,
/// at least one cell, whose square holds them all.
pub fn atlas_dimension(count: u32) -> (d: u32)
    ensures
        d >= 1,
        count <= d * d,
        d == 1 || (d - 1) * (d - 1) < count,
{
    let mut d: u64 = 1;
    while d * d < count as u64
        invariant
            1 <= d <= 65536,
            d * d <= 65536 * 65536,
            d == 1 || (d - 1) * (d - 1) < count,
        decreases 65536 - d,
    {
        assert(d < 65536) by (nonlinear_arith)
            requires
                d * d < count,
                count <= 0xffff_ffff,
                d >= 1,
        ;
        d = d + 1;
        assert(d * d <= 65536 * 65536) by (nonlinear_arith)
            requires
                1 <= d <= 65536,
        ;
    }
    d as u32
}

/// The atlas cell (column, row) of each of `count` bitmaps in an atlas `dimension` cells
/// wide, filled row by row: bitmap `i` goes to column `i % dimension` of row
/// `i / dimension`.
pub fn atlas_locations(count: u32, dimension: u32) -> (r: Vec<(u32, u32)>)
    requires
        dimension >= 1,
    ensures
        r@.len() == count,
        forall|i: int|
            0 <= i < count ==> #[trigger] r@[i] == ((i % dimension as int) as u32, (i
                / dimension as int) as u32),
{
    let mut r: Vec<(u32, u32)> = Vec::new();
    let mut x: u32 = 0;
    let mut y: u32 = 0;
    let mut i: u32 = 0;
    while i < count
        invariant
            dimension >= 1,
            i <= count,
            r@.len() == i,
            x < dimension,
            i == y * dimension + x,
            forall|j: int|
                0 <= j < i ==> #[trigger] r@[j] == ((j % dimension as int) as u32, (j
                    / dimension as int) as u32),
        decreases count - i,
    {
        proof {
            vstd::arithmetic::div_mod::lemma_fundamental_div_mod_converse(
                i as int,
                dimension as int,
                y as int,
                x as int,
            );
            assert(y <= i) by (nonlinear_arith)
                requires
                    i == y * dimension + x,
                    dimension >= 1,
                    x >= 0,
                    y >= 0,
            ;
        }
        r.push((x, y));
        if x + 1 >= dimension {
            proof {
                assert(i + 1 == (y + 1) * dimension) by (nonlinear_arith)
                    requires
                        i == y * dimension + x,
                        x + 1 == dimension,
                ;
            }
            x = 0;
            y = y + 1;
        } else {
            x = x + 1;
        }
        i = i + 1;
    }
    r
}

} // verus!
