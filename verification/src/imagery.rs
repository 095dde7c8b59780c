use vstd::prelude::*;
use crate::models::{ItemType, ThumbnailKey};
use crate::text::str_eq;

verus! {

/// A decoded image: `rgba` holds four bytes (red, green, blue, alpha) per
/// pixel, row by row.
#[derive(Debug, PartialEq)]
pub struct Pixels {
    pub width: u32,
    pub height: u32,
    pub rgba: Vec<u8>,
}

impl Pixels {
    /// The buffer holds exactly the pixels that the dimensions describe.
    pub open spec fn wf(self) -> bool {
        self.rgba@.len() == 4 * self.width * self.height
    }

    /// The red, green and blue bytes of the pixel in column `x` of row `y`.
    pub open spec fn rgb_at(self, x: int, y: int) -> Rgb {
        let i = 4 * (y * self.width + x);
        Rgb { red: self.rgba@[i], green: self.rgba@[i + 1], blue: self.rgba@[i + 2] }
    }
}

/// A colour given by its red, green and blue bytes.
#[derive(Debug, Clone, Copy, PartialEq, Eq, Structural)]
pub struct Rgb {
    pub red: u8,
    pub green: u8,
    pub blue: u8,
}

/// One terminal cell of a half-block picture: the upper half shows `fg`, the
/// lower half `bg`, or the terminal's black where the image has no pixel row
/// there.
#[derive(Debug, Clone, Copy, PartialEq, Eq, Structural)]
pub struct HalfBlock {
    pub symbol: char,
    pub fg: Rgb,
    pub bg: Option<Rgb>,
}

/// The upper half block, U+2580.
pub const UPPER_HALF_BLOCK: char = '\u{2580}';

/// The cell in column `x` of cell row `y`: it shows pixel rows `2y` and `2y + 1`.
pub open spec fn halfblock_spec(img: Pixels, x: int, y: int) -> HalfBlock {
    HalfBlock {
        symbol: UPPER_HALF_BLOCK,
        fg: img.rgb_at(x, 2 * y),
        bg: if 2 * y + 1 < img.height {
            Some(img.rgb_at(x, 2 * y + 1))
        } else {
            None
        },
    }
}

/// How many cell columns of an area `area_width` wide the image fills.
pub open spec fn filled_columns(img: Pixels, area_width: int) -> int {
    if area_width < img.width {
        area_width
    } else {
        img.width as int
    }
}

/// How many cell rows of an area `area_height` high the image fills: each
/// cell row shows two pixel rows.
pub open spec fn filled_rows(img: Pixels, area_height: int) -> int {
    let pixel_pairs = (img.height + 1) / 2;
    if area_height < pixel_pairs {
        area_height
    } else {
        pixel_pairs
    }
}

proof fn lemma_pixel_index(x: int, y: int, w: int, h: int)
    requires
        0 <= x < w,
        0 <= y < h,
    ensures
        0 <= y * w + x < w * h,
        4 * (y * w + x) + 3 < 4 * (w * h),
{
    assert(y * w + x < w * h) by (nonlinear_arith)
        requires
            0 <= x < w,
            0 <= y < h,
    ;
    assert(0 <= y * w) by (nonlinear_arith)
        requires
            0 <= x < w,
            0 <= y < h,
    ;
}

/// The red, green and blue bytes of one pixel.
fn rgb_of(img: &Pixels, x: u32, y: u32) -> (r: Rgb)
    requires
        img.wf(),
        x < img.width,
        y < img.height,
    ensures
        r == img.rgb_at(x as int, y as int),
{
    let n: usize = img.rgba.len();
    proof {
        lemma_pixel_index(x as int, y as int, img.width as int, img.height as int);
        assert(4 * img.width * img.height == 4 * (img.width * img.height)) by (nonlinear_arith);
        assert((y as usize) * (img.width as usize) + (x as usize) < n);
    }
    let row: usize = (y as usize) * (img.width as usize);
    let i: usize = 4 * (row + (x as usize));
    Rgb { red: img.rgba[i], green: img.rgba[i + 1], blue: img.rgba[i + 2] }
}

/// The half-block cells that show `img` in an area of `area_width` by
/// `area_height` cells, row by row from the top-left corner. Cells past the
/// image's right edge or below its last pixel row are left out.
fn halfblock_rows(img: &Pixels, area_width: u16, area_height: u16) -> (r: Vec<Vec<HalfBlock>>)
    requires
        img.wf(),
    ensures
        r@.len() == filled_rows(*img, area_height as int),
        forall|y: int|
            0 <= y < r@.len() ==> #[trigger] r@[y]@.len() == filled_columns(*img, area_width as int),
        forall|y: int, x: int|
            0 <= y < r@.len() && 0 <= x < r@[y]@.len() ==> #[trigger] r@[y]@[x] == halfblock_spec(
                *img,
                x,
                y,
            ),
{
    let cols: u32 = if (area_width as u32) < img.width {
        area_width as u32
    } else {
        img.width
    };
    let pairs: u32 = img.height / 2 + img.height % 2;
    let rows: u32 = if (area_height as u32) < pairs {
        area_height as u32
    } else {
        pairs
    };
    let mut out: Vec<Vec<HalfBlock>> = Vec::new();
    let mut y: u32 = 0;
    while y < rows
        invariant
            img.wf(),
            cols == filled_columns(*img, area_width as int),
            rows == filled_rows(*img, area_height as int),
            cols <= img.width,
            2 * rows <= img.height + 1,
            y <= rows,
            out@.len() == y,
            forall|j: int| 0 <= j < y ==> #[trigger] out@[j]@.len() == cols,
            forall|j: int, x: int|
                0 <= j < y && 0 <= x < cols ==> #[trigger] out@[j]@[x] == halfblock_spec(
                    *img,
                    x,
                    j,
                ),
        decreases rows - y,
    {
        let top: u32 = 2 * y;
        let mut row: Vec<HalfBlock> = Vec::new();
        let mut x: u32 = 0;
        while x < cols
            invariant
                img.wf(),
                cols <= img.width,
                top == 2 * y,
                top < img.height,
                x <= cols,
                row@.len() == x,
                forall|i: int| 0 <= i < x ==> #[trigger] row@[i] == halfblock_spec(*img, i, y as int),
            decreases cols - x,
        {
            let fg = rgb_of(img, x, top);
            let bg = if top + 1 < img.height {
                Some(rgb_of(img, x, top + 1))
            } else {
                None
            };
            row.push(HalfBlock { symbol: UPPER_HALF_BLOCK, fg, bg });
            x = x + 1;
        }
        out.push(row);
        y = y + 1;
    }
    out
}

/// What the `image` crate makes of `data`: the picture it decodes, scaled to
/// `width` by `height` pixels with its triangle filter, four bytes per pixel
/// row by row; `None` where it cannot decode `data`.
pub uninterp spec fn scaled_pixels(data: Seq<u8>, width: u32, height: u32) -> Option<Seq<u8>>;

/// Decodes `data` with `image::load_from_memory`, which guesses the format
/// from the bytes, scales it with `DynamicImage::resize_exact` and the
/// triangle filter, and lays it out with `to_rgba8`. Trusted: the result is
/// `scaled_pixels` of the arguments, and a decoded picture has exactly the
/// requested size, four bytes per pixel (the crate documents that
/// `resize_exact` returns an image of the given dimensions). The bounds keep
/// the scaled buffers within what can be allocated.
#[verifier::external_body]
fn decode_scaled(data: &[u8], width: u32, height: u32) -> (r: Option<Vec<u8>>)
    requires
        width <= 0xffff,
        height <= 0x1fffe,
    ensures
        match r {
            Some(v) => scaled_pixels(data@, width, height) == Some(v@) && v@.len() == 4 * width
                * height,
            None => scaled_pixels(data@, width, height) is None,
        },
{
    match image::load_from_memory(data) {
        Ok(img) => Some(
            img.resize_exact(width, height, image::imageops::FilterType::Triangle).to_rgba8().into_raw(),
        ),
        Err(_) => None,
    }
}

/// The picture in `data` scaled to `width` by `height` pixels, or `None`
/// where `data` holds no picture that can be decoded.
pub fn decode_thumbnail(data: &[u8], width: u32, height: u32) -> (r: Option<Pixels>)
    requires
        width <= 0xffff,
        height <= 0x1fffe,
    ensures
        match scaled_pixels(data@, width, height) {
            Some(px) => r is Some && r->0.wf() && r->0.width == width && r->0.height == height
                && r->0.rgba@ == px,
            None => r is None,
        },
{
    match decode_scaled(data, width, height) {
        Some(rgba) => Some(Pixels { width, height, rgba }),
        None => None,
    }
}

/// Why a thumbnail could not be cached.
#[derive(Debug, Clone, Copy, PartialEq, Eq, Structural)]
pub enum ThumbnailError {
    /// The bytes hold no picture that can be decoded.
    Undecodable,
}

/// A decoded picture stored under its key.
#[derive(Debug)]
pub struct CachedImage {
    pub key: ThumbnailKey,
    pub image: Pixels,
}

/// A key as a plain value: the item's kind and id.
pub open spec fn key_view(key: ThumbnailKey) -> (ItemType, Seq<char>) {
    (key.item_type, key.item_id@)
}

/// A picture as a plain value: width, height and bytes.
pub open spec fn image_view(img: Pixels) -> (u32, u32, Seq<u8>) {
    (img.width, img.height, img.rgba@)
}

/// The pictures a list of entries holds, by key.
pub open spec fn entries_map(entries: Seq<CachedImage>) -> Map<(ItemType, Seq<char>), (u32, u32, Seq<u8>)>
    decreases entries.len(),
{
    if entries.len() == 0 {
        Map::empty()
    } else {
        entries_map(entries.drop_last()).insert(
            key_view(entries.last().key),
            image_view(entries.last().image),
        )
    }
}

/// No key occurs twice, and every picture is well formed.
pub open spec fn entries_wf(entries: Seq<CachedImage>) -> bool {
    &&& forall|i: int, j: int|
        0 <= i < j < entries.len() ==> key_view(#[trigger] entries[i].key) != key_view(
            #[trigger] entries[j].key,
        )
    &&& forall|i: int| 0 <= i < entries.len() ==> (#[trigger] entries[i]).image.wf()
}

proof fn lemma_entries_lookup(entries: Seq<CachedImage>, i: int)
    requires
        entries_wf(entries),
        0 <= i < entries.len(),
    ensures
        entries_map(entries).dom().contains(key_view(entries[i].key)),
        entries_map(entries)[key_view(entries[i].key)] == image_view(entries[i].image),
    decreases entries.len(),
{
    let last = entries.len() - 1;
    if i < last {
        assert(entries_wf(entries.drop_last()));
        assert(entries.drop_last()[i] == entries[i]);
        lemma_entries_lookup(entries.drop_last(), i);
        assert(key_view(entries[i].key) != key_view(entries[last].key));
    }
}

proof fn lemma_entries_absent(entries: Seq<CachedImage>, k: (ItemType, Seq<char>))
    requires
        forall|i: int| 0 <= i < entries.len() ==> key_view(#[trigger] entries[i].key) != k,
    ensures
        !entries_map(entries).dom().contains(k),
    decreases entries.len(),
{
    if entries.len() > 0 {
        let shorter = entries.drop_last();
        assert forall|i: int| 0 <= i < shorter.len() implies key_view(#[trigger] shorter[i].key) != k by {
            assert(shorter[i] == entries[i]);
        }
        lemma_entries_absent(shorter, k);
        assert(key_view(entries[entries.len() - 1].key) != k);
    }
}

proof fn lemma_entries_replace(entries: Seq<CachedImage>, i: int, e: CachedImage)
    requires
        entries_wf(entries),
        0 <= i < entries.len(),
        key_view(e.key) == key_view(entries[i].key),
    ensures
        entries_map(entries.update(i, e)) == entries_map(entries).insert(
            key_view(e.key),
            image_view(e.image),
        ),
    decreases entries.len(),
{
    let last = entries.len() - 1;
    let updated = entries.update(i, e);
    if i == last {
        assert(updated.drop_last() =~= entries.drop_last());
        assert(entries_wf(entries.drop_last()));
        lemma_entries_absent(entries.drop_last(), key_view(e.key));
        assert(entries_map(entries.drop_last()).insert(key_view(e.key), image_view(e.image))
            =~= entries_map(entries).insert(key_view(e.key), image_view(e.image)));
    } else {
        let shorter = entries.drop_last();
        assert(entries_wf(shorter));
        assert(shorter[i] == entries[i]);
        assert(updated.drop_last() =~= shorter.update(i, e));
        lemma_entries_replace(shorter, i, e);
        assert(key_view(entries[i].key) != key_view(entries[last].key));
        assert(updated.last() == entries.last());
        assert(entries_map(updated) =~= entries_map(entries).insert(
            key_view(e.key),
            image_view(e.image),
        ));
    }
}

fn same_key(a: &ThumbnailKey, b: &ThumbnailKey) -> (r: bool)
    ensures
        r == (key_view(*a) == key_view(*b)),
{
    a.item_type == b.item_type && str_eq(a.item_id.as_str(), b.item_id.as_str())
}

fn find_entry(entries: &Vec<CachedImage>, key: &ThumbnailKey) -> (r: Option<usize>)
    ensures
        match r {
            Some(i) => i < entries@.len() && key_view(entries@[i as int].key) == key_view(*key),
            None => forall|i: int|
                0 <= i < entries@.len() ==> key_view(#[trigger] entries@[i].key) != key_view(*key),
        },
{
    let mut i: usize = 0;
    while i < entries.len()
        invariant
            i <= entries@.len(),
            forall|j: int| 0 <= j < i ==> key_view(#[trigger] entries@[j].key) != key_view(*key),
        decreases entries@.len() - i,
    {
        if same_key(&entries[i].key, key) {
            return Some(i);
        }
        i = i + 1;
    }
    None
}

fn lookup<'a>(entries: &'a Vec<CachedImage>, key: &ThumbnailKey) -> (r: Option<&'a Pixels>)
    requires
        entries_wf(entries@),
    ensures
        r is Some <==> entries_map(entries@).dom().contains(key_view(*key)),
        r is Some ==> image_view(*r->0) == entries_map(entries@)[key_view(*key)] && r->0.wf(),
{
    match find_entry(entries, key) {
        Some(i) => {
            proof {
                lemma_entries_lookup(entries@, i as int);
            }
            Some(&entries[i].image)
        },
        None => {
            proof {
                lemma_entries_absent(entries@, key_view(*key));
            }
            None
        },
    }
}

fn store(entries: &mut Vec<CachedImage>, key: &ThumbnailKey, image: Pixels)
    requires
        entries_wf(old(entries)@),
        image.wf(),
    ensures
        entries_wf(final(entries)@),
        entries_map(final(entries)@) == entries_map(old(entries)@).insert(
            key_view(*key),
            image_view(image),
        ),
{
    let entry = CachedImage { key: key.clone(), image };
    match find_entry(entries, key) {
        Some(i) => {
            proof {
                lemma_entries_replace(entries@, i as int, entry);
            }
            entries.set(i, entry);
            proof {
                assert forall|a: int, b: int|
                    0 <= a < b < entries@.len() implies key_view(#[trigger] entries@[a].key)
                    != key_view(#[trigger] entries@[b].key) by {
                    assert(key_view(old(entries)@[a].key) != key_view(old(entries)@[b].key));
                }
            }
        },
        None => {
            entries.push(entry);
            proof {
                assert(entries@.drop_last() =~= old(entries)@);
                assert forall|a: int, b: int|
                    0 <= a < b < entries@.len() implies key_view(#[trigger] entries@[a].key)
                    != key_view(#[trigger] entries@[b].key) by {
                    if b < entries@.len() - 1 {
                        assert(key_view(old(entries)@[a].key) != key_view(old(entries)@[b].key));
                    } else {
                        assert(entries@[a] == old(entries)@[a]);
                    }
                }
                assert forall|a: int| 0 <= a < entries@.len() implies (#[trigger] entries@[a]).image.wf() by {
                    if a < entries@.len() - 1 {
                        assert(entries@[a] == old(entries)@[a]);
                    }
                }
            }
        },
    }
}

/// Decoded thumbnails ready to draw: list-sized ones, larger ones for the
/// detail view, and channel avatars, each kept by key.
pub struct ThumbnailCache {
    cache: Vec<CachedImage>,
    detail_cache: Vec<CachedImage>,
    avatar_cache: Vec<CachedImage>,
}

impl ThumbnailCache {
    /// The list-sized pictures by key.
    pub closed spec fn thumbnails(&self) -> Map<(ItemType, Seq<char>), (u32, u32, Seq<u8>)> {
        entries_map(self.cache@)
    }

    /// The detail-sized pictures by key.
    pub closed spec fn details(&self) -> Map<(ItemType, Seq<char>), (u32, u32, Seq<u8>)> {
        entries_map(self.detail_cache@)
    }

    /// The avatars by key.
    pub closed spec fn avatars(&self) -> Map<(ItemType, Seq<char>), (u32, u32, Seq<u8>)> {
        entries_map(self.avatar_cache@)
    }

    /// Each store keeps one picture per key, each well formed.
    #[verifier::type_invariant]
    spec fn inv(&self) -> bool {
        &&& entries_wf(self.cache@)
        &&& entries_wf(self.detail_cache@)
        &&& entries_wf(self.avatar_cache@)
    }

    /// An empty cache.
    pub fn new() -> (r: Self)
        ensures
            r.thumbnails() == Map::<(ItemType, Seq<char>), (u32, u32, Seq<u8>)>::empty(),
            r.details() == Map::<(ItemType, Seq<char>), (u32, u32, Seq<u8>)>::empty(),
            r.avatars() == Map::<(ItemType, Seq<char>), (u32, u32, Seq<u8>)>::empty(),
    {
        ThumbnailCache { cache: Vec::new(), detail_cache: Vec::new(), avatar_cache: Vec::new() }
    }

    /// Decodes the thumbnail bytes `data` for an area of `width` columns by
    /// `height` rows and keeps it under `key`. Each cell row shows two pixel
    /// rows, so the picture is scaled to `width` by `2 * height` pixels.
    pub fn load(&mut self, key: &ThumbnailKey, data: &[u8], width: u32, height: u32) -> (r: Result<
        (),
        ThumbnailError,
    >)
        requires
            width <= 0xffff,
            height <= 0xffff,
        ensures
            final(self).details() == old(self).details(),
            final(self).avatars() == old(self).avatars(),
            match scaled_pixels(data@, width, (2 * height) as u32) {
                Some(px) => r is Ok && final(self).thumbnails() == old(self).thumbnails().insert(
                    key_view(*key),
                    (width, (2 * height) as u32, px),
                ),
                None => r == Err::<(), ThumbnailError>(ThumbnailError::Undecodable)
                    && final(self).thumbnails() == old(self).thumbnails(),
            },
    {
        let decoded = decode_thumbnail(data, width, 2 * height);
        self.store_thumbnail(key, decoded)
    }

    /// As `load`, for the larger picture of the detail view.
    pub fn load_detail(&mut self, key: &ThumbnailKey, data: &[u8], width: u32, height: u32) -> (r:
        Result<(), ThumbnailError>)
        requires
            width <= 0xffff,
            height <= 0xffff,
        ensures
            final(self).thumbnails() == old(self).thumbnails(),
            final(self).avatars() == old(self).avatars(),
            match scaled_pixels(data@, width, (2 * height) as u32) {
                Some(px) => r is Ok && final(self).details() == old(self).details().insert(
                    key_view(*key),
                    (width, (2 * height) as u32, px),
                ),
                None => r == Err::<(), ThumbnailError>(ThumbnailError::Undecodable)
                    && final(self).details() == old(self).details(),
            },
    {
        let decoded = decode_thumbnail(data, width, 2 * height);
        self.store_detail(key, decoded)
    }

    /// Decodes a channel avatar for a square of `size` cells: `size` by
    /// `2 * size` pixels.
    pub fn load_avatar(&mut self, key: &ThumbnailKey, data: &[u8], size: u32) -> (r: Result<
        (),
        ThumbnailError,
    >)
        requires
            size <= 0xffff,
        ensures
            final(self).thumbnails() == old(self).thumbnails(),
            final(self).details() == old(self).details(),
            match scaled_pixels(data@, size, (2 * size) as u32) {
                Some(px) => r is Ok && final(self).avatars() == old(self).avatars().insert(
                    key_view(*key),
                    (size, (2 * size) as u32, px),
                ),
                None => r == Err::<(), ThumbnailError>(ThumbnailError::Undecodable)
                    && final(self).avatars() == old(self).avatars(),
            },
    {
        let decoded = decode_thumbnail(data, size, 2 * size);
        self.store_avatar(key, decoded)
    }

    /// Keeps a list-sized picture under `key`, replacing what was there; `None`, a picture
    /// that could not be decoded, is refused and changes nothing.
    pub fn store_thumbnail(&mut self, key: &ThumbnailKey, decoded: Option<Pixels>) -> (r: Result<
        (),
        ThumbnailError,
    >)
        requires
            decoded is Some ==> decoded->0.wf(),
        ensures
            final(self).details() == old(self).details(),
            final(self).avatars() == old(self).avatars(),
            match decoded {
                Some(img) => r is Ok && final(self).thumbnails() == old(self).thumbnails().insert(
                    key_view(*key),
                    image_view(img),
                ),
                None => r == Err::<(), ThumbnailError>(ThumbnailError::Undecodable)
                    && final(self).thumbnails() == old(self).thumbnails(),
            },
    {
        proof {
            use_type_invariant(&*self);
        }
        match decoded {
            Some(img) => {
                let mut entries: Vec<CachedImage> = Vec::new();
                std::mem::swap(&mut entries, &mut self.cache);
                store(&mut entries, key, img);
                self.cache = entries;
                Ok(())
            },
            None => Err(ThumbnailError::Undecodable),
        }
    }

    /// Keeps a detail-sized picture under `key`, replacing what was there; `None`, a picture
    /// that could not be decoded, is refused and changes nothing.
    pub fn store_detail(&mut self, key: &ThumbnailKey, decoded: Option<Pixels>) -> (r: Result<
        (),
        ThumbnailError,
    >)
        requires
            decoded is Some ==> decoded->0.wf(),
        ensures
            final(self).thumbnails() == old(self).thumbnails(),
            final(self).avatars() == old(self).avatars(),
            match decoded {
                Some(img) => r is Ok && final(self).details() == old(self).details().insert(
                    key_view(*key),
                    image_view(img),
                ),
                None => r == Err::<(), ThumbnailError>(ThumbnailError::Undecodable)
                    && final(self).details() == old(self).details(),
            },
    {
        proof {
            use_type_invariant(&*self);
        }
        match decoded {
            Some(img) => {
                let mut entries: Vec<CachedImage> = Vec::new();
                std::mem::swap(&mut entries, &mut self.detail_cache);
                store(&mut entries, key, img);
                self.detail_cache = entries;
                Ok(())
            },
            None => Err(ThumbnailError::Undecodable),
        }
    }

    /// Keeps an avatar under `key`, replacing what was there; `None`, a picture
    /// that could not be decoded, is refused and changes nothing.
    pub fn store_avatar(&mut self, key: &ThumbnailKey, decoded: Option<Pixels>) -> (r: Result<
        (),
        ThumbnailError,
    >)
        requires
            decoded is Some ==> decoded->0.wf(),
        ensures
            final(self).thumbnails() == old(self).thumbnails(),
            final(self).details() == old(self).details(),
            match decoded {
                Some(img) => r is Ok && final(self).avatars() == old(self).avatars().insert(
                    key_view(*key),
                    image_view(img),
                ),
                None => r == Err::<(), ThumbnailError>(ThumbnailError::Undecodable)
                    && final(self).avatars() == old(self).avatars(),
            },
    {
        proof {
            use_type_invariant(&*self);
        }
        match decoded {
            Some(img) => {
                let mut entries: Vec<CachedImage> = Vec::new();
                std::mem::swap(&mut entries, &mut self.avatar_cache);
                store(&mut entries, key, img);
                self.avatar_cache = entries;
                Ok(())
            },
            None => Err(ThumbnailError::Undecodable),
        }
    }

    /// The list-sized picture kept under `key`.
    pub fn get(&self, key: &ThumbnailKey) -> (r: Option<&Pixels>)
        ensures
            r is Some <==> self.thumbnails().dom().contains(key_view(*key)),
            r is Some ==> r->0.wf() && image_view(*r->0) == self.thumbnails()[key_view(*key)],
    {
        proof {
            use_type_invariant(self);
        }
        lookup(&self.cache, key)
    }

    /// The detail-sized picture kept under `key`.
    pub fn get_detail(&self, key: &ThumbnailKey) -> (r: Option<&Pixels>)
        ensures
            r is Some <==> self.details().dom().contains(key_view(*key)),
            r is Some ==> r->0.wf() && image_view(*r->0) == self.details()[key_view(*key)],
    {
        proof {
            use_type_invariant(self);
        }
        lookup(&self.detail_cache, key)
    }

    /// The avatar kept under `key`.
    pub fn get_avatar(&self, key: &ThumbnailKey) -> (r: Option<&Pixels>)
        ensures
            r is Some <==> self.avatars().dom().contains(key_view(*key)),
            r is Some ==> r->0.wf() && image_view(*r->0) == self.avatars()[key_view(*key)],
    {
        proof {
            use_type_invariant(self);
        }
        lookup(&self.avatar_cache, key)
    }

    /// The half-block cells that show `img` in an area of `area_width` by
    /// `area_height` cells, row by row from the top-left corner: the upper
    /// half of a cell shows one pixel row, the lower half the next. Cells past
    /// the picture's right edge or below its last pixel row are left out.
    pub fn render_halfblock(img: &Pixels, area_width: u16, area_height: u16) -> (r: Vec<
        Vec<HalfBlock>,
    >)
        requires
            img.wf(),
        ensures
            r@.len() == filled_rows(*img, area_height as int),
            forall|y: int|
                0 <= y < r@.len() ==> #[trigger] r@[y]@.len() == filled_columns(
                    *img,
                    area_width as int,
                ),
            forall|y: int, x: int|
                0 <= y < r@.len() && 0 <= x < r@[y]@.len() ==> #[trigger] r@[y]@[x]
                    == halfblock_spec(*img, x, y),
    {
        halfblock_rows(img, area_width, area_height)
    }
}

/// A picture that was loaded under a key is what a later lookup under that
/// key finds, and the pictures under other keys stay as they were.
pub proof fn lemma_loaded_thumbnail_found(
    before: ThumbnailCache,
    after: ThumbnailCache,
    key: ThumbnailKey,
    data: Seq<u8>,
    width: u32,
    height: u32,
    other: ThumbnailKey,
)
    requires
        scaled_pixels(data, width, (2 * height) as u32) is Some,
        after.thumbnails() == before.thumbnails().insert(
            key_view(key),
            (width, (2 * height) as u32, scaled_pixels(data, width, (2 * height) as u32)->0),
        ),
    ensures
        after.thumbnails().dom().contains(key_view(key)),
        after.thumbnails()[key_view(key)] == (
            width,
            (2 * height) as u32,
            scaled_pixels(data, width, (2 * height) as u32)->0,
        ),
        key_view(other) != key_view(key) ==> after.thumbnails().dom().contains(key_view(other))
            == before.thumbnails().dom().contains(key_view(other)),
        key_view(other) != key_view(key) && before.thumbnails().dom().contains(key_view(other))
            ==> after.thumbnails()[key_view(other)] == before.thumbnails()[key_view(other)],
{
}

} // verus!
