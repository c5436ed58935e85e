//! The pointer cursor: its animated images, and which image shows at a given
//! time for a given size.

use vstd::prelude::*;

verus! {

/// One image of an animated cursor.
pub struct CursorImage {
    /// The nominal size of the image.
    pub size: u32,
    /// The actual width of the image.
    pub width: u32,
    /// The actual height of the image.
    pub height: u32,
    /// The hotspot, the pixel where the tip of the arrow is situated.
    pub xhot: u32,
    pub yhot: u32,
    /// How long this image shows before the next one, in milliseconds.
    pub delay: u32,
    /// The pixels, four bytes each, in RGBA order.
    pub pixels_rgba: Vec<u8>,
    /// The same pixels in ARGB order.
    pub pixels_argb: Vec<u8>,
}

/// A cursor file's images as `parse_xcursor` of the `xcursor` crate reads
/// them from `content`, each as (size, width, height, xhot, yhot, delay,
/// RGBA pixels, ARGB pixels); `None` when the file is malformed.
pub uninterp spec fn xcursor_images(content: Seq<u8>) -> Option<
    Seq<(u32, u32, u32, u32, u32, u32, Seq<u8>, Seq<u8>)>,
>;

/// `img` holds the fields of `parsed`.
pub open spec fn image_matches(
    img: CursorImage,
    parsed: (u32, u32, u32, u32, u32, u32, Seq<u8>, Seq<u8>),
) -> bool {
    &&& img.size == parsed.0
    &&& img.width == parsed.1
    &&& img.height == parsed.2
    &&& img.xhot == parsed.3
    &&& img.yhot == parsed.4
    &&& img.delay == parsed.5
    &&& img.pixels_rgba@ == parsed.6
    &&& img.pixels_argb@ == parsed.7
}

/// The checks every image of a parsed cursor file passed, and the layout of
/// its pixels: a non-empty size of at most 0x7fff on each axis, a hotspot
/// inside the image, four bytes per pixel, and the ARGB bytes a reordering
/// of the RGBA ones.
pub open spec fn well_formed_image(img: CursorImage) -> bool {
    &&& 0 < img.width <= 0x7fff
    &&& 0 < img.height <= 0x7fff
    &&& img.xhot <= img.width
    &&& img.yhot <= img.height
    &&& img.pixels_rgba@.len() == 4 * img.width * img.height
    &&& img.pixels_argb@.len() == img.pixels_rgba@.len()
    &&& forall|p: int|
        0 <= p < img.width * img.height ==> {
            &&& #[trigger] img.pixels_argb@[4 * p] == img.pixels_rgba@[4 * p + 3]
            &&& img.pixels_argb@[4 * p + 1] == img.pixels_rgba@[4 * p]
            &&& img.pixels_argb@[4 * p + 2] == img.pixels_rgba@[4 * p + 1]
            &&& img.pixels_argb@[4 * p + 3] == img.pixels_rgba@[4 * p + 2]
        }
}

/// Parses a cursor file with `xcursor::parser::parse_xcursor`. The images
/// are those the crate reads (`xcursor_images`), and each passed the crate's
/// checks (`well_formed_image`, from `parse_img` and `rgba_to_argb`). What
/// the images hold beyond that is left to the name, and running out of
/// memory on the buffers the crate reserves is not covered.
#[verifier::external_body]
fn parse_xcursor(content: &[u8]) -> (r: Option<Vec<CursorImage>>)
    ensures
        r is Some <==> xcursor_images(content@) is Some,
        r matches Some(imgs) ==> imgs@.len() == xcursor_images(content@).unwrap().len() && forall|
            i: int,
        |
            0 <= i < imgs@.len() ==> image_matches(
                #[trigger] imgs@[i],
                xcursor_images(content@).unwrap()[i],
            ) && well_formed_image(imgs@[i]),
{
    xcursor::parser::parse_xcursor(content).map(
        |images| images.into_iter().map(
            |i| CursorImage {
                size: i.size,
                width: i.width,
                height: i.height,
                xhot: i.xhot,
                yhot: i.yhot,
                delay: i.delay,
                pixels_rgba: i.pixels_rgba,
                pixels_argb: i.pixels_argb,
            },
        ).collect(),
    )
}

/// The images of a cursor file's content, or `None` when it cannot be
/// parsed.
pub fn load_icon(content: &[u8]) -> (r: Option<Vec<CursorImage>>)
    ensures
        r is Some <==> xcursor_images(content@) is Some,
        r matches Some(imgs) ==> imgs@.len() == xcursor_images(content@).unwrap().len() && forall|
            i: int,
        |
            0 <= i < imgs@.len() ==> image_matches(
                #[trigger] imgs@[i],
                xcursor_images(content@).unwrap()[i],
            ) && well_formed_image(imgs@[i]),
{
    parse_xcursor(content)
}

/// How far the nominal size of an image is from the wanted size, both read
/// as `i32` the way the cursor code casts them.
pub open spec fn size_distance(size: u32, image_size: u32) -> int {
    let d = (size as i32) - (image_size as i32);
    if d < 0 {
        -d
    } else {
        d
    }
}

/// Whether that distance can be computed without leaving `i32`.
pub open spec fn size_distance_fits(size: u32, image_size: u32) -> bool {
    let d = (size as i32) - (image_size as i32);
    i32::MIN < d <= i32::MAX
}

/// `i` is the first image whose nominal size is nearest to `size`.
pub open spec fn is_nearest(images: Seq<CursorImage>, size: u32, i: int) -> bool {
    &&& 0 <= i < images.len()
    &&& forall|j: int|
        0 <= j < images.len() ==> size_distance(size, images[i].size) <= size_distance(
            size,
            #[trigger] images[j].size,
        )
    &&& forall|j: int|
        0 <= j < i ==> size_distance(size, #[trigger] images[j].size) > size_distance(
            size,
            images[i].size,
        )
}

/// Whether an image has the given width and height.
pub open spec fn has_shape(img: CursorImage, width: u32, height: u32) -> bool {
    img.width == width && img.height == height
}

/// The summed delays of the images before index `n` that have the given
/// width and height.
pub open spec fn shape_delay(images: Seq<CursorImage>, width: u32, height: u32, n: int) -> int
    decreases n,
{
    if n <= 0 {
        0
    } else {
        shape_delay(images, width, height, n - 1) + if has_shape(images[n - 1], width, height) {
            images[n - 1].delay as int
        } else {
            0
        }
    }
}

/// `c` is the image that shows `m` milliseconds into the animation made of
/// the images of the given width and height, in order.
pub open spec fn shows_at(images: Seq<CursorImage>, width: u32, height: u32, m: int, c: int) -> bool {
    &&& 0 <= c < images.len()
    &&& has_shape(images[c], width, height)
    &&& shape_delay(images, width, height, c) <= m < shape_delay(images, width, height, c)
        + images[c].delay
}

/// The summed delays grow with the number of images counted.
proof fn lemma_shape_delay_monotonic(
    images: Seq<CursorImage>,
    width: u32,
    height: u32,
    a: int,
    b: int,
)
    requires
        0 <= a <= b <= images.len(),
    ensures
        shape_delay(images, width, height, a) <= shape_delay(images, width, height, b),
    decreases b - a,
{
    if a < b {
        lemma_shape_delay_monotonic(images, width, height, a, b - 1);
    }
}

/// Only one image shows at a given time.
pub proof fn lemma_shows_at_unique(
    images: Seq<CursorImage>,
    width: u32,
    height: u32,
    m: int,
    c1: int,
    c2: int,
)
    requires
        shows_at(images, width, height, m, c1),
        shows_at(images, width, height, m, c2),
    ensures
        c1 == c2,
{
    if c1 < c2 {
        lemma_shape_delay_monotonic(images, width, height, c1 + 1, c2);
    } else if c2 < c1 {
        lemma_shape_delay_monotonic(images, width, height, c2 + 1, c1);
    }
}

/// Index of the first image whose nominal size is nearest to `size`.
pub fn nearest_image(size: u32, images: &Vec<CursorImage>) -> (r: usize)
    requires
        images@.len() > 0,
        forall|j: int|
            0 <= j < images@.len() ==> size_distance_fits(size, #[trigger] images@[j].size),
    ensures
        is_nearest(images@, size, r as int),
{
    let mut best: usize = 0;
    let d0 = size as i32 - images[0].size as i32;
    let mut best_key: i32 = if d0 < 0 { -d0 } else { d0 };
    let mut i: usize = 1;
    while i < images.len()
        invariant
            1 <= i <= images@.len(),
            best < i,
            best_key == size_distance(size, images@[best as int].size),
            forall|j: int|
                0 <= j < images@.len() ==> size_distance_fits(size, #[trigger] images@[j].size),
            forall|j: int|
                0 <= j < i ==> size_distance(size, images@[best as int].size) <= size_distance(
                    size,
                    #[trigger] images@[j].size,
                ),
            forall|j: int|
                0 <= j < best ==> size_distance(size, #[trigger] images@[j].size)
                    > size_distance(size, images@[best as int].size),
        decreases images.len() - i,
    {
        assert(size_distance_fits(size, images@[i as int].size));
        let d = size as i32 - images[i].size as i32;
        let key: i32 = if d < 0 { -d } else { d };
        if key < best_key {
            best = i;
            best_key = key;
        }
        i = i + 1;
    }
    best
}

/// Index of the image that shows `millis` milliseconds into the animation of
/// the cursor at `size`: the images that have the width and height of the
/// nearest image play in turn, each for its delay, and the animation loops.
pub fn frame(millis: u32, size: u32, images: &Vec<CursorImage>) -> (r: usize)
    requires
        images@.len() > 0,
        forall|j: int|
            0 <= j < images@.len() ==> size_distance_fits(size, #[trigger] images@[j].size),
        forall|n: int|
            #![trigger is_nearest(images@, size, n)]
            is_nearest(images@, size, n) ==> 0 < shape_delay(
                images@,
                images@[n].width,
                images@[n].height,
                images@.len() as int,
            ) <= u32::MAX,
    ensures
        exists|n: int|
            is_nearest(images@, size, n) && shows_at(
                images@,
                images@[n].width,
                images@[n].height,
                (millis as int) % shape_delay(
                    images@,
                    images@[n].width,
                    images@[n].height,
                    images@.len() as int,
                ),
                r as int,
            ),
{
    let nearest = nearest_image(size, images);
    let width = images[nearest].width;
    let height = images[nearest].height;
    let ghost n = nearest as int;
    assert(is_nearest(images@, size, n));
    let ghost total = shape_delay(images@, width, height, images@.len() as int);
    let mut sum: u32 = 0;
    let mut i: usize = 0;
    while i < images.len()
        invariant
            i <= images@.len(),
            sum == shape_delay(images@, width, height, i as int),
            total == shape_delay(images@, width, height, images@.len() as int),
            total <= u32::MAX,
        decreases images.len() - i,
    {
        proof {
            lemma_shape_delay_monotonic(images@, width, height, i + 1, images@.len() as int);
        }
        if images[i].width == width && images[i].height == height {
            sum = sum + images[i].delay;
        }
        i = i + 1;
    }
    let mut remaining = millis % sum;
    let ghost m = remaining as int;
    let mut j: usize = 0;
    while j < images.len()
        invariant
            j <= images@.len(),
            is_nearest(images@, size, n),
            width == images@[n].width,
            height == images@[n].height,
            m == (millis as int) % total,
            0 <= m < total,
            total == shape_delay(images@, width, height, images@.len() as int),
            shape_delay(images@, width, height, j as int) <= m,
            remaining == m - shape_delay(images@, width, height, j as int),
        decreases images.len() - j,
    {
        if images[j].width == width && images[j].height == height {
            if remaining < images[j].delay {
                assert(shows_at(images@, width, height, m, j as int));
                assert(is_nearest(images@, size, n) && shows_at(
                    images@,
                    images@[n].width,
                    images@[n].height,
                    (millis as int) % shape_delay(
                        images@,
                        images@[n].width,
                        images@[n].height,
                        images@.len() as int,
                    ),
                    j as int,
                ));
                return j;
            }
            remaining = remaining - images[j].delay;
        }
        j = j + 1;
    }
    assert(false);
    0
}

/// A cursor: its images and its size in pixels at scale 1.
pub struct Cursor {
    pub icons: Vec<CursorImage>,
    pub size: u32,
}

impl Cursor {
    /// A cursor from the images of the theme's default cursor, or a single
    /// 64x64 image of `fallback_rgba` (nominal size 32, hotspot at (1, 1))
    /// when there are none; of the size given, or 24 by default.
    pub fn load(theme_icons: Option<Vec<CursorImage>>, size: Option<u32>, fallback_rgba: Vec<u8>) -> (r:
        Cursor)
        ensures
            r.size == size.unwrap_or(24),
            theme_icons matches Some(icons) ==> r.icons@ == icons@,
            theme_icons is None ==> r.icons@.len() == 1 && r.icons@[0].size == 32
                && r.icons@[0].width == 64 && r.icons@[0].height == 64 && r.icons@[0].xhot == 1
                && r.icons@[0].yhot == 1 && r.icons@[0].delay == 1 && r.icons@[0].pixels_rgba@
                == fallback_rgba@ && r.icons@[0].pixels_argb@.len() == 0,
    {
        let icons = match theme_icons {
            Some(icons) => icons,
            None => {
                let mut v: Vec<CursorImage> = Vec::new();
                v.push(
                    CursorImage {
                        size: 32,
                        width: 64,
                        height: 64,
                        xhot: 1,
                        yhot: 1,
                        delay: 1,
                        pixels_rgba: fallback_rgba,
                        pixels_argb: Vec::new(),
                    },
                );
                v
            },
        };
        let size = match size {
            Some(s) => s,
            None => 24,
        };
        Cursor { icons, size }
    }

    /// The image to show `millis` milliseconds into the animation at the
    /// output scale `scale` (see `frame`).
    pub fn get_image(&self, scale: u32, millis: u32) -> (r: &CursorImage)
        requires
            self.size * scale <= u32::MAX,
            self.icons@.len() > 0,
            forall|j: int|
                0 <= j < self.icons@.len() ==> size_distance_fits(
                    (self.size * scale) as u32,
                    #[trigger] self.icons@[j].size,
                ),
            forall|n: int|
                #![trigger is_nearest(self.icons@, (self.size * scale) as u32, n)]
                is_nearest(self.icons@, (self.size * scale) as u32, n) ==> 0 < shape_delay(
                    self.icons@,
                    self.icons@[n].width,
                    self.icons@[n].height,
                    self.icons@.len() as int,
                ) <= u32::MAX,
        ensures
            exists|c: int, n: int|
                #![trigger is_nearest(self.icons@, (self.size * scale) as u32, n), self.icons@[c]]
                is_nearest(self.icons@, (self.size * scale) as u32, n) && shows_at(
                    self.icons@,
                    self.icons@[n].width,
                    self.icons@[n].height,
                    (millis as int) % shape_delay(
                        self.icons@,
                        self.icons@[n].width,
                        self.icons@[n].height,
                        self.icons@.len() as int,
                    ),
                    c,
                ) && *r == self.icons@[c],
    {
        let size = self.size * scale;
        let c = frame(millis, size, &self.icons);
        &self.icons[c]
    }
}

/// At every time into one run of an animation, some image of it shows.
pub proof fn lemma_some_image_shows(images: Seq<CursorImage>, width: u32, height: u32, m: int)
    requires
        0 <= m < shape_delay(images, width, height, images.len() as int),
    ensures
        exists|c: int| shows_at(images, width, height, m, c),
{
    lemma_some_image_shows_before(images, width, height, m, images.len() as int);
}

proof fn lemma_some_image_shows_before(
    images: Seq<CursorImage>,
    width: u32,
    height: u32,
    m: int,
    n: int,
)
    requires
        0 <= n <= images.len(),
        0 <= m < shape_delay(images, width, height, n),
    ensures
        exists|c: int| shows_at(images, width, height, m, c),
    decreases n,
{
    if m < shape_delay(images, width, height, n - 1) {
        lemma_some_image_shows_before(images, width, height, m, n - 1);
    } else {
        assert(shows_at(images, width, height, m, n - 1));
    }
}

/// The image chosen for a size is well defined: only one image is the
/// first nearest to it.
pub proof fn lemma_nearest_unique(images: Seq<CursorImage>, size: u32, n1: int, n2: int)
    requires
        is_nearest(images, size, n1),
        is_nearest(images, size, n2),
    ensures
        n1 == n2,
{
    if n1 < n2 {
        assert(size_distance(size, images[n1].size) > size_distance(size, images[n2].size));
    } else if n2 < n1 {
        assert(size_distance(size, images[n2].size) > size_distance(size, images[n1].size));
    }
}

/// The animation loops: a time and the same time one whole run later show
/// the same image.
pub proof fn lemma_animation_loops(
    images: Seq<CursorImage>,
    size: u32,
    n: int,
    millis: int,
    c: int,
)
    requires
        is_nearest(images, size, n),
        0 <= millis,
        shape_delay(images, images[n].width, images[n].height, images.len() as int) > 0,
    ensures
        ({
            let (w, h) = (images[n].width, images[n].height);
            let total = shape_delay(images, w, h, images.len() as int);
            shows_at(images, w, h, (millis + total) % total, c) == shows_at(
                images,
                w,
                h,
                millis % total,
                c,
            )
        }),
{
    let total = shape_delay(images, images[n].width, images[n].height, images.len() as int);
    vstd::arithmetic::div_mod::lemma_mod_add_multiples_vanish(millis, total);
}

/// Whether two images are the same: equal in every field and pixel.
pub open spec fn same_image(a: CursorImage, b: CursorImage) -> bool {
    &&& a.size == b.size
    &&& a.width == b.width
    &&& a.height == b.height
    &&& a.xhot == b.xhot
    &&& a.yhot == b.yhot
    &&& a.delay == b.delay
    &&& a.pixels_rgba@ == b.pixels_rgba@
    &&& a.pixels_argb@ == b.pixels_argb@
}

fn same_bytes(a: &Vec<u8>, b: &Vec<u8>) -> (r: bool)
    ensures
        r == (a@ == b@),
{
    if a.len() != b.len() {
        return false;
    }
    let mut i: usize = 0;
    while i < a.len()
        invariant
            a@.len() == b@.len(),
            i <= a@.len(),
            forall|j: int| 0 <= j < i ==> a@[j] == b@[j],
        decreases a.len() - i,
    {
        if a[i] != b[i] {
            return false;
        }
        i = i + 1;
    }
    assert(a@ =~= b@);
    true
}

impl CursorImage {
    /// Whether this image is the same as `other` (see `same_image`).
    pub fn same_as(&self, other: &CursorImage) -> (r: bool)
        ensures
            r == same_image(*self, *other),
    {
        self.size == other.size && self.width == other.width && self.height == other.height
            && self.xhot == other.xhot && self.yhot == other.yhot && self.delay == other.delay
            && same_bytes(&self.pixels_rgba, &other.pixels_rgba) && same_bytes(
            &self.pixels_argb,
            &other.pixels_argb,
        )
    }

    /// A copy of this image.
    pub fn copy(&self) -> (r: CursorImage)
        ensures
            same_image(r, *self),
    {
        let mut rgba: Vec<u8> = Vec::new();
        let mut i: usize = 0;
        while i < self.pixels_rgba.len()
            invariant
                i <= self.pixels_rgba@.len(),
                rgba@ == self.pixels_rgba@.take(i as int),
            decreases self.pixels_rgba.len() - i,
        {
            rgba.push(self.pixels_rgba[i]);
            i = i + 1;
            assert(rgba@ =~= self.pixels_rgba@.take(i as int));
        }
        let mut argb: Vec<u8> = Vec::new();
        let mut j: usize = 0;
        while j < self.pixels_argb.len()
            invariant
                j <= self.pixels_argb@.len(),
                argb@ == self.pixels_argb@.take(j as int),
            decreases self.pixels_argb.len() - j,
        {
            argb.push(self.pixels_argb[j]);
            j = j + 1;
            assert(argb@ =~= self.pixels_argb@.take(j as int));
        }
        assert(rgba@ =~= self.pixels_rgba@);
        assert(argb@ =~= self.pixels_argb@);
        CursorImage {
            size: self.size,
            width: self.width,
            height: self.height,
            xhot: self.xhot,
            yhot: self.yhot,
            delay: self.delay,
            pixels_rgba: rgba,
            pixels_argb: argb,
        }
    }
}

/// `i` is the first cached entry holding an image the same as `img`.
pub open spec fn is_first_cached(entries: Seq<(CursorImage, u64)>, img: CursorImage, i: int) -> bool {
    &&& 0 <= i < entries.len()
    &&& same_image(entries[i].0, img)
    &&& forall|j: int| 0 <= j < i ==> !same_image(#[trigger] entries[j].0, img)
}

/// The textures of the cursor images drawn so far, each with its image.
pub struct PointerImages {
    entries: Vec<(CursorImage, u64)>,
}

impl PointerImages {
    /// The cached images and their textures, in the order they were added.
    pub closed spec fn entries_view(&self) -> Seq<(CursorImage, u64)> {
        self.entries@
    }

    /// No texture yet.
    pub fn new() -> (r: PointerImages)
        ensures
            r.entries_view().len() == 0,
    {
        PointerImages { entries: Vec::new() }
    }

    /// The texture of the first cached image the same as `frame`, if any.
    /// When there is none, the caller imports the frame and adds it.
    pub fn lookup(&self, frame: &CursorImage) -> (r: Option<u64>)
        ensures
            match r {
                Some(t) => exists|i: int|
                    is_first_cached(self.entries_view(), *frame, i) && self.entries_view()[i].1
                        == t,
                None => forall|j: int|
                    0 <= j < self.entries_view().len() ==> !same_image(
                        #[trigger] self.entries_view()[j].0,
                        *frame,
                    ),
            },
    {
        let mut i: usize = 0;
        while i < self.entries.len()
            invariant
                i <= self.entries@.len(),
                forall|j: int| 0 <= j < i ==> !same_image(#[trigger] self.entries@[j].0, *frame),
            decreases self.entries.len() - i,
        {
            if self.entries[i].0.same_as(frame) {
                let t = self.entries[i].1;
                assert(is_first_cached(self.entries_view(), *frame, i as int)
                    && self.entries_view()[i as int].1 == t);
                return Some(t);
            }
            i = i + 1;
        }
        None
    }

    /// Adds the texture imported for `frame`.
    pub fn add(&mut self, frame: CursorImage, texture: u64)
        ensures
            final(self).entries_view() == old(self).entries_view().push((frame, texture)),
    {
        self.entries.push((frame, texture));
    }
}

} // verus!
