//! Laying album covers and their labels out on a grid, and drawing the grid.
use crate::lastfm::Album;
use crate::raster::{
    pixel_at, blank_image, encoded_image, draw_text_mut, overlaid, text_drawn, nearest_resized, overlay, raster_view, resize_nearest, rgb_height,
    rgb_pixels, rgb_width, Raster,
};
use vstd::arithmetic::div_mod::lemma_fundamental_div_mod_converse;
use vstd::prelude::*;
use vstd::string::StrSliceExecFns;

verus! {

/// The side of a grid cell, in pixels.
pub const CELL_SIZE: u32 = 300;

/// An RGB colour.
pub type Colour = (u8, u8, u8);

/// The colour of a label's shadow.
pub const SHADOW: Colour = (0u8, 0u8, 0u8);

/// The colour of a label's text.
pub const INK: Colour = (255u8, 255u8, 255u8);

/// The artwork size that cells are filled from.
pub fn artwork_size() -> (r: &'static str)
    ensures
        r@ == "extralarge"@,
{
    "extralarge"
}

/// A grid of `rows` by `columns` cells whose canvas the image and text
/// routines can address: positive sides, coordinates that fit an `i32`, and a
/// buffer that fits in memory.
pub open spec fn valid_grid(rows: nat, columns: nat) -> bool {
    &&& rows > 0
    &&& columns > 0
    &&& 300 * columns <= 0x100_0000
    &&& 300 * rows <= 0x100_0000
    &&& 3 * (300 * columns) * (300 * rows) <= usize::MAX
}

/// Whether a `rows` by `columns` grid can be drawn.
pub fn grid_fits(rows: usize, columns: usize) -> (r: bool)
    ensures
        r == valid_grid(rows as nat, columns as nat),
{
    if rows == 0 || columns == 0 || columns > 55924 || rows > 55924 {
        return false;
    }
    let width = 300 * columns;
    let height = 300 * rows;
    proof {
        assert((width * 3) * height == 3 * (300 * columns) * (300 * rows)) by (nonlinear_arith)
            requires
                width == 300 * columns,
                height == 300 * rows,
        ;
        assert(width * 3 <= 3 * (300 * columns) * (300 * rows)) by (nonlinear_arith)
            requires
                width == 300 * columns,
                rows >= 1,
        ;
    }
    match width.checked_mul(3) {
        Some(w3) => match w3.checked_mul(height) {
            Some(_) => true,
            None => false,
        },
        None => false,
    }
}

/// The top-left pixel of cell `i` of a grid `columns` cells wide.
pub open spec fn cell_origin(i: int, columns: int) -> (int, int) {
    (300 * (i % columns), 300 * (i / columns))
}

/// How many cells of a `rows` by `columns` grid `n` albums fill.
pub open spec fn filled_cells(n: nat, rows: nat, columns: nat) -> nat {
    if n < rows * columns {
        n
    } else {
        rows * columns
    }
}

/// One line of text to draw: where, in which colour, and what.
#[derive(Debug)]
pub struct LabelDraw {
    pub x: i32,
    pub y: i32,
    pub colour: Colour,
    pub text: String,
}

impl LabelDraw {
    /// Position, colour and characters of the line.
    pub open spec fn view(&self) -> (int, int, Colour, Seq<char>) {
        (self.x as int, self.y as int, self.colour, self.text@)
    }
}

/// The text drawn over the cell whose origin is `(x, y)`: artist, album and
/// play count on three lines, each first as a shadow one pixel right and down,
/// then in white.
pub open spec fn label_plan(album: Album, x: int, y: int) -> Seq<(int, int, Colour, Seq<char>)> {
    seq![
        (x + 11, y + 11, SHADOW, album.artist.name@),
        (x + 10, y + 10, INK, album.artist.name@),
        (x + 11, y + 30, SHADOW, album.name@),
        (x + 10, y + 29, INK, album.name@),
        (x + 11, y + 49, SHADOW, album.playcount@),
        (x + 10, y + 48, INK, album.playcount@),
    ]
}

/// The labels of `album` in the cell whose origin is `(x, y)`.
pub fn label_draws(album: &Album, x: u32, y: u32) -> (r: Vec<LabelDraw>)
    requires
        y + 49 <= i32::MAX,
        x + 11 <= i32::MAX,
    ensures
        r@.map_values(|d: LabelDraw| d.view()) == label_plan(*album, x as int, y as int),
{
    let x = x as i32;
    let y = y as i32;
    let mut r: Vec<LabelDraw> = Vec::new();
    r.push(LabelDraw { x: x + 11, y: y + 11, colour: SHADOW, text: album.artist.name.clone() });
    r.push(LabelDraw { x: x + 10, y: y + 10, colour: INK, text: album.artist.name.clone() });
    r.push(LabelDraw { x: x + 11, y: y + 30, colour: SHADOW, text: album.name.clone() });
    r.push(LabelDraw { x: x + 10, y: y + 29, colour: INK, text: album.name.clone() });
    r.push(LabelDraw { x: x + 11, y: y + 49, colour: SHADOW, text: album.playcount.clone() });
    r.push(LabelDraw { x: x + 10, y: y + 48, colour: INK, text: album.playcount.clone() });
    assert(r@.map_values(|d: LabelDraw| d.view()) =~= label_plan(*album, x as int, y as int));
    r
}

/// Where cell `index` of a `rows` by `columns` grid begins: its column times
/// the cell size across, its row times the cell size down.
pub fn cell_position(index: usize, rows: usize, columns: usize) -> (r: (u32, u32))
    requires
        valid_grid(rows as nat, columns as nat),
        index < rows * columns,
    ensures
        (r.0 as int, r.1 as int) == cell_origin(index as int, columns as int),
        r.0 + 300 <= 300 * columns,
        r.1 + 300 <= 300 * rows,
{
    let col = index % columns;
    let row = index / columns;
    proof {
        let c = columns as int;
        let rw = rows as int;
        let i = index as int;
        assert(row < rw) by (nonlinear_arith)
            requires
                i < rw * c,
                c > 0,
                row == i / c,
        ;
        assert(300 * col + 300 <= 300 * c) by (nonlinear_arith)
            requires
                col < c,
        ;
        assert(300 * row + 300 <= 300 * rw) by (nonlinear_arith)
            requires
                row < rw,
        ;
    }
    ((CELL_SIZE as usize * col) as u32, (CELL_SIZE as usize * row) as u32)
}

/// What a cell shows of decoded artwork `art` (width, height, pixels): a
/// 300 by 300 image as it is, any other non-empty one scaled to that size by
/// nearest-neighbour sampling, and nothing of an empty one.
pub open spec fn fitted(art: (nat, nat, Seq<(u8, u8, u8)>)) -> Option<(nat, nat, Seq<(u8, u8, u8)>)> {
    if art.0 == 300 && art.1 == 300 {
        Some(art)
    } else if art.0 == 0 || art.1 == 0 {
        None
    } else {
        Some((300, 300, nearest_resized(art.2, art.0, art.1, 300, 300)))
    }
}

/// The artwork as it will fill a cell.
pub fn fit_to_cell(art: Raster) -> (r: Option<Raster>)
    ensures
        r matches Some(img) ==> fitted(raster_view(art)) == Some(raster_view(img)),
        r is None <==> fitted(raster_view(art)) is None,
{
    let w = art.width();
    let h = art.height();
    if w == CELL_SIZE && h == CELL_SIZE {
        Some(art)
    } else if w == 0 || h == 0 {
        None
    } else {
        Some(resize_nearest(&art, CELL_SIZE, CELL_SIZE))
    }
}

/// The font and size that labels are drawn with: the bytes of a TrueType
/// font, and the height of a line in pixels.
pub struct TextStyle {
    pub font_data: Vec<u8>,
    pub size: u16,
}

/// The largest label size, in pixels, that the text renderer is given.
pub const MAX_TEXT_SIZE: u16 = 32;

/// The most characters that one label may hold.
pub const MAX_LABEL_CHARS: usize = 4096;

/// One label view, as `LabelDraw::view` gives it.
pub type LabelView = (int, int, Colour, Seq<char>);

/// A label that the text renderer can take: a position within reach of its
/// `i32` arithmetic, and a bounded length.
pub open spec fn label_in_reach(l: LabelView) -> bool {
    &&& -0x100_0000 <= l.0 <= 0x100_0000
    &&& -0x100_0000 <= l.1 <= 0x100_0000
    &&& l.3.len() <= MAX_LABEL_CHARS
}

/// The pixels of a `width` by `height` image after `labels` are drawn on it,
/// first to last, with `font` at `size`.
pub open spec fn labels_drawn(
    pixels: Seq<(u8, u8, u8)>,
    width: nat,
    height: nat,
    labels: Seq<LabelView>,
    font: Seq<u8>,
    size: nat,
) -> Seq<(u8, u8, u8)>
    decreases labels.len(),
{
    if labels.len() == 0 {
        pixels
    } else {
        let l = labels.last();
        text_drawn(
            labels_drawn(pixels, width, height, labels.drop_last(), font, size),
            width,
            height,
            l.2,
            l.0,
            l.1,
            l.3,
            font,
            size,
        )
    }
}

/// Draws `labels` onto `canvas`, in order.
pub fn draw_text(canvas: &mut Raster, labels: &Vec<LabelDraw>, style: &TextStyle)
    requires
        style.size <= MAX_TEXT_SIZE,
        forall|k: int| 0 <= k < labels@.len() ==> label_in_reach(#[trigger] labels@[k].view()),
    ensures
        rgb_width(*final(canvas)) == rgb_width(*old(canvas)),
        rgb_height(*final(canvas)) == rgb_height(*old(canvas)),
        rgb_pixels(*final(canvas)) == labels_drawn(
            rgb_pixels(*old(canvas)),
            rgb_width(*old(canvas)),
            rgb_height(*old(canvas)),
            labels@.map_values(|d: LabelDraw| d.view()),
            style.font_data@,
            style.size as nat,
        ),
{
    let ghost lv = labels@.map_values(|d: LabelDraw| d.view());
    let mut k: usize = 0;
    while k < labels.len()
        invariant
            k <= labels@.len(),
            lv == labels@.map_values(|d: LabelDraw| d.view()),
            style.size <= MAX_TEXT_SIZE,
            forall|j: int| 0 <= j < labels@.len() ==> label_in_reach(#[trigger] labels@[j].view()),
            rgb_width(*canvas) == rgb_width(*old(canvas)),
            rgb_height(*canvas) == rgb_height(*old(canvas)),
            rgb_pixels(*canvas) == labels_drawn(
                rgb_pixels(*old(canvas)),
                rgb_width(*old(canvas)),
                rgb_height(*old(canvas)),
                lv.take(k as int),
                style.font_data@,
                style.size as nat,
            ),
        decreases labels@.len() - k,
    {
        let d = &labels[k];
        proof {
            assert(label_in_reach(labels@[k as int].view()));
            assert(lv.take(k + 1).drop_last() =~= lv.take(k as int));
            assert(lv.take(k + 1).last() == d.view());
        }
        draw_text_mut(canvas, d.colour, d.x, d.y, style.font_data.as_slice(), style.size, d.text.as_str());
        k += 1;
    }
    proof {
        assert(lv.take(labels@.len() as int) =~= lv);
    }
}

/// What is drawn into one cell: its origin, its artwork if any, and its labels.
pub struct CellPlan {
    pub x: u32,
    pub y: u32,
    pub artwork: Option<Raster>,
    pub labels: Vec<LabelDraw>,
}

/// Width, height and pixels of optional artwork.
pub open spec fn art_view(a: Option<Raster>) -> Option<(nat, nat, Seq<(u8, u8, u8)>)> {
    match a {
        Some(img) => Some(raster_view(img)),
        None => None,
    }
}

/// What a cell fed `art` shows: its fitted form, or nothing.
pub open spec fn cell_art(art: Option<(nat, nat, Seq<(u8, u8, u8)>)>) -> Option<(nat, nat, Seq<(u8, u8, u8)>)> {
    match art {
        Some(a) => fitted(a),
        None => None,
    }
}

/// One cell view, as `CellPlan::view` gives it: origin, artwork, labels.
pub type CellView = (int, int, Option<(nat, nat, Seq<(u8, u8, u8)>)>, Seq<LabelView>);

impl CellPlan {
    /// Origin, artwork and label views of the cell.
    pub open spec fn view(&self) -> CellView {
        (self.x as int, self.y as int, art_view(self.artwork), self.labels@.map_values(|d: LabelDraw| d.view()))
    }
}

/// The layout of `albums`, with their decoded artwork `arts`, on a grid
/// `columns` cells wide and `rows` high: one cell per album while cells last,
/// in list order, left to right and top to bottom; each at its origin, with
/// its fitted artwork if any, and with its labels in any case.
pub open spec fn collage_layout(
    albums: Seq<Album>,
    arts: Seq<Option<(nat, nat, Seq<(u8, u8, u8)>)>>,
    rows: nat,
    columns: nat,
) -> Seq<CellView> {
    Seq::new(
        filled_cells(albums.len(), rows, columns),
        |i: int|
            {
                let (x, y) = cell_origin(i, columns as int);
                (x, y, cell_art(arts[i]), label_plan(albums[i], x, y))
            },
    )
}

/// The labels of `album` fit the text renderer.
pub open spec fn album_labels_fit(album: Album) -> bool {
    &&& album.artist.name@.len() <= MAX_LABEL_CHARS
    &&& album.name@.len() <= MAX_LABEL_CHARS
    &&& album.playcount@.len() <= MAX_LABEL_CHARS
}

/// Whether the labels of every album fit the text renderer.
pub fn labels_fit(albums: &Vec<Album>) -> (r: bool)
    ensures
        r == forall|i: int| 0 <= i < albums@.len() ==> album_labels_fit(#[trigger] albums@[i]),
{
    let mut i: usize = 0;
    while i < albums.len()
        invariant
            i <= albums@.len(),
            forall|j: int| 0 <= j < i ==> album_labels_fit(#[trigger] albums@[j]),
        decreases albums@.len() - i,
    {
        let a = &albums[i];
        if a.artist.name.as_str().unicode_len() > MAX_LABEL_CHARS || a.name.as_str().unicode_len()
            > MAX_LABEL_CHARS || a.playcount.as_str().unicode_len() > MAX_LABEL_CHARS {
            return false;
        }
        i += 1;
    }
    true
}

/// Lays `albums` out on a `rows` by `columns` grid; `artworks[i]` is the
/// decoded artwork of `albums[i]`, `None` where it has none.
pub fn collage_plan(albums: &Vec<Album>, artworks: Vec<Option<Raster>>, rows: usize, columns: usize) -> (r: Vec<CellPlan>)
    requires
        valid_grid(rows as nat, columns as nat),
        artworks@.len() == albums@.len(),
    ensures
        r@.map_values(|c: CellPlan| c.view()) == collage_layout(
            albums@,
            artworks@.map_values(|a: Option<Raster>| art_view(a)),
            rows as nat,
            columns as nat,
        ),
        forall|i: int| 0 <= i < r@.len() ==> #[trigger] r@[i].x + 300 <= 300 * columns && r@[i].y + 300 <= 300 * rows,
{
    proof {
        assert(rows * columns <= usize::MAX) by (nonlinear_arith)
            requires
                3 * (300 * columns) * (300 * rows) <= usize::MAX,
                rows > 0,
                columns > 0,
        ;
    }
    let cells = rows * columns;
    let n = if albums.len() < cells { albums.len() } else { cells };
    let ghost arts = artworks@.map_values(|a: Option<Raster>| art_view(a));
    let mut rest = artworks;
    let mut r: Vec<CellPlan> = Vec::new();
    let mut i: usize = 0;
    while i < n
        invariant
            valid_grid(rows as nat, columns as nat),
            cells == rows * columns,
            n == filled_cells(albums@.len(), rows as nat, columns as nat),
            n <= albums@.len(),
            i <= n,
            arts.len() == albums@.len(),
            rest@.map_values(|a: Option<Raster>| art_view(a)) == arts.subrange(i as int, arts.len() as int),
            r@.len() == i,
            forall|j: int| 0 <= j < i ==> {
                let (x, y) = cell_origin(j, columns as int);
                &&& #[trigger] r@[j].view() == (x, y, cell_art(arts[j]), label_plan(albums@[j], x, y))
            },
            forall|j: int| 0 <= j < i ==> #[trigger] r@[j].x + 300 <= 300 * columns && r@[j].y + 300 <= 300 * rows,
        decreases n - i,
    {
        let (x, y) = cell_position(i, rows, columns);
        let ghost before = rest@;
        proof {
            assert(before.map_values(|a: Option<Raster>| art_view(a)).len() == before.len());
            assert(before.map_values(|a: Option<Raster>| art_view(a))[0] == arts[i as int]);
        }
        let art = rest.remove(0);
        let artwork = match art {
            Some(a) => fit_to_cell(a),
            None => None,
        };
        let labels = label_draws(&albums[i], x, y);
        r.push(CellPlan { x, y, artwork, labels });
        proof {
            let tail = arts.subrange(i + 1, arts.len() as int);
            assert forall|k: int| 0 <= k < rest@.len() implies rest@.map_values(
                |a: Option<Raster>| art_view(a),
            )[k] == tail[k] by {
                assert(rest@[k] == before[k + 1]);
                assert(before.map_values(|a: Option<Raster>| art_view(a))[k + 1] == arts[i + 1 + k]);
            }
            assert(rest@.map_values(|a: Option<Raster>| art_view(a)) =~= tail);
        }
        i += 1;
    }
    proof {
        let pv = r@.map_values(|c: CellPlan| c.view());
        let lay = collage_layout(albums@, arts, rows as nat, columns as nat);
        assert forall|j: int| 0 <= j < pv.len() implies pv[j] == lay[j] by {
            assert(pv[j] == r@[j].view());
        }
        assert(pv =~= lay);
    }
    r
}

/// The pixels of a `width` by `height` image after one cell is drawn on it:
/// its artwork laid over at its origin, if it has any, then its labels.
pub open spec fn cell_drawn(
    pixels: Seq<(u8, u8, u8)>,
    width: nat,
    height: nat,
    cell: CellView,
    font: Seq<u8>,
    size: nat,
) -> Seq<(u8, u8, u8)> {
    let with_art = match cell.2 {
        Some(a) => overlaid(pixels, width, a.2, a.0, a.1, cell.0, cell.1),
        None => pixels,
    };
    labels_drawn(with_art, width, height, cell.3, font, size)
}

/// The pixels of a black `width` by `height` canvas with the cells of
/// `plan` drawn on it, first to last.
pub open spec fn rendered(plan: Seq<CellView>, width: nat, height: nat, font: Seq<u8>, size: nat) -> Seq<(u8, u8, u8)>
    decreases plan.len(),
{
    if plan.len() == 0 {
        Seq::new(width * height, |i: int| (0u8, 0u8, 0u8))
    } else {
        cell_drawn(rendered(plan.drop_last(), width, height, font, size), width, height, plan.last(), font, size)
    }
}

/// Every label of every cell of `plan` is within the text renderer's reach.
pub open spec fn plan_in_reach(plan: Seq<CellView>) -> bool {
    forall|i: int, k: int| 0 <= i < plan.len() && 0 <= k < plan[i].3.len() ==> label_in_reach(#[trigger] plan[i].3[k])
}

/// Draws `plan` onto a black canvas `columns` cells wide and `rows` high:
/// cell after cell, the artwork first, then the labels.
pub fn render(plan: &Vec<CellPlan>, rows: usize, columns: usize, style: &TextStyle) -> (r: Raster)
    requires
        valid_grid(rows as nat, columns as nat),
        style.size <= MAX_TEXT_SIZE,
        plan_in_reach(plan@.map_values(|c: CellPlan| c.view())),
    ensures
        rgb_width(r) == 300 * columns,
        rgb_height(r) == 300 * rows,
        rgb_pixels(r) == rendered(
            plan@.map_values(|c: CellPlan| c.view()),
            300 * columns as nat,
            300 * rows as nat,
            style.font_data@,
            style.size as nat,
        ),
{
    let ghost pv = plan@.map_values(|c: CellPlan| c.view());
    let ghost w: nat = 300 * columns as nat;
    let ghost h: nat = 300 * rows as nat;
    let width = (CELL_SIZE as usize * columns) as u32;
    let height = (CELL_SIZE as usize * rows) as u32;
    let mut canvas = blank_image(width, height);
    proof {
        assert(rgb_pixels(canvas) =~= rendered(pv.take(0), w, h, style.font_data@, style.size as nat));
    }
    let mut i: usize = 0;
    while i < plan.len()
        invariant
            i <= plan@.len(),
            pv == plan@.map_values(|c: CellPlan| c.view()),
            w == 300 * columns as nat,
            h == 300 * rows as nat,
            style.size <= MAX_TEXT_SIZE,
            plan_in_reach(pv),
            rgb_width(canvas) == w,
            rgb_height(canvas) == h,
            rgb_pixels(canvas) == rendered(pv.take(i as int), w, h, style.font_data@, style.size as nat),
        decreases plan@.len() - i,
    {
        let cell = &plan[i];
        proof {
            assert(pv[i as int] == cell.view());
            assert(pv.take(i + 1).drop_last() =~= pv.take(i as int));
            assert(pv.take(i + 1).last() == cell.view());
            assert forall|k: int| 0 <= k < cell.labels@.len() implies label_in_reach(
                #[trigger] cell.labels@[k].view(),
            ) by {
                assert(pv[i as int].3[k] == cell.labels@[k].view());
            }
        }
        match &cell.artwork {
            Some(art) => overlay(&mut canvas, art, cell.x as i64, cell.y as i64),
            None => {},
        }
        draw_text(&mut canvas, &cell.labels, style);
        i += 1;
    }
    proof {
        assert(pv.take(plan@.len() as int) =~= pv);
    }
    canvas
}

/// The pixels of the collage of `albums`, with their decoded artwork `arts`,
/// on a `rows` by `columns` grid, labelled with `font` at `size`.
pub open spec fn collage_pixels(
    albums: Seq<Album>,
    arts: Seq<Option<(nat, nat, Seq<(u8, u8, u8)>)>>,
    rows: nat,
    columns: nat,
    font: Seq<u8>,
    size: nat,
) -> Seq<(u8, u8, u8)> {
    rendered(collage_layout(albums, arts, rows, columns), 300 * columns, 300 * rows, font, size)
}

/// The collage of `albums` on a `rows` by `columns` grid, `artworks[i]` being
/// the decoded artwork of `albums[i]` (`None` where it has none): a black
/// image `300 * columns` by `300 * rows` pixels with the cells of
/// `collage_layout` drawn on it in order.
pub fn create_collage(
    albums: &Vec<Album>,
    artworks: Vec<Option<Raster>>,
    rows: usize,
    columns: usize,
    style: &TextStyle,
) -> (r: Raster)
    requires
        valid_grid(rows as nat, columns as nat),
        artworks@.len() == albums@.len(),
        style.size <= MAX_TEXT_SIZE,
        forall|i: int| 0 <= i < albums@.len() ==> album_labels_fit(#[trigger] albums@[i]),
    ensures
        rgb_width(r) == 300 * columns,
        rgb_height(r) == 300 * rows,
        rgb_pixels(r) == collage_pixels(
            albums@,
            artworks@.map_values(|a: Option<Raster>| art_view(a)),
            rows as nat,
            columns as nat,
            style.font_data@,
            style.size as nat,
        ),
{
    let ghost arts = artworks@.map_values(|a: Option<Raster>| art_view(a));
    let plan = collage_plan(albums, artworks, rows, columns);
    proof {
        let pv = plan@.map_values(|c: CellPlan| c.view());
        assert forall|i: int, k: int| 0 <= i < pv.len() && 0 <= k < pv[i].3.len() implies label_in_reach(
            #[trigger] pv[i].3[k],
        ) by {
            let c = columns as int;
            let rw = rows as int;
            let (x, y) = cell_origin(i, c);
            assert(pv[i] == collage_layout(albums@, arts, rows as nat, columns as nat)[i]);
            assert(album_labels_fit(albums@[i]));
            assert(i < rw * c);
            assert(0 <= x && x + 300 <= 300 * c) by (nonlinear_arith)
                requires
                    x == 300 * (i % c),
                    0 <= i % c < c,
            ;
            assert(i / c < rw) by (nonlinear_arith)
                requires
                    0 <= i < rw * c,
                    c > 0,
            ;
            assert(0 <= y && y + 300 <= 300 * rw) by (nonlinear_arith)
                requires
                    y == 300 * (i / c),
                    0 <= i,
                    c > 0,
                    i / c < rw,
            ;
        }
    }
    render(&plan, rows, columns, style)
}

/// Composing the same albums, with the same artwork, on the same grid and
/// with the same text style twice gives pixel-identical images.
pub proof fn collage_is_deterministic(
    albums: Seq<Album>,
    arts: Seq<Option<(nat, nat, Seq<(u8, u8, u8)>)>>,
    rows: nat,
    columns: nat,
    font: Seq<u8>,
    size: nat,
    first: Raster,
    second: Raster,
)
    requires
        rgb_pixels(first) == collage_pixels(albums, arts, rows, columns, font, size),
        rgb_pixels(second) == collage_pixels(albums, arts, rows, columns, font, size),
    ensures
        rgb_pixels(first) == rgb_pixels(second),
{
}

/// A cell whose album has no artwork gets none: nothing is laid into it, and
/// it still carries the artist, album and play count lines.
pub proof fn cell_without_artwork_keeps_labels(
    albums: Seq<Album>,
    arts: Seq<Option<(nat, nat, Seq<(u8, u8, u8)>)>>,
    rows: nat,
    columns: nat,
    i: int,
)
    requires
        0 <= i < filled_cells(albums.len(), rows, columns),
        arts[i] is None,
    ensures
        collage_layout(albums, arts, rows, columns)[i].2 is None,
        collage_layout(albums, arts, rows, columns)[i].3.len() == 6,
        collage_layout(albums, arts, rows, columns)[i].3[1].3 == albums[i].artist.name@,
        collage_layout(albums, arts, rows, columns)[i].3[3].3 == albums[i].name@,
        collage_layout(albums, arts, rows, columns)[i].3[5].3 == albums[i].playcount@,
{
}

/// Whatever size the artwork decoded to, what a cell shows of it is exactly
/// one cell, 300 by 300 pixels.
pub proof fn cell_artwork_is_cell_sized(
    albums: Seq<Album>,
    arts: Seq<Option<(nat, nat, Seq<(u8, u8, u8)>)>>,
    rows: nat,
    columns: nat,
    i: int,
)
    requires
        0 <= i < filled_cells(albums.len(), rows, columns),
        collage_layout(albums, arts, rows, columns)[i].2 is Some,
    ensures
        collage_layout(albums, arts, rows, columns)[i].2->Some_0.0 == 300,
        collage_layout(albums, arts, rows, columns)[i].2->Some_0.1 == 300,
{
}

/// The album at index `i` lands at `(300 * (i mod columns), 300 * (i div columns))`.
pub proof fn cell_placement(
    albums: Seq<Album>,
    arts: Seq<Option<(nat, nat, Seq<(u8, u8, u8)>)>>,
    rows: nat,
    columns: nat,
    i: int,
)
    requires
        0 <= i < filled_cells(albums.len(), rows, columns),
    ensures
        collage_layout(albums, arts, rows, columns)[i].0 == 300 * (i % columns as int),
        collage_layout(albums, arts, rows, columns)[i].1 == 300 * (i / columns as int),
{
}

/// In the step that lays a cell's artwork over the canvas, each pixel of the
/// cell, `(dx, dy)` from the cell's origin, takes the artwork's pixel
/// `(dx, dy)`.
pub proof fn artwork_fills_its_cell(
    pixels: Seq<(u8, u8, u8)>,
    width: nat,
    height: nat,
    cell: CellView,
    dx: int,
    dy: int,
)
    requires
        pixels.len() == width * height,
        cell.2 is Some,
        cell.2->Some_0.0 == 300,
        cell.2->Some_0.1 == 300,
        0 <= cell.0,
        cell.0 + 300 <= width,
        0 <= cell.1,
        cell.1 + 300 <= height,
        0 <= dx < 300,
        0 <= dy < 300,
    ensures
        pixel_at(
            overlaid(pixels, width, cell.2->Some_0.2, 300, 300, cell.0, cell.1),
            width,
            cell.0 + dx,
            cell.1 + dy,
        ) == pixel_at(cell.2->Some_0.2, 300, dx, dy),
{
    let w = width as int;
    let px = cell.0 + dx;
    let py = cell.1 + dy;
    let i = py * w + px;
    lemma_fundamental_div_mod_converse(i, w, py, px);
    assert(i < pixels.len()) by (nonlinear_arith)
        requires
            i == py * w + px,
            0 <= px < w,
            0 <= py < height,
            pixels.len() == w * height,
    ;
    assert(0 <= i) by (nonlinear_arith)
        requires
            i == py * w + px,
            0 <= px,
            0 <= py,
            w > 0,
    ;
}

/// The step that lays a cell's artwork over the canvas leaves every pixel
/// outside that cell as it was.
pub proof fn artwork_keeps_other_cells(
    pixels: Seq<(u8, u8, u8)>,
    width: nat,
    cell: CellView,
    j: int,
)
    requires
        cell.2 is Some,
        cell.2->Some_0.0 == 300,
        cell.2->Some_0.1 == 300,
        width > 0,
        0 <= j < pixels.len(),
        !(cell.0 <= j % (width as int) < cell.0 + 300 && cell.1 <= j / (width as int) < cell.1 + 300),
    ensures
        overlaid(pixels, width, cell.2->Some_0.2, 300, 300, cell.0, cell.1)[j] == pixels[j],
{
}

/// The encodings that a collage can be delivered in.
#[derive(Clone, Copy, Debug, PartialEq, Eq, Structural)]
pub enum OutputFormat {
    Png,
    WebP,
}

impl OutputFormat {
    /// The media type of the encoding.
    pub fn content_type(&self) -> (r: &'static str)
        ensures
            *self == OutputFormat::Png ==> r@ == "image/png"@,
            *self == OutputFormat::WebP ==> r@ == "image/webp"@,
    {
        match self {
            OutputFormat::Png => "image/png",
            OutputFormat::WebP => "image/webp",
        }
    }
}

/// The encoder refused the image.
#[derive(Clone, Copy, Debug, PartialEq, Eq, Structural)]
pub struct EncodingError;

/// `image` encoded in `format`.
pub fn encode_collage(image: &Raster, format: OutputFormat) -> (r: Result<Vec<u8>, EncodingError>)
    ensures
        r is Err <==> encoded_image(
            rgb_width(*image),
            rgb_height(*image),
            rgb_pixels(*image),
            format == OutputFormat::WebP,
        ) is None,
        r matches Ok(b) ==> encoded_image(
            rgb_width(*image),
            rgb_height(*image),
            rgb_pixels(*image),
            format == OutputFormat::WebP,
        ) == Some(b@),
{
    let webp = match format {
        OutputFormat::Png => false,
        OutputFormat::WebP => true,
    };
    match image.encode(webp) {
        Some(bytes) => Ok(bytes),
        None => Err(EncodingError),
    }
}

} // verus!
