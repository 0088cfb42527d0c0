use collage::collage::{
    artwork_size, cell_position, collage_plan, create_collage, encode_collage, fit_to_cell, labels_fit,
    label_draws, EncodingError, OutputFormat, TextStyle, INK, SHADOW,
};
use collage::lastfm::{Album, Artist, Image};
use collage::raster::Raster;

fn be16(out: &mut Vec<u8>, v: u16) {
    out.extend_from_slice(&v.to_be_bytes());
}

fn be32(out: &mut Vec<u8>, v: u32) {
    out.extend_from_slice(&v.to_be_bytes());
}

/// A two-glyph TrueType font: every printable ASCII character is drawn as a
/// solid box 500 units wide and 700 high, with an advance of 600.
fn box_font() -> Vec<u8> {
    let mut head = Vec::new();
    be32(&mut head, 0x0001_0000);
    be32(&mut head, 0x0001_0000);
    be32(&mut head, 0);
    be32(&mut head, 0x5F0F_3CF5);
    be16(&mut head, 0);
    be16(&mut head, 1000);
    head.extend_from_slice(&[0u8; 16]);
    for v in [0u16, 0, 500, 700] {
        be16(&mut head, v);
    }
    be16(&mut head, 0);
    be16(&mut head, 8);
    be16(&mut head, 2);
    be16(&mut head, 0);
    be16(&mut head, 0);

    let mut hhea = Vec::new();
    be32(&mut hhea, 0x0001_0000);
    be16(&mut hhea, 800);
    be16(&mut hhea, (-200i16) as u16);
    be16(&mut hhea, 0);
    be16(&mut hhea, 600);
    be16(&mut hhea, 0);
    be16(&mut hhea, 100);
    be16(&mut hhea, 500);
    be16(&mut hhea, 1);
    be16(&mut hhea, 0);
    be16(&mut hhea, 0);
    hhea.extend_from_slice(&[0u8; 8]);
    be16(&mut hhea, 0);
    be16(&mut hhea, 2);

    let mut maxp = Vec::new();
    be32(&mut maxp, 0x0000_5000);
    be16(&mut maxp, 2);

    let mut hmtx = Vec::new();
    for _ in 0..2 {
        be16(&mut hmtx, 600);
        be16(&mut hmtx, 0);
    }

    let mut glyf = Vec::new();
    for v in [1u16, 0, 0, 500, 700, 3, 0] {
        be16(&mut glyf, v);
    }
    glyf.extend_from_slice(&[1u8; 4]);
    for dx in [0i16, 500, 0, -500] {
        be16(&mut glyf, dx as u16);
    }
    for dy in [0i16, 0, 700, 0] {
        be16(&mut glyf, dy as u16);
    }
    glyf.extend_from_slice(&[0u8; 2]);

    let mut loca = Vec::new();
    for v in [0u16, 0, (glyf.len() / 2) as u16] {
        be16(&mut loca, v);
    }

    let mut cmap = Vec::new();
    be16(&mut cmap, 0);
    be16(&mut cmap, 1);
    be16(&mut cmap, 0);
    be16(&mut cmap, 3);
    be32(&mut cmap, 12);
    be16(&mut cmap, 0);
    be16(&mut cmap, 262);
    be16(&mut cmap, 0);
    cmap.extend((0..256).map(|c| if (0x21..0x7f).contains(&c) { 1u8 } else { 0u8 }));

    let tables: Vec<(&[u8; 4], Vec<u8>)> = vec![
        (b"cmap", cmap),
        (b"glyf", glyf),
        (b"head", head),
        (b"hhea", hhea),
        (b"hmtx", hmtx),
        (b"loca", loca),
        (b"maxp", maxp),
    ];
    let mut out = Vec::new();
    be32(&mut out, 0x0001_0000);
    be16(&mut out, tables.len() as u16);
    be16(&mut out, 64);
    be16(&mut out, 2);
    be16(&mut out, 48);
    let mut offset = 12 + 16 * tables.len();
    let mut body = Vec::new();
    for (tag, data) in &tables {
        out.extend_from_slice(&tag[..]);
        be32(&mut out, 0);
        be32(&mut out, offset as u32);
        be32(&mut out, data.len() as u32);
        let mut padded = data.clone();
        while padded.len() % 4 != 0 {
            padded.push(0);
        }
        offset += padded.len();
        body.extend_from_slice(&padded);
    }
    out.extend_from_slice(&body);
    out
}

fn style() -> TextStyle {
    TextStyle { font_data: box_font(), size: 18 }
}

#[test]
fn box_font_draws_text() {
    let albums = vec![album("WWW", "MMM", "888", "")];
    let out = decode(&render_png(&albums, vec![None], 1, 1));
    assert!(has_non_black(&out, 10, 10, 100, 30));
}

fn album(artist: &str, name: &str, playcount: &str, url: &str) -> Album {
    Album {
        name: name.to_string(),
        artist: Artist { url: String::new(), name: artist.to_string(), mbid: String::new() },
        playcount: playcount.to_string(),
        url: String::new(),
        images: vec![
            Image { url: "https://img/s.png".to_string(), size: "small".to_string() },
            Image { url: url.to_string(), size: "extralarge".to_string() },
        ],
    }
}

fn solid_png(width: u32, height: u32, colour: [u8; 3]) -> Vec<u8> {
    let mut out = std::io::Cursor::new(Vec::new());
    image::RgbImage::from_pixel(width, height, image::Rgb(colour))
        .write_to(&mut out, image::ImageFormat::Png)
        .unwrap();
    out.into_inner()
}

fn raster(width: u32, height: u32, colour: [u8; 3]) -> Raster {
    Raster::decode(&solid_png(width, height, colour)).unwrap()
}

fn decode(bytes: &[u8]) -> image::RgbImage {
    image::load_from_memory(bytes).unwrap().to_rgb8()
}

fn render_png(albums: &Vec<Album>, arts: Vec<Option<Raster>>, rows: usize, columns: usize) -> Vec<u8> {
    let img = create_collage(albums, arts, rows, columns, &style());
    encode_collage(&img, OutputFormat::Png).unwrap()
}

fn has_non_black(img: &image::RgbImage, x0: u32, y0: u32, x1: u32, y1: u32) -> bool {
    (y0..y1).any(|y| (x0..x1).any(|x| img.get_pixel(x, y).0 != [0, 0, 0]))
}

#[test]
fn cell_positions_follow_rows() {
    assert_eq!(cell_position(0, 2, 3), (0, 0));
    assert_eq!(cell_position(2, 2, 3), (600, 0));
    assert_eq!(cell_position(3, 2, 3), (0, 300));
    assert_eq!(cell_position(5, 2, 3), (600, 300));
}

#[test]
fn labels_have_shadows() {
    let a = album("Band", "Record", "17", "");
    let d = label_draws(&a, 300, 600);
    let got: Vec<(i32, i32, (u8, u8, u8), String)> =
        d.into_iter().map(|l| (l.x, l.y, l.colour, l.text)).collect();
    assert_eq!(
        got,
        vec![
            (311, 611, SHADOW, "Band".to_string()),
            (310, 610, INK, "Band".to_string()),
            (311, 630, SHADOW, "Record".to_string()),
            (310, 629, INK, "Record".to_string()),
            (311, 649, SHADOW, "17".to_string()),
            (310, 648, INK, "17".to_string()),
        ]
    );
}

#[test]
fn artwork_size_is_extralarge() {
    assert_eq!(artwork_size(), "extralarge");
}

#[test]
fn fit_to_cell_resizes_other_sizes() {
    let r = fit_to_cell(raster(64, 48, [1, 2, 3])).unwrap();
    assert_eq!((r.width(), r.height()), (300, 300));
    let same = fit_to_cell(raster(300, 300, [1, 2, 3])).unwrap();
    assert_eq!((same.width(), same.height()), (300, 300));
    let big = fit_to_cell(raster(640, 640, [5, 5, 5])).unwrap();
    assert_eq!((big.width(), big.height()), (300, 300));
}

#[test]
fn resized_artwork_keeps_its_colour() {
    let albums = vec![album("A", "B", "1", "https://img/a.png")];
    let out = decode(&render_png(&albums, vec![Some(raster(30, 30, [200, 20, 20]))], 1, 1));
    assert_eq!((out.width(), out.height()), (300, 300));
    assert_eq!(out.get_pixel(250, 250).0, [200, 20, 20]);
    assert_eq!(out.get_pixel(299, 299).0, [200, 20, 20]);
}

#[test]
fn collage_has_grid_dimensions() {
    for (rows, columns) in [(1usize, 1usize), (2, 3), (3, 2), (1, 4)] {
        let albums: Vec<Album> =
            (0..rows * columns).map(|i| album("A", &format!("B{}", i), "1", "")).collect();
        let arts = (0..rows * columns).map(|_| None).collect();
        let img = create_collage(&albums, arts, rows, columns, &style());
        assert_eq!((img.width(), img.height()), (300 * columns as u32, 300 * rows as u32));
    }
}

#[test]
fn plan_places_cells_in_reading_order() {
    let albums: Vec<Album> = (0..6).map(|i| album("A", &format!("B{}", i), "1", "")).collect();
    let plan = collage_plan(&albums, (0..6).map(|_| None).collect(), 2, 3);
    let origins: Vec<(u32, u32)> = plan.iter().map(|c| (c.x, c.y)).collect();
    assert_eq!(origins, vec![(0, 0), (300, 0), (600, 0), (0, 300), (300, 300), (600, 300)]);
    assert!(plan.iter().all(|c| c.artwork.is_none() && c.labels.len() == 6));
    assert_eq!(plan[4].labels[3].text, "B4");
}

#[test]
fn plan_with_fewer_albums_fills_leading_cells() {
    let albums: Vec<Album> = (0..2).map(|i| album("A", &format!("B{}", i), "1", "")).collect();
    let plan = collage_plan(&albums, vec![None, None], 2, 2);
    assert_eq!(plan.len(), 2);
}

#[test]
fn plan_with_more_albums_ignores_excess() {
    let albums: Vec<Album> = (0..7).map(|i| album("A", &format!("B{}", i), "1", "")).collect();
    let plan = collage_plan(&albums, (0..7).map(|_| None).collect(), 2, 2);
    assert_eq!(plan.len(), 4);
    let img = create_collage(&albums, (0..7).map(|_| None).collect(), 2, 2, &style());
    assert_eq!((img.width(), img.height()), (600, 600));
}

#[test]
fn empty_artwork_url_leaves_background_with_text() {
    let albums = vec![album("Someone", "Something", "12", "")];
    let art = albums[0].get_image("extralarge", Some(&solid_png(300, 300, [9, 9, 9])[..]));
    assert!(art.is_none());
    let out = decode(&render_png(&albums, vec![art], 1, 1));
    assert_eq!(out.get_pixel(250, 250).0, [0, 0, 0]);
    assert!(has_non_black(&out, 10, 10, 290, 30));
    assert!(has_non_black(&out, 10, 29, 290, 48));
    assert!(has_non_black(&out, 10, 48, 290, 70));
}

#[test]
fn two_by_two_scenario() {
    let red = solid_png(300, 300, [220, 30, 30]);
    let albums = vec![
        album("Artist0", "Album0", "100", "https://img/0.png"),
        album("Artist1", "Album1", "90", ""),
        album("Artist2", "Album2", "80", "https://img/2.png"),
        album("Artist3", "Album3", "70", ""),
    ];
    let arts: Vec<Option<Raster>> = albums
        .iter()
        .map(|a| a.get_image("extralarge", Some(&red[..])))
        .collect();
    let out = decode(&render_png(&albums, arts, 2, 2));
    assert_eq!((out.width(), out.height()), (600, 600));
    assert_eq!(out.get_pixel(250, 250).0, [220, 30, 30]);
    assert_eq!(out.get_pixel(550, 250).0, [0, 0, 0]);
    assert_eq!(out.get_pixel(250, 550).0, [220, 30, 30]);
    assert_eq!(out.get_pixel(550, 550).0, [0, 0, 0]);
    for (x, y) in [(0u32, 0u32), (300, 0), (0, 300), (300, 300)] {
        assert!(has_non_black(&out, x + 10, y + 10, x + 290, y + 70));
    }
    assert!(has_non_black(&out, 310, 10, 590, 30));
    assert_eq!(out.get_pixel(450, 200).0, [0, 0, 0]);
}

#[test]
fn composing_twice_is_identical() {
    let albums = vec![
        album("A", "B", "3", "https://img/0.png"),
        album("C", "D", "2", "https://img/1.png"),
    ];
    let make = || vec![Some(raster(120, 80, [10, 200, 30])), Some(raster(300, 300, [1, 2, 3]))];
    let first = render_png(&albums, make(), 1, 2);
    let second = render_png(&albums, make(), 1, 2);
    assert_eq!(decode(&first), decode(&second));
}

#[test]
fn webp_and_png_decode_to_same_pixels() {
    let albums = vec![album("A", "B", "3", "https://img/0.png")];
    let img = create_collage(&albums, vec![Some(raster(300, 300, [40, 80, 120]))], 1, 1, &style());
    let png = encode_collage(&img, OutputFormat::Png).unwrap();
    let webp = encode_collage(&img, OutputFormat::WebP).unwrap();
    assert_eq!(image::guess_format(&png).unwrap(), image::ImageFormat::Png);
    assert_eq!(image::guess_format(&webp).unwrap(), image::ImageFormat::WebP);
    assert_eq!(decode(&png), decode(&webp));
    assert_eq!(OutputFormat::Png.content_type(), "image/png");
    assert_eq!(OutputFormat::WebP.content_type(), "image/webp");
    let _ = EncodingError;
}

#[test]
fn labels_fit_bounds_label_length() {
    let short = vec![album("A", "B", "1", ""), album("C", "D", "2", "")];
    assert!(labels_fit(&short));
    assert!(labels_fit(&Vec::new()));
    let long = "x".repeat(4097);
    let too_long = vec![album("A", "B", "1", ""), album("C", &long, "2", "")];
    assert!(!labels_fit(&too_long));
    let edge = "é".repeat(4096);
    assert!(labels_fit(&vec![album(&edge, "B", "1", "")]));
}

#[test]
fn text_needs_a_font() {
    let albums = vec![album("WWW", "MMM", "888", "")];
    let blank = TextStyle { font_data: vec![1, 2, 3], size: 18 };
    let img = create_collage(&albums, vec![None], 1, 1, &blank);
    let out = decode(&encode_collage(&img, OutputFormat::Png).unwrap());
    assert!(!has_non_black(&out, 0, 0, 300, 300));
}
