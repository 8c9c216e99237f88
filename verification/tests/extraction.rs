use font_outlines::coverage::coverage;
use font_outlines::error::{open_font, CoordinateError, FontFile, Stage};
use font_outlines::metrics::{units_per_em, weight_classes};
use font_outlines::outline::{
    collect_points_from_font, command_breakdown, glyph_command_counts, outline_coordinates,
    outline_formats,
};
use font_outlines::pens::OutlinePoint;

fn put16(out: &mut Vec<u8>, value: u16) {
    out.extend_from_slice(&value.to_be_bytes());
}

fn put32(out: &mut Vec<u8>, value: u32) {
    out.extend_from_slice(&value.to_be_bytes());
}

fn puti16(out: &mut Vec<u8>, value: i16) {
    out.extend_from_slice(&value.to_be_bytes());
}

/// A simple glyph of one closed contour through the given on-curve points.
fn contour(points: &[(i16, i16)]) -> Vec<u8> {
    outline(points, &vec![true; points.len()])
}

/// A simple glyph of one closed contour; `on_curve` tells for each point
/// whether it lies on the curve or is a control point.
fn outline(points: &[(i16, i16)], on_curve: &[bool]) -> Vec<u8> {
    let mut out = Vec::new();
    puti16(&mut out, 1);
    puti16(&mut out, points.iter().map(|p| p.0).min().unwrap());
    puti16(&mut out, points.iter().map(|p| p.1).min().unwrap());
    puti16(&mut out, points.iter().map(|p| p.0).max().unwrap());
    puti16(&mut out, points.iter().map(|p| p.1).max().unwrap());
    put16(&mut out, points.len() as u16 - 1);
    put16(&mut out, 0);
    for on in on_curve {
        out.push(if *on { 0x01 } else { 0x00 });
    }
    let mut last = 0i16;
    for p in points {
        puti16(&mut out, p.0 - last);
        last = p.0;
    }
    last = 0;
    for p in points {
        puti16(&mut out, p.1 - last);
        last = p.1;
    }
    while out.len() % 4 != 0 {
        out.push(0);
    }
    out
}

/// A simple glyph whose two contours end out of order, which the engine
/// accepts when it lists the glyphs and rejects when it draws them.
fn disordered() -> Vec<u8> {
    let mut out = Vec::new();
    puti16(&mut out, 2);
    puti16(&mut out, 0);
    puti16(&mut out, 0);
    puti16(&mut out, 100);
    puti16(&mut out, 100);
    put16(&mut out, 3);
    put16(&mut out, 1);
    put16(&mut out, 0);
    out.extend_from_slice(&[0x01; 4]);
    for delta in [0i16, 100, 0, -100, 0, 0, 100, 0] {
        puti16(&mut out, delta);
    }
    out
}

fn broken_font() -> Vec<u8> {
    build(&Recipe {
        units_per_em: Some(1000),
        bold_in_header: false,
        weight: Some(400),
        glyphs: vec![rectangle(), disordered(), rectangle()],
        segments: vec![(65, 66, 1)],
    })
}

fn rectangle() -> Vec<u8> {
    contour(&[(0, 0), (0, 500), (250, 500), (250, 0)])
}

fn triangle() -> Vec<u8> {
    contour(&[(0, 20), (100, 20), (50, 220)])
}

struct Recipe {
    units_per_em: Option<u16>,
    bold_in_header: bool,
    weight: Option<u16>,
    glyphs: Vec<Vec<u8>>,
    segments: Vec<(u16, u16, u16)>,
}

fn head(units_per_em: u16, bold: bool) -> Vec<u8> {
    let mut out = Vec::new();
    put32(&mut out, 0x0001_0000);
    put32(&mut out, 0x0001_0000);
    put32(&mut out, 0);
    put32(&mut out, 0x5f0f_3cf5);
    put16(&mut out, 0);
    put16(&mut out, units_per_em);
    out.extend_from_slice(&[0; 16]);
    out.extend_from_slice(&[0; 8]);
    put16(&mut out, if bold { 1 } else { 0 });
    put16(&mut out, 8);
    put16(&mut out, 2);
    put16(&mut out, 0);
    put16(&mut out, 0);
    out
}

fn hhea(metrics: u16) -> Vec<u8> {
    let mut out = Vec::new();
    put32(&mut out, 0x0001_0000);
    out.extend_from_slice(&[0; 30]);
    put16(&mut out, metrics);
    out
}

fn maxp(glyphs: u16) -> Vec<u8> {
    let mut out = Vec::new();
    put32(&mut out, 0x0001_0000);
    put16(&mut out, glyphs);
    put16(&mut out, 16);
    put16(&mut out, 4);
    put16(&mut out, 0);
    put16(&mut out, 0);
    put16(&mut out, 1);
    out.extend_from_slice(&[0; 16]);
    out
}

fn os2(weight: u16) -> Vec<u8> {
    let mut out = vec![0u8; 78];
    out[4..6].copy_from_slice(&weight.to_be_bytes());
    out[7] = 5;
    out
}

fn cmap(segments: &[(u16, u16, u16)]) -> Vec<u8> {
    let mut all: Vec<(u16, u16, u16)> = segments.to_vec();
    all.push((0xffff, 0xffff, 0));
    let count = all.len() as u16;
    let mut sub = Vec::new();
    put16(&mut sub, 4);
    put16(&mut sub, 16 + 8 * count);
    put16(&mut sub, 0);
    put16(&mut sub, count * 2);
    let mut power = 1u16;
    let mut log = 0u16;
    while power * 2 <= count {
        power *= 2;
        log += 1;
    }
    put16(&mut sub, power * 2);
    put16(&mut sub, log);
    put16(&mut sub, count * 2 - power * 2);
    for s in &all {
        put16(&mut sub, s.1);
    }
    put16(&mut sub, 0);
    for s in &all {
        put16(&mut sub, s.0);
    }
    for s in &all {
        put16(&mut sub, s.2.wrapping_sub(s.0));
    }
    for _ in &all {
        put16(&mut sub, 0);
    }
    let mut out = Vec::new();
    put16(&mut out, 0);
    put16(&mut out, 1);
    put16(&mut out, 3);
    put16(&mut out, 1);
    put32(&mut out, 12);
    out.extend_from_slice(&sub);
    out
}

fn build(recipe: &Recipe) -> Vec<u8> {
    let count = recipe.glyphs.len() as u16;
    let mut glyf = Vec::new();
    let mut loca = Vec::new();
    put16(&mut loca, 0);
    for glyph in &recipe.glyphs {
        glyf.extend_from_slice(glyph);
        put16(&mut loca, (glyf.len() / 2) as u16);
    }
    if glyf.is_empty() {
        glyf.extend_from_slice(&[0; 4]);
    }
    let mut tables: Vec<(&[u8; 4], Vec<u8>)> = Vec::new();
    if let Some(weight) = recipe.weight {
        tables.push((b"OS/2", os2(weight)));
    }
    tables.push((b"cmap", cmap(&recipe.segments)));
    tables.push((b"glyf", glyf));
    if let Some(units) = recipe.units_per_em {
        tables.push((b"head", head(units, recipe.bold_in_header)));
    }
    tables.push((b"hhea", hhea(count)));
    tables.push((b"hmtx", vec![0u8; 4 * recipe.glyphs.len()]));
    tables.push((b"loca", loca));
    tables.push((b"maxp", maxp(count)));

    let n = tables.len() as u16;
    let mut out = Vec::new();
    put32(&mut out, 0x0001_0000);
    put16(&mut out, n);
    let mut power = 1u16;
    let mut log = 0u16;
    while power * 2 <= n {
        power *= 2;
        log += 1;
    }
    put16(&mut out, power * 16);
    put16(&mut out, log);
    put16(&mut out, n * 16 - power * 16);
    let mut offset = 12 + 16 * tables.len();
    for (tag, data) in &tables {
        out.extend_from_slice(&tag[..]);
        put32(&mut out, 0);
        put32(&mut out, offset as u32);
        put32(&mut out, data.len() as u32);
        offset += (data.len() + 3) / 4 * 4;
    }
    for (_, data) in &tables {
        out.extend_from_slice(data);
        while out.len() % 4 != 0 {
            out.push(0);
        }
    }
    out
}

fn rectangle_font() -> Vec<u8> {
    build(&Recipe {
        units_per_em: Some(1000),
        bold_in_header: false,
        weight: Some(400),
        glyphs: vec![rectangle()],
        segments: vec![],
    })
}

fn latin_font() -> Vec<u8> {
    build(&Recipe {
        units_per_em: Some(2048),
        bold_in_header: false,
        weight: Some(700),
        glyphs: vec![Vec::new(), rectangle(), triangle(), rectangle(), Vec::new(), triangle()],
        segments: vec![(65, 67, 1), (126, 128, 3), (0x100, 0x100, 2)],
    })
}

fn file(path: &str, data: Vec<u8>) -> FontFile {
    FontFile { path: path.to_string(), contents: Ok(data) }
}

fn missing(path: &str) -> FontFile {
    FontFile { path: path.to_string(), contents: Err("No such file or directory".to_string()) }
}

fn bits(value: f32) -> u32 {
    value.to_bits()
}

fn point(x: f32, y: f32, units_per_em: u16) -> OutlinePoint {
    OutlinePoint { x: bits(x), y: bits(y), units_per_em }
}

#[test]
fn rectangle_font_yields_four_points() {
    let points = outline_coordinates(vec![file("rect.ttf", rectangle_font())]).unwrap();
    assert_eq!(
        points,
        vec![
            point(0.0, 0.0, 1000),
            point(0.0, 500.0, 1000),
            point(250.0, 500.0, 1000),
            point(250.0, 0.0, 1000),
        ]
    );
    let scaled: Vec<[f32; 2]> = points
        .iter()
        .map(|p| {
            let scale = 1.0 / f32::from(p.units_per_em);
            [f32::from_bits(p.x) * scale, f32::from_bits(p.y) * scale]
        })
        .collect();
    assert_eq!(scaled, vec![[0.0, 0.0], [0.0, 0.5], [0.25, 0.5], [0.25, 0.0]]);
}

#[test]
fn rectangle_font_breakdown_is_one_move_three_lines_one_close() {
    let (totals, glyphs) = command_breakdown(vec![file("rect.ttf", rectangle_font())]).unwrap();
    assert_eq!(totals, [1, 3, 0, 0, 1]);
    assert_eq!(glyphs, 1);
}

#[test]
fn a_control_point_gives_a_quadratic_curve() {
    let arch = || {
        file(
            "arch.ttf",
            build(&Recipe {
                units_per_em: Some(500),
                bold_in_header: false,
                weight: Some(400),
                glyphs: vec![outline(&[(0, 0), (50, 100), (100, 0)], &[true, false, true])],
                segments: vec![],
            }),
        )
    };
    assert_eq!(command_breakdown(vec![arch()]).unwrap(), ([1, 0, 1, 0, 1], 1));
    assert_eq!(glyph_command_counts(vec![arch()]).unwrap(), vec![3]);
    assert_eq!(
        outline_coordinates(vec![arch()]).unwrap(),
        vec![point(0.0, 0.0, 500), point(50.0, 100.0, 500), point(100.0, 0.0, 500)]
    );
}

#[test]
fn glyph_command_counts_has_one_entry_per_glyph_across_the_batch() {
    let fonts = vec![file("latin.ttf", latin_font()), file("rect.ttf", rectangle_font())];
    let counts = glyph_command_counts(fonts).unwrap();
    assert_eq!(counts, vec![0, 5, 4, 5, 0, 4, 5]);
}

#[test]
fn breakdown_totals_add_up_to_the_sum_of_the_counts() {
    let fonts = || vec![file("latin.ttf", latin_font()), file("rect.ttf", rectangle_font())];
    let counts = glyph_command_counts(fonts()).unwrap();
    let (totals, glyphs) = command_breakdown(fonts()).unwrap();
    assert_eq!(totals, [5, 13, 0, 0, 5]);
    assert_eq!(glyphs, 7);
    assert_eq!(glyphs, counts.len() as u64);
    assert_eq!(totals.iter().sum::<u64>(), counts.iter().map(|&c| u64::from(c)).sum::<u64>());
}

#[test]
fn points_follow_file_order_then_glyph_order() {
    let first = collect_points_from_font(&file("latin.ttf", latin_font())).unwrap();
    let second = collect_points_from_font(&file("rect.ttf", rectangle_font())).unwrap();
    assert_eq!(first.len(), 4 + 3 + 4 + 3);
    assert_eq!(first[4], point(0.0, 20.0, 2048));
    assert_eq!(first[6], point(50.0, 220.0, 2048));
    assert_eq!(second.len(), 4);
    let both = outline_coordinates(vec![
        file("latin.ttf", latin_font()),
        file("rect.ttf", rectangle_font()),
    ])
    .unwrap();
    let swapped = outline_coordinates(vec![
        file("rect.ttf", rectangle_font()),
        file("latin.ttf", latin_font()),
    ])
    .unwrap();
    assert_eq!(both, [first.clone(), second.clone()].concat());
    assert_eq!(swapped, [second, first].concat());
}

#[test]
fn units_per_em_reports_the_stored_value_per_font() {
    let fonts = vec![
        file("latin.ttf", latin_font()),
        file("rect.ttf", rectangle_font()),
        file("latin.ttf", latin_font()),
    ];
    assert_eq!(units_per_em(fonts).unwrap(), vec![2048, 1000, 2048]);
}

#[test]
fn units_per_em_falls_back_to_1000_without_a_header() {
    let headless = build(&Recipe {
        units_per_em: None,
        bold_in_header: false,
        weight: Some(400),
        glyphs: vec![rectangle()],
        segments: vec![],
    });
    assert_eq!(units_per_em(vec![file("headless.ttf", headless)]).unwrap(), vec![1000]);
}

#[test]
fn a_stored_zero_is_reported_but_never_scaled_by() {
    let zero = build(&Recipe {
        units_per_em: Some(0),
        bold_in_header: false,
        weight: Some(400),
        glyphs: vec![rectangle()],
        segments: vec![],
    });
    assert_eq!(units_per_em(vec![file("zero.ttf", zero.clone())]).unwrap(), vec![0]);
    let points = outline_coordinates(vec![file("zero.ttf", zero)]).unwrap();
    assert!(points.iter().all(|p| p.units_per_em == 1000));
}

#[test]
fn weight_classes_are_rounded_and_clamped() {
    let with_weight = |weight: Option<u16>, bold: bool| {
        file(
            "w.ttf",
            build(&Recipe {
                units_per_em: Some(1000),
                bold_in_header: bold,
                weight,
                glyphs: vec![rectangle()],
                segments: vec![],
            }),
        )
    };
    let fonts = vec![
        with_weight(Some(700), false),
        with_weight(Some(0), false),
        with_weight(Some(1), false),
        with_weight(Some(1000), false),
        with_weight(Some(1001), false),
        with_weight(Some(65535), false),
        with_weight(None, true),
        with_weight(None, false),
    ];
    assert_eq!(weight_classes(fonts).unwrap(), vec![700, 1, 1, 1000, 1000, 1000, 700, 400]);
}

#[test]
fn coverage_keeps_codepoints_below_the_limit_in_mapping_order() {
    let fonts = || vec![file("latin.ttf", latin_font()), file("rect.ttf", rectangle_font())];
    assert_eq!(coverage(fonts(), 128).unwrap(), vec![vec![65, 66, 67, 126, 127], vec![]]);
    assert_eq!(
        coverage(fonts(), 0x101).unwrap(),
        vec![vec![65, 66, 67, 126, 127, 128, 0x100], vec![]]
    );
    assert_eq!(coverage(fonts(), 0).unwrap(), vec![Vec::<u32>::new(), vec![]]);
}

#[test]
fn coverage_grows_with_the_limit() {
    let low = coverage(vec![file("latin.ttf", latin_font())], 100).unwrap();
    let high = coverage(vec![file("latin.ttf", latin_font())], 200).unwrap();
    assert!(low[0].iter().all(|codepoint| high[0].contains(codepoint)));
    assert!(low[0].len() < high[0].len());
}

#[test]
fn outline_formats_label_each_font() {
    let bare = build(&Recipe {
        units_per_em: None,
        bold_in_header: false,
        weight: None,
        glyphs: vec![],
        segments: vec![],
    });
    let fonts = vec![file("rect.ttf", rectangle_font()), file("bare.ttf", bare)];
    assert_eq!(outline_formats(fonts).unwrap(), vec!["TrueType".to_string(), "Unknown".to_string()]);
}

#[test]
fn a_font_without_outlines_has_no_glyph_entries() {
    let bare = build(&Recipe {
        units_per_em: None,
        bold_in_header: false,
        weight: None,
        glyphs: vec![],
        segments: vec![],
    });
    assert_eq!(glyph_command_counts(vec![file("bare.ttf", bare.clone())]).unwrap(), Vec::<u32>::new());
    assert_eq!(command_breakdown(vec![file("bare.ttf", bare.clone())]).unwrap(), ([0; 5], 0));
    assert_eq!(outline_coordinates(vec![file("bare.ttf", bare)]).unwrap(), Vec::<OutlinePoint>::new());
}

#[test]
fn an_empty_batch_gives_empty_results() {
    assert_eq!(units_per_em(vec![]).unwrap(), Vec::<u16>::new());
    assert_eq!(weight_classes(vec![]).unwrap(), Vec::<u16>::new());
    assert_eq!(coverage(vec![], 128).unwrap(), Vec::<Vec<u32>>::new());
    assert_eq!(outline_formats(vec![]).unwrap(), Vec::<String>::new());
    assert_eq!(glyph_command_counts(vec![]).unwrap(), Vec::<u32>::new());
    assert_eq!(command_breakdown(vec![]).unwrap(), ([0; 5], 0));
    assert_eq!(outline_coordinates(vec![]).unwrap(), Vec::<OutlinePoint>::new());
}

#[test]
fn a_missing_file_fails_the_whole_batch_with_its_path() {
    let fonts = || vec![file("rect.ttf", rectangle_font()), missing("gone.ttf"), file("x", vec![1])];
    let checks: Vec<CoordinateError> = vec![
        units_per_em(fonts()).unwrap_err(),
        weight_classes(fonts()).unwrap_err(),
        coverage(fonts(), 128).unwrap_err(),
        outline_formats(fonts()).unwrap_err(),
        glyph_command_counts(fonts()).unwrap_err(),
        command_breakdown(fonts()).unwrap_err(),
        outline_coordinates(fonts()).unwrap_err(),
    ];
    for error in checks {
        assert_eq!(error.kind(), Stage::Io);
        assert_eq!(error.file_path(), "gone.ttf");
        assert_eq!(error.context(), "Failed to read font gone.ttf: No such file or directory");
    }
}

#[test]
fn bytes_that_are_no_font_fail_at_the_read_stage() {
    let fonts = || vec![file("junk.bin", b"not a font at all".to_vec()), missing("gone.ttf")];
    let checks: Vec<CoordinateError> = vec![
        units_per_em(fonts()).unwrap_err(),
        weight_classes(fonts()).unwrap_err(),
        coverage(fonts(), 128).unwrap_err(),
        outline_formats(fonts()).unwrap_err(),
        glyph_command_counts(fonts()).unwrap_err(),
        command_breakdown(fonts()).unwrap_err(),
        outline_coordinates(fonts()).unwrap_err(),
    ];
    let cause = skrifa::FontRef::new(b"not a font at all").err().unwrap().to_string();
    for error in checks {
        assert_eq!(error.kind(), Stage::Read);
        assert_eq!(error.file_path(), "junk.bin");
        assert_eq!(error.context(), format!("Failed to parse font junk.bin: {}", cause));
    }
}

#[test]
fn a_glyph_the_engine_rejects_fails_the_batch_at_the_draw_stage() {
    let fonts = || {
        vec![file("rect.ttf", rectangle_font()), file("broken.ttf", broken_font()), missing("gone.ttf")]
    };
    let checks: Vec<CoordinateError> = vec![
        glyph_command_counts(fonts()).unwrap_err(),
        command_breakdown(fonts()).unwrap_err(),
        outline_coordinates(fonts()).unwrap_err(),
    ];
    let cause = skrifa::outline::DrawError::Malformed.to_string();
    for error in checks {
        assert_eq!(error.kind(), Stage::Draw);
        assert_eq!(error.file_path(), "broken.ttf");
        assert_eq!(error.context(), format!("Failed to extract outlines from broken.ttf: {}", cause));
    }
    let error = collect_points_from_font(&file("broken.ttf", broken_font())).unwrap_err();
    assert_eq!(error.kind(), Stage::Draw);
}

#[test]
fn operations_that_draw_nothing_pass_over_a_glyph_the_engine_rejects() {
    let fonts = || vec![file("broken.ttf", broken_font()), missing("gone.ttf")];
    assert_eq!(units_per_em(vec![file("broken.ttf", broken_font())]).unwrap(), vec![1000]);
    assert_eq!(coverage(vec![file("broken.ttf", broken_font())], 128).unwrap(), vec![vec![65, 66]]);
    assert_eq!(outline_formats(fonts()).unwrap_err().kind(), Stage::Io);
    assert_eq!(weight_classes(fonts()).unwrap_err().file_path(), "gone.ttf");
}

#[test]
fn open_font_classifies_each_file() {
    assert!(open_font(&file("rect.ttf", rectangle_font())).is_ok());
    assert_eq!(open_font(&missing("gone.ttf")).err().map(|e| e.kind()), Some(Stage::Io));
    assert_eq!(open_font(&file("empty", Vec::new())).err().map(|e| e.kind()), Some(Stage::Read));
}

#[test]
fn a_draw_error_names_the_stage_and_the_file() {
    let error = CoordinateError::Draw("bad.ttf".to_string(), skrifa::outline::DrawError::NoSources);
    assert_eq!(error.kind(), Stage::Draw);
    assert_eq!(error.file_path(), "bad.ttf");
    let cause = skrifa::outline::DrawError::NoSources.to_string();
    assert_eq!(error.context(), format!("Failed to extract outlines from bad.ttf: {}", cause));
}

#[test]
fn extraction_twice_gives_the_same_result() {
    let fonts = || vec![file("latin.ttf", latin_font()), file("rect.ttf", rectangle_font())];
    assert_eq!(outline_coordinates(fonts()).unwrap(), outline_coordinates(fonts()).unwrap());
    assert_eq!(glyph_command_counts(fonts()).unwrap(), glyph_command_counts(fonts()).unwrap());
    assert_eq!(command_breakdown(fonts()).unwrap(), command_breakdown(fonts()).unwrap());
    assert_eq!(coverage(fonts(), 128).unwrap(), coverage(fonts(), 128).unwrap());
    assert_eq!(weight_classes(fonts()).unwrap(), weight_classes(fonts()).unwrap());
}
