//! Extraction from glyph outlines: design-unit points, per-glyph command
//! counts, the command breakdown of a batch, and outline storage formats.

use crate::engine::{
    curve_command_of, draw_error_words, draw_outline, element_command, font_drawings,
    glyph_drawing, head_units_per_em, outline_glyphs, outline_storage, storage_format,
    stored_units_per_em, straight_command_of, OutlineStorage,
};
use crate::error::{
    all_load, first_load_failure, is_load_error, open_font, CoordinateError, FontFile, Stage,
};
use crate::metrics::{resolve_scaling_units_per_em, scaling_units_per_em};
use crate::pens::{
    command_points, kind_count, kind_of_slot, lemma_kind_counts_partition, saturate_u32, saturate_u64, CommandBreakdownPen, CommandCountPen,
    CommandKind, DrawCommand, OutlinePoint, PointCollector,
};
use skrifa::outline::pen::PathElement;
use skrifa::outline::{DrawError, OutlineGlyph};
use vstd::prelude::*;

verus! {

/// Whether the engine draws every glyph of a loaded font.
pub open spec fn font_draws(file: FontFile) -> bool {
    forall|g: int|
        0 <= g < font_drawings(file.data()).len() ==> (#[trigger] font_drawings(
            file.data(),
        )[g]) is Ok
}

/// Whether `g` is the first glyph of a loaded font that the engine rejects.
pub open spec fn first_rejected_glyph(file: FontFile, g: int) -> bool {
    &&& 0 <= g < font_drawings(file.data()).len()
    &&& font_drawings(file.data())[g] is Err
    &&& forall|t: int| 0 <= t < g ==> (#[trigger] font_drawings(file.data())[t]) is Ok
}

/// Whether `error` is the one owed for `file` where its outlines cannot be
/// had: the load error where the file does not load, otherwise a draw error
/// with the engine's words for the first glyph it rejects.
pub open spec fn reports_outline_failure(error: CoordinateError, file: FontFile) -> bool {
    if file.load_failure() is Some {
        error.reports(file, file.load_failure()->Some_0, file.load_cause())
    } else {
        exists|g: int| #[trigger]
            first_rejected_glyph(file, g) && error.reports(
                file,
                Stage::Draw,
                font_drawings(file.data())[g]->Err_0,
            )
    }
}

/// The stage at which extracting the outlines of this file fails, if it does:
/// loading first, then drawing.
pub open spec fn outline_failure(file: FontFile) -> Option<Stage> {
    if file.load_failure() is Some {
        file.load_failure()
    } else if !font_draws(file) {
        Some(Stage::Draw)
    } else {
        None
    }
}

/// The outlines of a font's glyphs, in glyph-index order.
pub open spec fn font_glyphs(file: FontFile) -> Seq<Seq<DrawCommand>> {
    Seq::new(
        font_drawings(file.data()).len(),
        |g: int| font_drawings(file.data())[g]->Ok_0,
    )
}

/// The outlines of all glyphs of a batch: file order, then glyph-index order.
pub open spec fn batch_glyphs(files: Seq<FontFile>) -> Seq<Seq<DrawCommand>>
    decreases files.len(),
{
    if files.len() == 0 {
        seq![]
    } else {
        batch_glyphs(files.drop_last()) + font_glyphs(files.last())
    }
}

/// The points of a run of glyphs, glyph by glyph and command by command.
pub open spec fn glyph_points(glyphs: Seq<Seq<DrawCommand>>, units_per_em: u16) -> Seq<
    OutlinePoint,
>
    decreases glyphs.len(),
{
    if glyphs.len() == 0 {
        seq![]
    } else {
        glyph_points(glyphs.drop_last(), units_per_em) + command_points(
            glyphs.last(),
            units_per_em,
        )
    }
}

/// The points of one font, each tagged with the units per em to scale by.
pub open spec fn font_points(file: FontFile) -> Seq<OutlinePoint> {
    glyph_points(font_glyphs(file), scaling_units_per_em(stored_units_per_em(file.data())))
}

/// The points of a batch: file order, then glyph order, then command order.
pub open spec fn batch_points(files: Seq<FontFile>) -> Seq<OutlinePoint>
    decreases files.len(),
{
    if files.len() == 0 {
        seq![]
    } else {
        batch_points(files.drop_last()) + font_points(files.last())
    }
}

/// The saturating command count of each glyph.
pub open spec fn glyph_counts(glyphs: Seq<Seq<DrawCommand>>) -> Seq<u32> {
    glyphs.map_values(|commands: Seq<DrawCommand>| saturate_u32(commands.len() as int))
}

/// How many commands of kind `kind` a run of glyphs holds.
pub open spec fn kind_total(glyphs: Seq<Seq<DrawCommand>>, kind: CommandKind) -> nat
    decreases glyphs.len(),
{
    if glyphs.len() == 0 {
        0
    } else {
        kind_total(glyphs.drop_last(), kind) + kind_count(glyphs.last(), kind)
    }
}

/// How many commands a run of glyphs holds.
pub open spec fn command_total(glyphs: Seq<Seq<DrawCommand>>) -> nat
    decreases glyphs.len(),
{
    if glyphs.len() == 0 {
        0
    } else {
        command_total(glyphs.drop_last()) + glyphs.last().len()
    }
}

/// How many outline glyphs the fonts of a batch hold together.
pub open spec fn glyph_total(files: Seq<FontFile>) -> nat
    decreases files.len(),
{
    if files.len() == 0 {
        0
    } else {
        glyph_total(files.drop_last()) + font_drawings(files.last().data()).len()
    }
}

/// The sum of a list of counts.
pub open spec fn count_sum(counts: Seq<u32>) -> nat
    decreases counts.len(),
{
    if counts.len() == 0 {
        0
    } else {
        count_sum(counts.drop_last()) + counts.last() as nat
    }
}

/// Whether `k` is the first file of `files` whose outlines cannot be had.
pub open spec fn first_outline_failure(files: Seq<FontFile>, k: int) -> bool {
    &&& 0 <= k < files.len()
    &&& outline_failure(files[k]) is Some
    &&& forall|j: int| 0 <= j < k ==> outline_failure(#[trigger] files[j]) is None
}

/// Whether every file of `files` loads and draws.
pub open spec fn all_draw(files: Seq<FontFile>) -> bool {
    forall|j: int| 0 <= j < files.len() ==> outline_failure(#[trigger] files[j]) is None
}

/// Whether `error` is the one owed for a batch in which some file's outlines
/// cannot be had: it reports the first such file.
pub open spec fn is_outline_error(files: Seq<FontFile>, error: CoordinateError) -> bool {
    exists|k: int| #[trigger]
        first_outline_failure(files, k) && reports_outline_failure(error, files[k])
}

/// The label of an outline storage format.
pub open spec fn storage_label(storage: OutlineStorage) -> Seq<char> {
    match storage {
        OutlineStorage::Glyf => "TrueType"@,
        OutlineStorage::Cff => "CFF"@,
        OutlineStorage::Cff2 => "CFF2"@,
        OutlineStorage::Varc => "Unknown"@,
        OutlineStorage::Absent => "Unknown"@,
    }
}

proof fn lemma_batch_glyphs_step(files: Seq<FontFile>, i: int)
    requires
        0 <= i < files.len(),
    ensures
        batch_glyphs(files.take(i + 1)) == batch_glyphs(files.take(i)) + font_glyphs(files[i]),
        batch_points(files.take(i + 1)) == batch_points(files.take(i)) + font_points(files[i]),
{
    assert(files.take(i + 1).drop_last() =~= files.take(i));
}

proof fn lemma_glyph_points_step(glyphs: Seq<Seq<DrawCommand>>, g: int, units: u16)
    requires
        0 <= g < glyphs.len(),
    ensures
        glyph_points(glyphs.take(g + 1), units) == glyph_points(glyphs.take(g), units)
            + command_points(glyphs[g], units),
{
    assert(glyphs.take(g + 1).drop_last() =~= glyphs.take(g));
}

/// Splitting a run of glyphs splits its kind totals.
pub proof fn lemma_kind_total_concat(
    front: Seq<Seq<DrawCommand>>,
    back: Seq<Seq<DrawCommand>>,
    kind: CommandKind,
)
    ensures
        kind_total(front + back, kind) == kind_total(front, kind) + kind_total(back, kind),
    decreases back.len(),
{
    if back.len() == 0 {
        assert(front + back =~= front);
    } else {
        lemma_kind_total_concat(front, back.drop_last(), kind);
        assert((front + back).drop_last() =~= front + back.drop_last());
    }
}

/// Order preservation for the flat results: the glyphs, counts and points of
/// a batch made of two batches are those of the first followed by those of
/// the second, so moving a file moves its segment and changes nothing else.
pub proof fn lemma_batch_concat(front: Seq<FontFile>, back: Seq<FontFile>)
    ensures
        batch_glyphs(front + back) == batch_glyphs(front) + batch_glyphs(back),
        batch_points(front + back) == batch_points(front) + batch_points(back),
        glyph_counts(batch_glyphs(front + back)) == glyph_counts(batch_glyphs(front))
            + glyph_counts(batch_glyphs(back)),
    decreases back.len(),
{
    if back.len() == 0 {
        assert(front + back =~= front);
        assert(batch_glyphs(front) + batch_glyphs(back) =~= batch_glyphs(front));
        assert(batch_points(front) + batch_points(back) =~= batch_points(front));
    } else {
        lemma_batch_concat(front, back.drop_last());
        assert((front + back).drop_last() =~= front + back.drop_last());
        assert((front + back).last() == back.last());
        assert(batch_glyphs(front + back) =~= batch_glyphs(front) + batch_glyphs(back));
        assert(batch_points(front + back) =~= batch_points(front) + batch_points(back));
    }
    assert(glyph_counts(batch_glyphs(front) + batch_glyphs(back)) =~= glyph_counts(
        batch_glyphs(front),
    ) + glyph_counts(batch_glyphs(back)));
}

/// A batch has one glyph entry, and so one count, for every glyph of every
/// font.
pub proof fn lemma_one_count_per_glyph(files: Seq<FontFile>)
    ensures
        batch_glyphs(files).len() == glyph_total(files),
        glyph_counts(batch_glyphs(files)).len() == glyph_total(files),
    decreases files.len(),
{
    if files.len() > 0 {
        lemma_one_count_per_glyph(files.drop_last());
    }
}

/// At most one file is the first whose outlines cannot be had, so the error
/// of a failed batch is owed to one file only.
pub proof fn lemma_first_outline_failure_unique(files: Seq<FontFile>, a: int, b: int)
    requires
        first_outline_failure(files, a),
        first_outline_failure(files, b),
    ensures
        a == b,
{
    if a < b {
        assert(outline_failure(files[a]) is None);
    } else if b < a {
        assert(outline_failure(files[b]) is None);
    }
}

/// At most one glyph is the first that the engine rejects, so the cause of a
/// draw error is owed to one glyph only.
pub proof fn lemma_first_rejected_glyph_unique(file: FontFile, a: int, b: int)
    requires
        first_rejected_glyph(file, a),
        first_rejected_glyph(file, b),
    ensures
        a == b,
{
    if a < b {
        assert(font_drawings(file.data())[a] is Ok);
    } else if b < a {
        assert(font_drawings(file.data())[b] is Ok);
    }
}

/// The five kind totals of a run of glyphs add up to its command total.
pub proof fn lemma_kind_totals_partition(glyphs: Seq<Seq<DrawCommand>>)
    ensures
        kind_total(glyphs, CommandKind::MoveTo) + kind_total(glyphs, CommandKind::LineTo)
            + kind_total(glyphs, CommandKind::QuadTo) + kind_total(glyphs, CommandKind::CurveTo)
            + kind_total(glyphs, CommandKind::Close) == command_total(glyphs),
    decreases glyphs.len(),
{
    if glyphs.len() > 0 {
        lemma_kind_totals_partition(glyphs.drop_last());
        lemma_kind_counts_partition(glyphs.last());
    }
}

/// Where no glyph has more commands than a `u32` holds, the per-glyph counts
/// add up to the command total.
pub proof fn lemma_counts_sum(glyphs: Seq<Seq<DrawCommand>>)
    requires
        forall|g: int| 0 <= g < glyphs.len() ==> (#[trigger] glyphs[g]).len() <= u32::MAX,
    ensures
        count_sum(glyph_counts(glyphs)) == command_total(glyphs),
    decreases glyphs.len(),
{
    if glyphs.len() > 0 {
        lemma_counts_sum(glyphs.drop_last());
        assert(glyph_counts(glyphs).drop_last() =~= glyph_counts(glyphs.drop_last()));
    }
}

/// The breakdown agrees with the counts: where no counter saturates, the five
/// totals that `command_breakdown` gives for a batch add up to the sum of the
/// counts that `glyph_command_counts` gives for it.
pub proof fn lemma_breakdown_matches_counts(files: Seq<FontFile>, totals: Seq<u64>, counts: Seq<u32>)
    requires
        totals.len() == 5,
        forall|k: int|
            0 <= k < 5 ==> #[trigger] totals[k] == saturate_u64(
                kind_total(batch_glyphs(files), kind_of_slot(k)) as int,
            ),
        counts == glyph_counts(batch_glyphs(files)),
        command_total(batch_glyphs(files)) < u64::MAX,
        forall|g: int|
            0 <= g < batch_glyphs(files).len() ==> (#[trigger] batch_glyphs(files)[g]).len()
                <= u32::MAX,
    ensures
        counts.len() == batch_glyphs(files).len(),
        totals[0] + totals[1] + totals[2] + totals[3] + totals[4] == count_sum(counts),
{
    let glyphs = batch_glyphs(files);
    lemma_kind_totals_partition(glyphs);
    lemma_counts_sum(glyphs);
    assert(totals[0] == saturate_u64(kind_total(glyphs, kind_of_slot(0)) as int));
    assert(totals[1] == saturate_u64(kind_total(glyphs, kind_of_slot(1)) as int));
    assert(totals[2] == saturate_u64(kind_total(glyphs, kind_of_slot(2)) as int));
    assert(totals[3] == saturate_u64(kind_total(glyphs, kind_of_slot(3)) as int));
    assert(totals[4] == saturate_u64(kind_total(glyphs, kind_of_slot(4)) as int));
}

/// Draws one glyph and turns the path into drawing commands.
fn draw_commands(glyph: &OutlineGlyph) -> (drawn: Result<Vec<DrawCommand>, DrawError>)
    ensures
        drawn is Ok <==> glyph_drawing(*glyph) is Ok,
        drawn is Ok ==> drawn->Ok_0@ == glyph_drawing(*glyph)->Ok_0,
        drawn is Err ==> draw_error_words(drawn->Err_0) == glyph_drawing(*glyph)->Err_0,
{
    let path = match draw_outline(glyph) {
        Ok(path) => path,
        Err(error) => {
            return Err(error);
        },
    };
    let mut commands: Vec<DrawCommand> = Vec::with_capacity(path.len());
    let mut i: usize = 0;
    while i < path.len()
        invariant
            i <= path.len(),
            commands@.len() == i,
            forall|j: int| 0 <= j < i ==> commands@[j] == element_command(#[trigger] path@[j]),
        decreases path.len() - i,
    {
        let command = match straight_command_of(&path[i]) {
            Some(command) => command,
            None => curve_command_of(&path[i]).unwrap(),
        };
        commands.push(command);
        i += 1;
    }
    assert(commands@ =~= path@.map_values(|element: PathElement| element_command(element)));
    Ok(commands)
}

/// The label of an outline storage format: `TrueType`, `CFF`, `CFF2` or
/// `Unknown`.
pub fn format_label(storage: OutlineStorage) -> (label: &'static str)
    ensures
        label@ == storage_label(storage),
{
    match storage {
        OutlineStorage::Glyf => "TrueType",
        OutlineStorage::Cff => "CFF",
        OutlineStorage::Cff2 => "CFF2",
        OutlineStorage::Varc => "Unknown",
        OutlineStorage::Absent => "Unknown",
    }
}

/// The points of one font: every coordinate pair of every glyph, in glyph
/// order then command order, tagged with the font's positive units per em.
pub fn collect_points_from_font(file: &FontFile) -> (result: Result<
    Vec<OutlinePoint>,
    CoordinateError,
>)
    ensures
        result is Ok <==> outline_failure(*file) is None,
        result is Ok ==> result->Ok_0@ == font_points(*file),
        result is Err ==> reports_outline_failure(result->Err_0, *file),
{
    let font = match open_font(file) {
        Ok(font) => font,
        Err(error) => {
            return Err(error);
        },
    };
    let units: u16 = resolve_scaling_units_per_em(head_units_per_em(&font));
    let glyphs = outline_glyphs(&font);
    let mut collector = PointCollector::new(units);
    let mut g: usize = 0;
    assert(font_glyphs(*file).take(0) =~= Seq::<Seq<DrawCommand>>::empty());
    while g < glyphs.len()
        invariant
            g <= glyphs.len(),
            file.load_failure() is None,
            glyphs@.len() == font_drawings(file.data()).len(),
            forall|t: int|
                0 <= t < glyphs@.len() ==> glyph_drawing(#[trigger] glyphs@[t]) == font_drawings(
                    file.data(),
                )[t],
            forall|t: int| 0 <= t < g ==> (#[trigger] font_drawings(file.data())[t]) is Ok,
            collector.units_per_em() == units,
            collector@ == glyph_points(font_glyphs(*file).take(g as int), units),
        decreases glyphs.len() - g,
    {
        let commands = match draw_commands(&glyphs[g]) {
            Ok(commands) => commands,
            Err(error) => {
                assert(first_rejected_glyph(*file, g as int));
                return Err(CoordinateError::Draw(file.path.clone(), error));
            },
        };
        collector.record_all(&commands);
        proof {
            lemma_glyph_points_step(font_glyphs(*file), g as int, units);
        }
        g += 1;
    }
    assert(font_glyphs(*file).take(g as int) =~= font_glyphs(*file));
    Ok(collector.into_points())
}

/// The outline points of a batch: the points of each font in the order given,
/// one font after another. Fails with the error of the first file that cannot
/// be loaded or drawn, and then gives no points at all.
pub fn outline_coordinates(fonts: Vec<FontFile>) -> (result: Result<
    Vec<OutlinePoint>,
    CoordinateError,
>)
    ensures
        match result {
            Ok(points) => all_draw(fonts@) && points@ == batch_points(fonts@),
            Err(error) => is_outline_error(fonts@, error),
        },
{
    let mut accumulated: Vec<OutlinePoint> = Vec::new();
    let mut i: usize = 0;
    assert(fonts@.take(0) =~= Seq::<FontFile>::empty());
    while i < fonts.len()
        invariant
            i <= fonts.len(),
            forall|j: int| 0 <= j < i ==> outline_failure(#[trigger] fonts@[j]) is None,
            accumulated@ == batch_points(fonts@.take(i as int)),
        decreases fonts.len() - i,
    {
        let mut per_font = match collect_points_from_font(&fonts[i]) {
            Ok(points) => points,
            Err(error) => {
                assert(first_outline_failure(fonts@, i as int));
                return Err(error);
            },
        };
        accumulated.append(&mut per_font);
        proof {
            lemma_batch_glyphs_step(fonts@, i as int);
        }
        i += 1;
    }
    assert(fonts@.take(i as int) =~= fonts@);
    Ok(accumulated)
}

/// The command count of every glyph of a batch, file order then glyph-index
/// order, each count stopping at the largest `u32`. Fails with the error of
/// the first file that cannot be loaded or drawn.
pub fn glyph_command_counts(fonts: Vec<FontFile>) -> (result: Result<Vec<u32>, CoordinateError>)
    ensures
        match result {
            Ok(counts) => all_draw(fonts@) && counts@ == glyph_counts(batch_glyphs(fonts@)),
            Err(error) => is_outline_error(fonts@, error),
        },
{
    let mut counts: Vec<u32> = Vec::new();
    let mut i: usize = 0;
    assert(fonts@.take(0) =~= Seq::<FontFile>::empty());
    assert(glyph_counts(batch_glyphs(fonts@.take(0))) =~= Seq::<u32>::empty());
    while i < fonts.len()
        invariant
            i <= fonts.len(),
            forall|j: int| 0 <= j < i ==> outline_failure(#[trigger] fonts@[j]) is None,
            counts@ == glyph_counts(batch_glyphs(fonts@.take(i as int))),
        decreases fonts.len() - i,
    {
        let file = &fonts[i];
        let font = match open_font(file) {
            Ok(font) => font,
            Err(error) => {
                assert(first_outline_failure(fonts@, i as int));
                return Err(error);
            },
        };
        let glyphs = outline_glyphs(&font);
        let ghost before = batch_glyphs(fonts@.take(i as int));
        let mut g: usize = 0;
        assert(before + font_glyphs(*file).take(0) =~= before);
        while g < glyphs.len()
            invariant
                g <= glyphs.len(),
                i < fonts.len(),
                *file == fonts@[i as int],
                file.load_failure() is None,
                glyphs@.len() == font_drawings(file.data()).len(),
                forall|t: int|
                    0 <= t < glyphs@.len() ==> glyph_drawing(#[trigger] glyphs@[t])
                        == font_drawings(file.data())[t],
                forall|t: int| 0 <= t < g ==> (#[trigger] font_drawings(file.data())[t]) is Ok,
                forall|j: int| 0 <= j < i ==> outline_failure(#[trigger] fonts@[j]) is None,
                counts@ == glyph_counts(before + font_glyphs(*file).take(g as int)),
            decreases glyphs.len() - g,
        {
            let commands = match draw_commands(&glyphs[g]) {
                Ok(commands) => commands,
                Err(error) => {
                    assert(first_rejected_glyph(*file, g as int));
                    assert(first_outline_failure(fonts@, i as int));
                    return Err(CoordinateError::Draw(file.path.clone(), error));
                },
            };
            let mut pen = CommandCountPen::new();
            pen.record_all(&commands);
            counts.push(pen.into_count());
            proof {
                let run = font_glyphs(*file);
                assert(run.take(g + 1) =~= run.take(g as int).push(run[g as int]));
                assert(before + run.take(g + 1) =~= (before + run.take(g as int)).push(
                    run[g as int],
                ));
                assert(counts@ =~= glyph_counts(before + run.take(g + 1)));
            }
            g += 1;
        }
        proof {
            assert(font_glyphs(*file).take(g as int) =~= font_glyphs(*file));
            lemma_batch_glyphs_step(fonts@, i as int);
        }
        i += 1;
    }
    assert(fonts@.take(i as int) =~= fonts@);
    Ok(counts)
}

/// The label of each font's outline storage format, in the order given:
/// `TrueType`, `CFF`, `CFF2`, or `Unknown` for any other storage or none.
/// Nothing is drawn. Fails with the error of the first file that cannot be
/// loaded.
pub fn outline_formats(fonts: Vec<FontFile>) -> (result: Result<Vec<String>, CoordinateError>)
    ensures
        match result {
            Ok(labels) => {
                &&& all_load(fonts@)
                &&& labels@.len() == fonts@.len()
                &&& forall|i: int|
                    0 <= i < fonts@.len() ==> labels@[i]@ == storage_label(
                        outline_storage((#[trigger] fonts@[i]).data()),
                    )
            },
            Err(error) => is_load_error(fonts@, error),
        },
{
    let mut labels: Vec<String> = Vec::with_capacity(fonts.len());
    let mut i: usize = 0;
    while i < fonts.len()
        invariant
            i <= fonts.len(),
            labels@.len() == i,
            forall|j: int| 0 <= j < i ==> (#[trigger] fonts@[j]).load_failure() is None,
            forall|j: int|
                0 <= j < i ==> labels@[j]@ == storage_label(
                    outline_storage((#[trigger] fonts@[j]).data()),
                ),
        decreases fonts.len() - i,
    {
        let font = match open_font(&fonts[i]) {
            Ok(font) => font,
            Err(error) => {
                assert(first_load_failure(fonts@, i as int));
                return Err(error);
            },
        };
        let label = format_label(storage_format(&font));
        labels.push(label.to_owned());
        i += 1;
    }
    Ok(labels)
}

/// Adds the counters of one glyph to the running totals, slot by slot, each
/// sum stopping at the largest `u64`.
pub fn add_counts(totals: [u64; 5], counts: [u64; 5]) -> (sums: [u64; 5])
    ensures
        forall|k: int| 0 <= k < 5 ==> #[trigger] sums@[k] == saturate_u64(totals@[k] + counts@[k]),
{
    [
        totals[0].saturating_add(counts[0]),
        totals[1].saturating_add(counts[1]),
        totals[2].saturating_add(counts[2]),
        totals[3].saturating_add(counts[3]),
        totals[4].saturating_add(counts[4]),
    ]
}

/// The command breakdown of a batch: for each command kind the number of such
/// commands over every glyph of every font, and the number of glyphs, every
/// counter stopping at the largest `u64`. Fails with the error of the first
/// file that cannot be loaded or drawn.
pub fn command_breakdown(fonts: Vec<FontFile>) -> (result: Result<([u64; 5], u64), CoordinateError>)
    ensures
        match result {
            Ok((totals, glyph_count)) => {
                &&& all_draw(fonts@)
                &&& glyph_count == saturate_u64(batch_glyphs(fonts@).len() as int)
                &&& forall|k: int|
                    0 <= k < 5 ==> #[trigger] totals@[k] == saturate_u64(
                        kind_total(batch_glyphs(fonts@), kind_of_slot(k)) as int,
                    )
            },
            Err(error) => is_outline_error(fonts@, error),
        },
{
    let mut totals: [u64; 5] = [0, 0, 0, 0, 0];
    let mut glyph_count: u64 = 0;
    let mut i: usize = 0;
    assert(fonts@.take(0) =~= Seq::<FontFile>::empty());
    while i < fonts.len()
        invariant
            i <= fonts.len(),
            forall|j: int| 0 <= j < i ==> outline_failure(#[trigger] fonts@[j]) is None,
            glyph_count == saturate_u64(batch_glyphs(fonts@.take(i as int)).len() as int),
            forall|k: int|
                0 <= k < 5 ==> #[trigger] totals@[k] == saturate_u64(
                    kind_total(batch_glyphs(fonts@.take(i as int)), kind_of_slot(k)) as int,
                ),
        decreases fonts.len() - i,
    {
        let file = &fonts[i];
        let font = match open_font(file) {
            Ok(font) => font,
            Err(error) => {
                assert(first_outline_failure(fonts@, i as int));
                return Err(error);
            },
        };
        let glyphs = outline_glyphs(&font);
        let ghost before = batch_glyphs(fonts@.take(i as int));
        let mut g: usize = 0;
        assert(before + font_glyphs(*file).take(0) =~= before);
        while g < glyphs.len()
            invariant
                g <= glyphs.len(),
                i < fonts.len(),
                *file == fonts@[i as int],
                file.load_failure() is None,
                glyphs@.len() == font_drawings(file.data()).len(),
                forall|t: int|
                    0 <= t < glyphs@.len() ==> glyph_drawing(#[trigger] glyphs@[t])
                        == font_drawings(file.data())[t],
                forall|t: int| 0 <= t < g ==> (#[trigger] font_drawings(file.data())[t]) is Ok,
                forall|j: int| 0 <= j < i ==> outline_failure(#[trigger] fonts@[j]) is None,
                glyph_count == saturate_u64((before + font_glyphs(*file).take(g as int)).len() as int),
                forall|k: int|
                    0 <= k < 5 ==> #[trigger] totals@[k] == saturate_u64(
                        kind_total(before + font_glyphs(*file).take(g as int), kind_of_slot(k)) as int,
                    ),
            decreases glyphs.len() - g,
        {
            let commands = match draw_commands(&glyphs[g]) {
                Ok(commands) => commands,
                Err(error) => {
                    assert(first_rejected_glyph(*file, g as int));
                    assert(first_outline_failure(fonts@, i as int));
                    return Err(CoordinateError::Draw(file.path.clone(), error));
                },
            };
            let mut pen = CommandBreakdownPen::new();
            pen.record_all(&commands);
            let counts = pen.counts();
            let ghost earlier = totals@;
            totals = add_counts(totals, counts);
            glyph_count = glyph_count.saturating_add(1);
            proof {
                let run = font_glyphs(*file);
                let seen = before + run.take(g as int);
                assert(run.take(g + 1) =~= run.take(g as int).push(run[g as int]));
                assert(before + run.take(g + 1) =~= seen.push(run[g as int]));
                assert(seen.push(run[g as int]).drop_last() =~= seen);
                assert forall|k: int| 0 <= k < 5 implies #[trigger] totals@[k] == saturate_u64(
                    kind_total(before + run.take(g + 1), kind_of_slot(k)) as int,
                ) by {
                    assert(counts@[k] == saturate_u64(
                        kind_count(commands@, kind_of_slot(k)) as int,
                    ));
                    assert(earlier[k] == saturate_u64(kind_total(seen, kind_of_slot(k)) as int));
                }
            }
            g += 1;
        }
        proof {
            assert(font_glyphs(*file).take(g as int) =~= font_glyphs(*file));
            lemma_batch_glyphs_step(fonts@, i as int);
        }
        i += 1;
    }
    assert(fonts@.take(i as int) =~= fonts@);
    Ok((totals, glyph_count))
}

} // verus!
