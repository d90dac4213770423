//! The page layout engine: tiles barcodes onto pages of a fixed size, page
//! after page, and hands each page out as a PNG file.

use vstd::prelude::*;
use crate::generator::spec_barcodes;
use crate::generator::BarcodeView;
use crate::generator::GeneratedBarcode;
use crate::grid::auto_margin;
use crate::grid::max_barcodes;
use crate::grid::plan_grid;
use crate::grid::spec_auto_margin;
use crate::grid::spec_grid;
use crate::grid::spec_max_barcodes;
use crate::grid::PageGrid;
use crate::layout::Layout;
use crate::page::compose_page;
use crate::page::encode_page;
use crate::page::spec_encoded_page;
use crate::page::spec_page;
use crate::paper::get_paper_dimensions_px;
use crate::paper::spec_paper_dimensions_px;
use crate::paper::Paper;
use crate::raster::fits_memory;
use crate::raster::Raster;
use crate::raster::RgbWrapper;

verus! {

/// Why a page could not be laid out or written.
#[derive(Clone, Copy, Debug, PartialEq, Eq, Structural)]
pub enum LayoutError {
    /// There is no barcode to lay out.
    EmptyBatch,
    /// The cursor lies beyond the last barcode.
    CursorOutOfRange,
    /// The first barcode, which sets the size of the cells, has no pixels.
    EmptyBarcode,
    /// Not even one row of cells fits between the vertical margins.
    BarcodeExceedsPage,
    /// The PNG encoder refused the page.
    Encoding,
}

/// The mathematical content of one generated page.
pub struct ResultView {
    pub page: Seq<u8>,
    pub used_barcodes: Seq<BarcodeView>,
    pub has_more: bool,
    pub cursor: nat,
}

/// One generated page: the PNG file, the barcodes on it, the number of
/// barcodes placed so far over all pages, and whether any remain.
#[derive(Debug)]
pub struct GenerationResult {
    pub page: Vec<u8>,
    pub used_barcodes: Vec<GeneratedBarcode>,
    pub has_more: bool,
    pub cursor: usize,
}

impl View for GenerationResult {
    type V = ResultView;

    open spec fn view(&self) -> ResultView {
        ResultView {
            page: self.page@,
            used_barcodes: spec_barcodes(self.used_barcodes@),
            has_more: self.has_more,
            cursor: self.cursor as nat,
        }
    }
}

/// The mathematical content of a list of generated pages.
pub open spec fn spec_results(results: Seq<GenerationResult>) -> Seq<ResultView> {
    results.map_values(|result: GenerationResult| result@)
}

/// The PNG files of an export, page by page.
#[derive(Debug)]
pub struct ExportResult {
    pub pages: Vec<Vec<u8>>,
}

/// The grid of a batch on a kind of paper: the first barcode sets the size
/// of the cells.
pub open spec fn spec_batch_grid(barcodes: Seq<BarcodeView>, paper: Paper, auto_margin: bool) -> PageGrid
    recommends
        barcodes.len() > 0,
{
    spec_grid(
        spec_paper_dimensions_px(paper).0,
        spec_paper_dimensions_px(paper).1,
        barcodes[0].buffer.width as u32,
        barcodes[0].buffer.height as u32,
        auto_margin,
    )
}

/// Why no page can be laid out from `cursor` on, if that is so.
pub open spec fn spec_structure_error(
    barcodes: Seq<BarcodeView>,
    cursor: nat,
    paper: Paper,
    auto_margin: bool,
) -> Option<LayoutError> {
    if barcodes.len() == 0 {
        Some(LayoutError::EmptyBatch)
    } else if cursor > barcodes.len() {
        Some(LayoutError::CursorOutOfRange)
    } else if barcodes[0].buffer.width == 0 || barcodes[0].buffer.height == 0 {
        Some(LayoutError::EmptyBarcode)
    } else if spec_batch_grid(barcodes, paper, auto_margin).max_per_page == 0 {
        Some(LayoutError::BarcodeExceedsPage)
    } else {
        None
    }
}

/// Number of barcodes that go on the page that starts at `cursor`: those
/// that remain, but no more than fit.
pub open spec fn spec_placed(total: nat, cursor: nat, max_per_page: nat) -> nat {
    if total - cursor <= max_per_page {
        (total - cursor) as nat
    } else {
        max_per_page
    }
}

/// The page that starts at `cursor`, as pixels.
pub open spec fn spec_batch_page(
    barcodes: Seq<BarcodeView>,
    cursor: nat,
    paper: Paper,
    auto_margin: bool,
    grid_borders: bool,
) -> Raster<RgbWrapper> {
    let grid = spec_batch_grid(barcodes, paper, auto_margin);
    spec_page(
        barcodes,
        cursor,
        grid,
        grid_borders,
        spec_placed(barcodes.len(), cursor, grid.max_per_page as nat),
    )
}

/// What generating the page that starts at `cursor` gives.
pub open spec fn spec_export_image(
    barcodes: Seq<BarcodeView>,
    cursor: nat,
    paper: Paper,
    auto_margin: bool,
    grid_borders: bool,
) -> Result<ResultView, LayoutError> {
    match spec_structure_error(barcodes, cursor, paper, auto_margin) {
        Some(error) => Err(error),
        None => {
            let grid = spec_batch_grid(barcodes, paper, auto_margin);
            let placed = spec_placed(barcodes.len(), cursor, grid.max_per_page as nat);
            match spec_encoded_page(
                spec_batch_page(barcodes, cursor, paper, auto_margin, grid_borders),
            ) {
                None => Err(LayoutError::Encoding),
                Some(png) => Ok(
                    ResultView {
                        page: png,
                        used_barcodes: barcodes.subrange(cursor as int, (cursor + placed) as int),
                        has_more: cursor + placed < barcodes.len(),
                        cursor: cursor + placed,
                    },
                ),
            }
        },
    }
}

/// Number of pages that `total` barcodes take at `max_per_page` a page.
pub open spec fn spec_page_count(total: nat, max_per_page: nat) -> nat
    recommends
        max_per_page > 0,
{
    ((total + max_per_page - 1) / max_per_page as int) as nat
}

/// Whether the PNG encoder refuses one of the pages of a full export.
pub open spec fn spec_some_page_refused(
    barcodes: Seq<BarcodeView>,
    paper: Paper,
    auto_margin: bool,
    grid_borders: bool,
) -> bool {
    let max_per_page = spec_batch_grid(barcodes, paper, auto_margin).max_per_page as nat;
    exists|k: nat|
        k < spec_page_count(barcodes.len(), max_per_page) && #[trigger] spec_export_image(
            barcodes,
            k * max_per_page,
            paper,
            auto_margin,
            grid_borders,
        ) is Err
}

/// What a full export gives: page `k` is the page that starts at cursor
/// `k * max_per_page`, and there are as many pages as the barcodes take.
/// A page that fails makes the whole export fail.
pub open spec fn spec_full_export(
    barcodes: Seq<BarcodeView>,
    paper: Paper,
    auto_margin: bool,
    grid_borders: bool,
) -> Result<Seq<ResultView>, LayoutError> {
    match spec_structure_error(barcodes, 0, paper, auto_margin) {
        Some(error) => Err(error),
        None => {
            let max_per_page = spec_batch_grid(barcodes, paper, auto_margin).max_per_page as nat;
            if spec_some_page_refused(barcodes, paper, auto_margin, grid_borders) {
                Err(LayoutError::Encoding)
            } else {
                Ok(
                    Seq::new(
                        spec_page_count(barcodes.len(), max_per_page),
                        |k: int|
                            spec_export_image(
                                barcodes,
                                (k as nat) * max_per_page,
                                paper,
                                auto_margin,
                                grid_borders,
                            )->Ok_0,
                    ),
                )
            }
        },
    }
}

/// The page that starts at the `k`-th multiple of the page capacity is the
/// last one exactly when the barcodes end on it.
pub proof fn lemma_page_count(total: nat, max_per_page: nat, k: nat)
    requires
        max_per_page > 0,
        k * max_per_page < total,
    ensures
        k < spec_page_count(total, max_per_page),
        total <= (k + 1) * max_per_page ==> spec_page_count(total, max_per_page) == k + 1,
{
    let count = (total + max_per_page - 1) / max_per_page as int;
    vstd::arithmetic::div_mod::lemma_fundamental_div_mod(
        total + max_per_page - 1,
        max_per_page as int,
    );
    let rest = (total + max_per_page - 1) % max_per_page as int;
    assert(k < count) by (nonlinear_arith)
        requires
            total + max_per_page - 1 == max_per_page * count + rest,
            0 <= rest < max_per_page,
            k * max_per_page < total,
            max_per_page > 0,
    ;
    if total <= (k + 1) * max_per_page {
        assert(count <= k + 1) by (nonlinear_arith)
            requires
                total + max_per_page - 1 == max_per_page * count + rest,
                0 <= rest < max_per_page,
                total <= (k + 1) * max_per_page,
                max_per_page > 0,
        ;
    }
}

/// The pages before page `k` of an export hold `k` times the page capacity
/// of barcodes.
pub proof fn lemma_pages_before(total: nat, max_per_page: nat, k: nat)
    requires
        max_per_page > 0,
        k < spec_page_count(total, max_per_page),
    ensures
        k * max_per_page < total,
{
    let count = (total + max_per_page - 1) / max_per_page as int;
    vstd::arithmetic::div_mod::lemma_fundamental_div_mod(
        total + max_per_page - 1,
        max_per_page as int,
    );
    let rest = (total + max_per_page - 1) % max_per_page as int;
    assert(k * max_per_page < total) by (nonlinear_arith)
        requires
            total + max_per_page - 1 == max_per_page * count + rest,
            0 <= rest < max_per_page,
            k + 1 <= count,
            max_per_page > 0,
    ;
}

/// A batch that fits on one page gives, from cursor 0, a page that holds
/// all of it, with the cursor at its end and nothing remaining; and its
/// full export is that one page.
pub proof fn lemma_batch_on_one_page(
    barcodes: Seq<BarcodeView>,
    paper: Paper,
    auto_margin: bool,
    grid_borders: bool,
)
    requires
        barcodes.len() <= spec_batch_grid(barcodes, paper, auto_margin).max_per_page,
        spec_export_image(barcodes, 0, paper, auto_margin, grid_borders) is Ok,
    ensures
        !spec_export_image(barcodes, 0, paper, auto_margin, grid_borders)->Ok_0.has_more,
        spec_export_image(barcodes, 0, paper, auto_margin, grid_borders)->Ok_0.cursor
            == barcodes.len(),
        spec_export_image(barcodes, 0, paper, auto_margin, grid_borders)->Ok_0.used_barcodes
            == barcodes,
        spec_full_export(barcodes, paper, auto_margin, grid_borders) == Ok::<
            Seq<ResultView>,
            LayoutError,
        >(seq![spec_export_image(barcodes, 0, paper, auto_margin, grid_borders)->Ok_0]),
{
    let max = spec_batch_grid(barcodes, paper, auto_margin).max_per_page as nat;
    let first = spec_export_image(barcodes, 0, paper, auto_margin, grid_borders)->Ok_0;
    assert(first.used_barcodes =~= barcodes);
    assert(0 * max == 0) by (nonlinear_arith);
    assert(1 * max == max) by (nonlinear_arith);
    lemma_page_count(barcodes.len(), max, 0);
    assert forall|k: nat| k < spec_page_count(barcodes.len(), max) implies !(
    #[trigger] spec_export_image(barcodes, k * max, paper, auto_margin, grid_borders) is Err) by {
        assert(k == 0);
    }
    assert(!spec_some_page_refused(barcodes, paper, auto_margin, grid_borders));
    assert(spec_full_export(barcodes, paper, auto_margin, grid_borders)->Ok_0 =~= seq![first]);
}

/// The barcodes on the first `n` pages, in the order of the pages.
pub open spec fn spec_used_on_pages(pages: Seq<ResultView>, n: nat) -> Seq<BarcodeView>
    decreases n,
{
    if n == 0 {
        Seq::empty()
    } else {
        spec_used_on_pages(pages, (n - 1) as nat) + pages[n - 1].used_barcodes
    }
}

/// Where page `k` of an export ends: `max_per_page` barcodes after its
/// start, or at the last barcode.
pub open spec fn spec_page_end(total: nat, max_per_page: nat, k: nat) -> nat {
    if (k + 1) * max_per_page <= total {
        (k + 1) * max_per_page
    } else {
        total
    }
}

/// The pages of a full export are as many as the barcodes take; page `k`
/// holds the barcodes from `k * max_per_page` up to the end of the page, in
/// their order; only the last page has nothing remaining.
pub proof fn lemma_full_export_pages(
    barcodes: Seq<BarcodeView>,
    paper: Paper,
    auto_margin: bool,
    grid_borders: bool,
    k: nat,
)
    requires
        spec_full_export(barcodes, paper, auto_margin, grid_borders) is Ok,
        k < spec_full_export(barcodes, paper, auto_margin, grid_borders)->Ok_0.len(),
    ensures
        spec_batch_grid(barcodes, paper, auto_margin).max_per_page > 0,
        spec_full_export(barcodes, paper, auto_margin, grid_borders)->Ok_0.len()
            == spec_page_count(
            barcodes.len(),
            spec_batch_grid(barcodes, paper, auto_margin).max_per_page as nat,
        ),
        k * spec_batch_grid(barcodes, paper, auto_margin).max_per_page < barcodes.len(),
        spec_full_export(barcodes, paper, auto_margin, grid_borders)->Ok_0[k as int].used_barcodes
            == barcodes.subrange(
            k * spec_batch_grid(barcodes, paper, auto_margin).max_per_page,
            spec_page_end(
                barcodes.len(),
                spec_batch_grid(barcodes, paper, auto_margin).max_per_page as nat,
                k,
            ) as int,
        ),
        spec_full_export(barcodes, paper, auto_margin, grid_borders)->Ok_0[k as int].cursor
            == spec_page_end(
            barcodes.len(),
            spec_batch_grid(barcodes, paper, auto_margin).max_per_page as nat,
            k,
        ),
        spec_full_export(barcodes, paper, auto_margin, grid_borders)->Ok_0[k as int].has_more == (k
            + 1 < spec_full_export(barcodes, paper, auto_margin, grid_borders)->Ok_0.len()),
{
    let max = spec_batch_grid(barcodes, paper, auto_margin).max_per_page as nat;
    let total = barcodes.len();
    let pages = spec_full_export(barcodes, paper, auto_margin, grid_borders)->Ok_0;
    lemma_pages_before(total, max, k);
    assert(!spec_some_page_refused(barcodes, paper, auto_margin, grid_borders));
    assert(!(spec_export_image(barcodes, k * max, paper, auto_margin, grid_borders) is Err));
    assert((k + 1) * max == k * max + max) by (nonlinear_arith);
    lemma_page_count(total, max, k);
    if k + 1 < pages.len() {
        lemma_pages_before(total, max, k + 1);
    }
    if (k + 1) * max < total {
        lemma_page_count(total, max, k + 1);
    }
}

/// The pages of a full export, taken in order, hold every barcode exactly
/// once and in the order in which the barcodes were given.
pub proof fn lemma_full_export_covers(
    barcodes: Seq<BarcodeView>,
    paper: Paper,
    auto_margin: bool,
    grid_borders: bool,
)
    requires
        spec_full_export(barcodes, paper, auto_margin, grid_borders) is Ok,
    ensures
        spec_used_on_pages(
            spec_full_export(barcodes, paper, auto_margin, grid_borders)->Ok_0,
            spec_full_export(barcodes, paper, auto_margin, grid_borders)->Ok_0.len(),
        ) == barcodes,
{
    let pages = spec_full_export(barcodes, paper, auto_margin, grid_borders)->Ok_0;
    let max = spec_batch_grid(barcodes, paper, auto_margin).max_per_page as nat;
    let total = barcodes.len();
    lemma_used_on_pages(barcodes, paper, auto_margin, grid_borders, pages.len());
    assert(pages.len() > 0) by {
        assert(0 * max == 0) by (nonlinear_arith);
        lemma_page_count(total, max, 0);
    }
    let last = (pages.len() - 1) as nat;
    lemma_full_export_pages(barcodes, paper, auto_margin, grid_borders, last);
    assert(barcodes.subrange(0, total as int) =~= barcodes);
}

/// Page `k` of an export starts where the page before it ends, and ends no
/// earlier than it starts and no later than the barcodes do.
pub proof fn lemma_page_end_chain(total: nat, max_per_page: nat, k: nat)
    requires
        k * max_per_page < total,
    ensures
        k > 0 ==> spec_page_end(total, max_per_page, (k - 1) as nat) == k * max_per_page,
        k * max_per_page <= spec_page_end(total, max_per_page, k) <= total,
{
    assert((k + 1) * max_per_page == k * max_per_page + max_per_page) by (nonlinear_arith);
    if k > 0 {
        assert(((k - 1) as nat + 1) * max_per_page == k * max_per_page);
    }
}

/// The first `n` pages of a full export hold the barcodes up to the end of
/// page `n - 1`, in their order.
pub proof fn lemma_used_on_pages(
    barcodes: Seq<BarcodeView>,
    paper: Paper,
    auto_margin: bool,
    grid_borders: bool,
    n: nat,
)
    requires
        spec_full_export(barcodes, paper, auto_margin, grid_borders) is Ok,
        n <= spec_full_export(barcodes, paper, auto_margin, grid_borders)->Ok_0.len(),
    ensures
        spec_used_on_pages(spec_full_export(barcodes, paper, auto_margin, grid_borders)->Ok_0, n)
            == barcodes.subrange(
            0,
            if n == 0 {
                0int
            } else {
                spec_page_end(
                    barcodes.len(),
                    spec_batch_grid(barcodes, paper, auto_margin).max_per_page as nat,
                    (n - 1) as nat,
                ) as int
            },
        ),
    decreases n,
{
    let pages = spec_full_export(barcodes, paper, auto_margin, grid_borders)->Ok_0;
    let max = spec_batch_grid(barcodes, paper, auto_margin).max_per_page as nat;
    let total = barcodes.len();
    if n == 0 {
        assert(spec_used_on_pages(pages, 0) =~= barcodes.subrange(0, 0));
    } else {
        let k = (n - 1) as nat;
        lemma_used_on_pages(barcodes, paper, auto_margin, grid_borders, k);
        lemma_full_export_pages(barcodes, paper, auto_margin, grid_borders, k);
        lemma_page_end_chain(total, max, k);
        let start = (k * max) as int;
        let end = spec_page_end(total, max, k) as int;
        let earlier = spec_used_on_pages(pages, k);
        let here = pages[k as int].used_barcodes;
        assert(earlier == barcodes.subrange(0, start));
        assert(here == barcodes.subrange(start, end));
        assert(spec_used_on_pages(pages, n) == earlier + here);
        assert(0 <= start <= end <= total);
        lemma_subrange_join(barcodes, start, end);
    }
}

/// Two stretches of a sequence that meet make one stretch.
pub proof fn lemma_subrange_join<T>(items: Seq<T>, middle: int, end: int)
    requires
        0 <= middle <= end <= items.len(),
    ensures
        items.subrange(0, middle) + items.subrange(middle, end) == items.subrange(0, end),
{
    assert(items.subrange(0, middle) + items.subrange(middle, end) =~= items.subrange(0, end));
}

/// Copies of the barcodes from `from` up to, not including, `to`.
pub fn copy_barcodes(barcodes: &[GeneratedBarcode], from: usize, to: usize) -> (copies: Vec<GeneratedBarcode>)
    requires
        from <= to <= barcodes@.len(),
    ensures
        spec_barcodes(copies@) == spec_barcodes(barcodes@).subrange(from as int, to as int),
{
    let mut copies: Vec<GeneratedBarcode> = Vec::new();
    let mut i: usize = from;
    while i < to
        invariant
            from <= i <= to,
            to <= barcodes@.len(),
            copies@.len() == i - from,
            forall|k: int| 0 <= k < i - from ==> copies@[k]@ == barcodes@[from + k]@,
        decreases to - i,
    {
        copies.push(barcodes[i].clone());
        i += 1;
    }
    assert(spec_barcodes(copies@) =~= spec_barcodes(barcodes@).subrange(from as int, to as int));
    copies
}

/// Lays barcodes out on pages of one kind of paper.
#[derive(Debug)]
pub struct PngExporter {
    pub layout: Layout,
}

impl PngExporter {
    pub fn new(layout: Layout) -> (exporter: Self)
        ensures
            exporter.layout == layout,
    {
        Self { layout }
    }

    /// Margins that split the space left by `cols` columns and by the rows
    /// that fit the full height evenly, as `(margin_x, margin_y)`.
    pub fn calculate_auto_margins(
        &self,
        barcode_width: u32,
        barcode_height: u32,
        image_width: u32,
        image_height: u32,
        cols: u32,
    ) -> (margins: (u32, u32))
        requires
            barcode_height > 0,
        ensures
            margins.0 == spec_auto_margin(image_width as nat, barcode_width as nat, cols as nat),
            margins.1 == spec_auto_margin(
                image_height as nat,
                barcode_height as nat,
                image_height as nat / barcode_height as nat,
            ),
    {
        (
            auto_margin(image_width, barcode_width, cols),
            auto_margin(image_height, barcode_height, image_height / barcode_height),
        )
    }

    /// Number of barcodes that fit a page: the rows that fit between the
    /// vertical margins, `spacing` pixels apart, times the columns.
    pub fn calculate_max_barcodes(
        &self,
        cols: u32,
        margin_y: u32,
        spacing: u32,
        barcode_height: u32,
        paper_height: u32,
    ) -> (count: u64)
        requires
            barcode_height + spacing > 0,
        ensures
            count == spec_max_barcodes(
                cols as nat,
                margin_y as nat,
                spacing as nat,
                barcode_height as nat,
                paper_height as nat,
            ),
    {
        max_barcodes(cols, margin_y, spacing, barcode_height, paper_height)
    }

    /// The grid of a batch, or why no page can be laid out from `cursor`
    /// on.
    pub fn plan(&self, barcodes: &[GeneratedBarcode], cursor: usize) -> (plan: Result<PageGrid, LayoutError>)
        ensures
            match plan {
                Ok(grid) => {
                    &&& spec_structure_error(
                        spec_barcodes(barcodes@),
                        cursor as nat,
                        self.layout.paper,
                        self.layout.auto_margin,
                    ) is None
                    &&& grid == spec_batch_grid(
                        spec_barcodes(barcodes@),
                        self.layout.paper,
                        self.layout.auto_margin,
                    )
                    &&& grid.cols >= 1
                    &&& grid.cell_width > 0
                    &&& grid.cell_height > 0
                    &&& grid.max_per_page > 0
                    &&& fits_memory(grid.page_width as nat, grid.page_height as nat)
                },
                Err(error) => spec_structure_error(
                    spec_barcodes(barcodes@),
                    cursor as nat,
                    self.layout.paper,
                    self.layout.auto_margin,
                ) == Some(error),
            },
    {
        if barcodes.len() == 0 {
            return Err(LayoutError::EmptyBatch);
        }
        if cursor > barcodes.len() {
            return Err(LayoutError::CursorOutOfRange);
        }
        let first: &GeneratedBarcode = &barcodes[0];
        assert(spec_barcodes(barcodes@)[0] == first@);
        let (cell_width, cell_height) = first.buffer.dimensions();
        if cell_width == 0 || cell_height == 0 {
            return Err(LayoutError::EmptyBarcode);
        }
        let (page_width, page_height) = get_paper_dimensions_px(&self.layout.paper);
        let grid = plan_grid(page_width, page_height, cell_width, cell_height, self.layout.auto_margin);
        if grid.max_per_page == 0 {
            return Err(LayoutError::BarcodeExceedsPage);
        }
        Ok(grid)
    }

    /// Generates the page that starts at `cursor`: the barcodes from
    /// `cursor` on, as many as fit, laid into the grid and written as a PNG
    /// file. The result tells which barcodes are on the page, how many are
    /// placed so far and whether any remain.
    pub fn create_export_image(&self, barcodes: &[GeneratedBarcode], cursor: usize) -> (result: Result<
        GenerationResult,
        LayoutError,
    >)
        ensures
            match result {
                Ok(page) => spec_export_image(
                    spec_barcodes(barcodes@),
                    cursor as nat,
                    self.layout.paper,
                    self.layout.auto_margin,
                    self.layout.grid_borders,
                ) == Ok::<ResultView, LayoutError>(page@),
                Err(error) => spec_export_image(
                    spec_barcodes(barcodes@),
                    cursor as nat,
                    self.layout.paper,
                    self.layout.auto_margin,
                    self.layout.grid_borders,
                ) == Err::<ResultView, LayoutError>(error),
            },
    {
        let grid = match self.plan(barcodes, cursor) {
            Ok(grid) => grid,
            Err(error) => {
                return Err(error);
            },
        };
        let total: usize = barcodes.len();
        let remaining: usize = total - cursor;
        let placed: usize = if remaining as u64 <= grid.max_per_page {
            remaining
        } else {
            grid.max_per_page as usize
        };
        let picture = compose_page(barcodes, cursor, placed, &grid, self.layout.grid_borders);
        match encode_page(&picture) {
            None => Err(LayoutError::Encoding),
            Some(page) => {
                let used_barcodes = copy_barcodes(barcodes, cursor, cursor + placed);
                Ok(
                    GenerationResult {
                        page,
                        used_barcodes,
                        has_more: cursor + placed < total,
                        cursor: cursor + placed,
                    },
                )
            },
        }
    }

    /// Generates the first page only.
    pub fn create_export_preview(&self, barcodes: &[GeneratedBarcode]) -> (result: Result<
        GenerationResult,
        LayoutError,
    >)
        ensures
            match result {
                Ok(page) => spec_export_image(
                    spec_barcodes(barcodes@),
                    0,
                    self.layout.paper,
                    self.layout.auto_margin,
                    self.layout.grid_borders,
                ) == Ok::<ResultView, LayoutError>(page@),
                Err(error) => spec_export_image(
                    spec_barcodes(barcodes@),
                    0,
                    self.layout.paper,
                    self.layout.auto_margin,
                    self.layout.grid_borders,
                ) == Err::<ResultView, LayoutError>(error),
            },
    {
        self.create_export_image(barcodes, 0)
    }

    /// Generates every page: page after page from cursor 0 on, each
    /// starting where the one before ended, until no barcode remains. The
    /// first page that fails makes the whole export fail.
    pub fn create_full_export(&self, barcodes: &[GeneratedBarcode]) -> (result: Result<
        Vec<GenerationResult>,
        LayoutError,
    >)
        ensures
            match result {
                Ok(pages) => spec_full_export(
                    spec_barcodes(barcodes@),
                    self.layout.paper,
                    self.layout.auto_margin,
                    self.layout.grid_borders,
                ) == Ok::<Seq<ResultView>, LayoutError>(spec_results(pages@)),
                Err(error) => spec_full_export(
                    spec_barcodes(barcodes@),
                    self.layout.paper,
                    self.layout.auto_margin,
                    self.layout.grid_borders,
                ) == Err::<Seq<ResultView>, LayoutError>(error),
            },
    {
        let grid = match self.plan(barcodes, 0) {
            Ok(grid) => grid,
            Err(error) => {
                return Err(error);
            },
        };
        let ghost views = spec_barcodes(barcodes@);
        let ghost paper = self.layout.paper;
        let ghost auto = self.layout.auto_margin;
        let ghost borders = self.layout.grid_borders;
        let ghost max = grid.max_per_page as nat;
        let total: usize = barcodes.len();
        let ghost count = spec_page_count(total as nat, max);
        let mut pages: Vec<GenerationResult> = Vec::new();
        let mut cursor: usize = 0;
        let mut has_more: bool = true;
        assert(0 * max == 0) by (nonlinear_arith);
        while has_more
            invariant
                total == barcodes@.len(),
                total > 0,
                views == spec_barcodes(barcodes@),
                views.len() == total,
                paper == self.layout.paper,
                auto == self.layout.auto_margin,
                borders == self.layout.grid_borders,
                grid == spec_batch_grid(views, paper, auto),
                max == grid.max_per_page,
                max > 0,
                count == spec_page_count(total as nat, max),
                spec_structure_error(views, 0, paper, auto) is None,
                cursor <= total,
                has_more ==> cursor == pages@.len() * max && cursor < total,
                !has_more ==> pages@.len() == count,
                forall|k: nat|
                    k < pages@.len() ==> #[trigger] spec_export_image(
                        views,
                        k * max,
                        paper,
                        auto,
                        borders,
                    ) == Ok::<ResultView, LayoutError>(pages@[k as int]@),
            decreases total - cursor + if has_more { 1int } else { 0int },
        {
            let ghost index = pages@.len();
            proof {
                lemma_page_count(total as nat, max, index);
            }
            match self.create_export_image(barcodes, cursor) {
                Err(error) => {
                    proof {
                        assert(spec_export_image(views, index * max, paper, auto, borders) is Err);
                        assert(spec_some_page_refused(views, paper, auto, borders));
                    }
                    return Err(error);
                },
                Ok(page) => {
                    let ghost earlier = pages@;
                    proof {
                        assert((index + 1) * max == index * max + max) by (nonlinear_arith);
                    }
                    has_more = page.has_more;
                    cursor = page.cursor;
                    pages.push(page);
                    proof {
                        assert forall|k: nat| k < pages@.len() implies #[trigger] spec_export_image(
                            views,
                            k * max,
                            paper,
                            auto,
                            borders,
                        ) == Ok::<ResultView, LayoutError>(pages@[k as int]@) by {
                            if k < index {
                                assert(pages@[k as int] == earlier[k as int]);
                            }
                        }
                    }
                },
            }
        }
        proof {
            assert(!spec_some_page_refused(views, paper, auto, borders));
            let expected = spec_full_export(views, paper, auto, borders)->Ok_0;
            assert forall|k: int| 0 <= k < count implies spec_results(pages@)[k] == expected[k] by {
                assert(spec_export_image(views, (k as nat) * max, paper, auto, borders)
                    == Ok::<ResultView, LayoutError>(pages@[k]@));
            }
            assert(spec_results(pages@) =~= expected);
        }
        Ok(pages)
    }
}

} // verus!
