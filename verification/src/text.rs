//! The display core: mapping run outcomes to color categories, rendering a
//! run history and a label into a fixed-width row of cells, choosing the
//! display width of a batch, and laying out the fixed-column summary line.

use crate::insight::{InsightItem, Item, Metrics, RATE_ONE};
use crate::num::{
    pad_left, spec_dec, spec_pad_left, to_dec, to_dec_padded, to_dec_zero_padded,
};
use vstd::prelude::*;

verus! {

/// The logical color of one history cell. `Empty` means no run exists at
/// that slot (padding), which is distinct from `Unknown` (a run exists but
/// its status is neither success nor failure).
#[derive(Clone, Copy, Debug, PartialEq, Eq, Structural)]
pub enum ColorCategory {
    Success,
    Failure,
    Unknown,
    Empty,
}

/// One rendered column: the label character shown there and the color
/// category of the run behind it.
#[derive(Clone, Copy, Debug, PartialEq, Eq, Structural)]
pub struct Cell {
    pub ch: char,
    pub cat: ColorCategory,
}

/// The status text of a run, as a sequence of characters.
pub open spec fn spec_status_view(s: Option<String>) -> Option<Seq<char>> {
    match s {
        Option::Some(t) => Option::Some(t@),
        Option::None => Option::None,
    }
}

/// The category of a run's status: `"success"` and `"failed"` are
/// recognized, any other status (or none) is unknown.
pub open spec fn spec_category_of(status: Option<Seq<char>>) -> ColorCategory {
    match status {
        Option::Some(s) => if s == "success"@ {
            ColorCategory::Success
        } else if s == "failed"@ {
            ColorCategory::Failure
        } else {
            ColorCategory::Unknown
        },
        Option::None => ColorCategory::Unknown,
    }
}

pub fn category_of(status: &Option<String>) -> (r: ColorCategory)
    ensures
        r == spec_category_of(spec_status_view(*status)),
{
    match status {
        Option::Some(s) => {
            let success: String = "success".to_owned();
            let failed: String = "failed".to_owned();
            if *s == success {
                ColorCategory::Success
            } else if *s == failed {
                ColorCategory::Failure
            } else {
                ColorCategory::Unknown
            }
        },
        Option::None => ColorCategory::Unknown,
    }
}

/// The category shown at column `i` of a `width`-column rendering of
/// `history`: the history is right-aligned, so column `i` shows the run
/// `width - i` positions before the end, and columns before the start of a
/// short history are empty.
pub open spec fn spec_cell_category(history: Seq<Item>, width: int, i: int) -> ColorCategory
    recommends
        0 <= i < width,
{
    if history.len() + i >= width {
        spec_category_of(spec_status_view(history[history.len() + i - width].status))
    } else {
        ColorCategory::Empty
    }
}

/// The character shown at column `i`: the label's character there, or a
/// space beyond the label's end.
pub open spec fn spec_label_char(label: Seq<char>, i: int) -> char {
    if i < label.len() {
        label[i]
    } else {
        ' '
    }
}

/// Renders a run history and a label into exactly `width` cells. The
/// history is right-aligned (the most recent run lands in the last column;
/// a short history leaves the leftmost columns `Empty`), the label is
/// left-aligned and padded with spaces, independent of the history.
pub fn render(width: usize, history: &Vec<Item>, label: &str) -> (r: Vec<Cell>)
    ensures
        r@.len() == width,
        forall|i: int|
            0 <= i < width ==> (#[trigger] r@[i]).cat == spec_cell_category(
                history@,
                width as int,
                i,
            ),
        forall|i: int| 0 <= i < width ==> (#[trigger] r@[i]).ch == spec_label_char(label@, i),
{
    let label_len = label.unicode_len();
    let size = history.len();
    let mut r: Vec<Cell> = Vec::new();
    let mut i: usize = 0;
    while i < width
        invariant
            i <= width,
            size == history@.len(),
            label_len == label@.len(),
            r@.len() == i,
            forall|j: int|
                0 <= j < i ==> (#[trigger] r@[j]).cat == spec_cell_category(
                    history@,
                    width as int,
                    j,
                ),
            forall|j: int| 0 <= j < i ==> (#[trigger] r@[j]).ch == spec_label_char(label@, j),
        decreases width - i,
    {
        let cat = if size >= width - i {
            let idx = size - (width - i);
            category_of(&history[idx].status)
        } else {
            ColorCategory::Empty
        };
        let ch = if i < label_len {
            label.get_char(i)
        } else {
            ' '
        };
        r.push(Cell { ch, cat });
        i = i + 1;
    }
    r
}

/// When there are at least as many runs as columns, the last column shows
/// the most recent run; there is no width for which it would show anything
/// else.
pub proof fn lemma_last_cell_is_most_recent(history: Seq<Item>, width: int)
    requires
        1 <= width <= history.len(),
    ensures
        spec_cell_category(history, width, width - 1) == spec_category_of(
            spec_status_view(history.last().status),
        ),
{
}

/// When there are fewer runs than columns, exactly the leftmost
/// `width - len` columns are empty padding and the rest show runs.
pub proof fn lemma_short_history_padding(history: Seq<Item>, width: int, i: int)
    requires
        history.len() < width,
        0 <= i < width,
    ensures
        i < width - history.len() ==> spec_cell_category(history, width, i)
            == ColorCategory::Empty,
        i >= width - history.len() ==> spec_cell_category(history, width, i)
            != ColorCategory::Empty,
{
}

/// `r` is the length in characters of the longest name in `items`.
pub open spec fn spec_is_max_name_len(items: Seq<InsightItem>, r: int) -> bool {
    &&& forall|j: int| 0 <= j < items.len() ==> (#[trigger] items[j].name)@.len() <= r
    &&& exists|j: int| 0 <= j < items.len() && (#[trigger] items[j].name)@.len() == r
}

/// The length of the longest name in a non-empty batch of summaries.
pub fn max_name_len(items: &Vec<InsightItem>) -> (r: usize)
    requires
        items@.len() > 0,
    ensures
        spec_is_max_name_len(items@, r as int),
{
    let mut best: usize = items[0].name.as_str().unicode_len();
    let mut i: usize = 1;
    while i < items.len()
        invariant
            1 <= i <= items@.len(),
            forall|j: int| 0 <= j < i ==> (#[trigger] items@[j].name)@.len() <= best,
            exists|j: int| 0 <= j < i && (#[trigger] items@[j].name)@.len() == best,
        decreases items@.len() - i,
    {
        let len = items[i].name.as_str().unicode_len();
        if len > best {
            best = len;
        }
        i = i + 1;
    }
    best
}

/// The display width for a batch: the explicit override if one was given,
/// else the longest name in the batch, computed once so that every line of
/// the batch shares the same columns.
pub fn render_width(explicit: Option<usize>, items: &Vec<InsightItem>) -> (r: usize)
    requires
        explicit is Some || items@.len() > 0,
    ensures
        match explicit {
            Option::Some(n) => r == n,
            Option::None => spec_is_max_name_len(items@, r as int),
        },
{
    match explicit {
        Option::Some(n) => n,
        Option::None => max_name_len(items),
    }
}

/// A success rate clamped to at most `RATE_ONE`, so that out-of-range data
/// from the provider still maps to the boundary color of the gradient.
pub fn clamped_rate(rate: u32) -> (r: u32)
    ensures
        r == if rate > RATE_ONE {
            RATE_ONE
        } else {
            rate
        },
        r <= RATE_ONE,
{
    if rate > RATE_ONE {
        RATE_ONE
    } else {
        rate
    }
}

/// The percentage field of the summary line: the rate times one hundred,
/// with three decimal places, right-aligned in seven columns.
pub open spec fn spec_percent_field(rate: u32) -> Seq<char> {
    spec_pad_left(
        spec_dec((rate / 1000) as nat) + "."@ + spec_pad_left(
            spec_dec((rate % 1000) as nat),
            3,
            '0',
        ),
        7,
        ' ',
    )
}

/// The highlighted runs segment: successful over total runs, each
/// right-aligned in three columns, then the percentage field.
pub open spec fn spec_runs_segment(m: Metrics) -> Seq<char> {
    " "@ + spec_pad_left(spec_dec(m.successful_runs as nat), 3, ' ') + "/"@ + spec_pad_left(
        spec_dec(m.total_runs as nat),
        3,
        ' ',
    ) + " "@ + spec_percent_field(m.success_rate) + "% "@
}

/// The estimated dollar cost of `credits` credits, at six hundredths of a
/// cent per credit, with four decimal places, right-aligned in eight
/// columns.
pub open spec fn spec_cost_field(credits: nat) -> Seq<char> {
    spec_pad_left(
        spec_dec(credits * 6 / 10000) + "."@ + spec_pad_left(
            spec_dec(credits * 6 % 10000),
            4,
            '0',
        ),
        8,
        ' ',
    )
}

/// The plain cost segment: mean duration in seconds, credits used, and the
/// estimated dollar cost, each in its fixed column.
pub open spec fn spec_credits_segment(m: Metrics) -> Seq<char> {
    "avg."@ + spec_pad_left(spec_dec(m.duration_metrics.mean as nat), 4, ' ') + " sec. "@
        + spec_pad_left(spec_dec(m.total_credits_used as nat), 7, ' ') + " cr. $"@
        + spec_cost_field(m.total_credits_used as nat)
}

/// The text of the highlighted runs segment of one summary line.
pub fn runs_segment(m: &Metrics) -> (r: String)
    ensures
        r@ == spec_runs_segment(*m),
{
    let rate = m.success_rate;
    let mut pct = to_dec((rate / 1000) as u128);
    pct.append(".");
    let frac = to_dec_zero_padded((rate % 1000) as u128, 3);
    pct.append(frac.as_str());
    let pct_field = pad_left(pct.as_str(), 7);

    let mut r: String = " ".to_owned();
    let succ = to_dec_padded(m.successful_runs as u128, 3);
    r.append(succ.as_str());
    r.append("/");
    let total = to_dec_padded(m.total_runs as u128, 3);
    r.append(total.as_str());
    r.append(" ");
    r.append(pct_field.as_str());
    r.append("% ");
    proof {
        assert(r@ =~= spec_runs_segment(*m));
    }
    r
}

/// The text of the plain cost segment of one summary line.
pub fn credits_segment(m: &Metrics) -> (r: String)
    ensures
        r@ == spec_credits_segment(*m),
{
    let credits = m.total_credits_used as u128;
    let tenthousandths = credits * 6;
    let mut cost = to_dec(tenthousandths / 10000);
    cost.append(".");
    let cost_frac = to_dec_zero_padded(tenthousandths % 10000, 4);
    cost.append(cost_frac.as_str());
    let cost_field = pad_left(cost.as_str(), 8);

    let mut r: String = "avg.".to_owned();
    let mean = to_dec_padded(m.duration_metrics.mean as u128, 4);
    r.append(mean.as_str());
    r.append(" sec. ");
    let cr = to_dec_padded(m.total_credits_used as u128, 7);
    r.append(cr.as_str());
    r.append(" cr. $");
    r.append(cost_field.as_str());
    proof {
        assert(r@ =~= spec_credits_segment(*m));
    }
    r
}

} // verus!
