//! What a renderer computes from the state before it paints: column widths,
//! clipped texts, the visible part of the input, counts for the side bar.

use crate::modes::TorrentState;
use crate::rows::{RowModel, TorrentRow, TorrentStats};
use crate::state::App;
use crate::text::push_char;
use vstd::prelude::*;
use vstd::string::*;

verus! {

/// Width of all columns of the torrent table but the first.
pub const FIXED_COLUMNS_WIDTH: u16 = 99;

/// The widths of the eight columns of the torrent table in an area
/// `area_width` wide: the first takes what the others leave.
pub open spec fn column_widths(area_width: u16) -> Seq<usize> {
    seq![
        if area_width > FIXED_COLUMNS_WIDTH {
            (area_width - FIXED_COLUMNS_WIDTH) as usize
        } else {
            0usize
        },
        14usize,
        12usize,
        17usize,
        17usize,
        13usize,
        14usize,
        12usize,
    ]
}

/// The widths of the columns of the torrent table in an area `area_width` wide.
pub fn table_column_widths(area_width: u16, _columns: usize) -> (widths: Vec<usize>)
    ensures
        widths@ == column_widths(area_width),
{
    let first: usize = if area_width > FIXED_COLUMNS_WIDTH {
        (area_width - FIXED_COLUMNS_WIDTH) as usize
    } else {
        0
    };
    let mut widths: Vec<usize> = Vec::new();
    widths.push(first);
    widths.push(14);
    widths.push(12);
    widths.push(17);
    widths.push(17);
    widths.push(13);
    widths.push(14);
    widths.push(12);
    assert(widths@ =~= column_widths(area_width));
    widths
}

/// The sum of the first `n` of `widths` (of all where there are fewer).
pub open spec fn width_sum(widths: Seq<usize>, n: nat) -> nat
    decreases n,
{
    if n == 0 || widths.len() == 0 {
        0
    } else if n > widths.len() {
        width_sum(widths, widths.len())
    } else {
        (width_sum(widths, (n - 1) as nat) + widths[n - 1]) as nat
    }
}

/// Where column `idx` begins: behind the columns before it, each followed by
/// `spacing` cells.
pub open spec fn column_offset(widths: Seq<usize>, idx: nat, spacing: nat) -> nat {
    width_sum(widths, idx) + spacing * idx
}

/// The sum of the first `n` widths is at most the sum of the first `m`, for `n <= m`.
pub proof fn lemma_width_sum_monotone(widths: Seq<usize>, n: nat, m: nat)
    requires
        n <= m <= widths.len(),
    ensures
        width_sum(widths, n) <= width_sum(widths, m),
    decreases m - n,
{
    if n < m {
        lemma_width_sum_monotone(widths, n + 1, m);
    }
}

/// Where column `idx` begins.
pub fn col_offset(widths: &[usize], idx: usize, spacing: usize) -> (offset: usize)
    requires
        column_offset(widths@, idx as nat, spacing as nat) <= usize::MAX,
    ensures
        offset == column_offset(widths@, idx as nat, spacing as nat),
{
    let upto = if idx < widths.len() {
        idx
    } else {
        widths.len()
    };
    let mut sum: usize = 0;
    let mut i: usize = 0;
    while i < upto
        invariant
            i <= upto <= widths@.len(),
            sum == width_sum(widths@, i as nat),
            width_sum(widths@, upto as nat) <= usize::MAX,
        decreases upto - i,
    {
        proof {
            lemma_width_sum_monotone(widths@, (i + 1) as nat, upto as nat);
        }
        sum = sum + widths[i];
        i = i + 1;
    }
    assert(spacing * idx <= usize::MAX) by (nonlinear_arith)
        requires
            width_sum(widths@, idx as nat) + spacing * idx <= usize::MAX,
            width_sum(widths@, idx as nat) >= 0,
    ;
    sum + spacing * idx
}

/// `count` times the character `c`.
pub fn repeated(c: char, count: usize) -> (out: String)
    ensures
        out@ == Seq::new(count as nat, |i: int| c),
{
    let mut out = String::new();
    let mut i: usize = 0;
    while i < count
        invariant
            i <= count,
            out@ == Seq::new(i as nat, |j: int| c),
        decreases count - i,
    {
        push_char(&mut out, c);
        i = i + 1;
        assert(out@ =~= Seq::new(i as nat, |j: int| c));
    }
    out
}

/// `s` in at most `width` characters: as it is where it fits; else cut, with
/// three dots in place of what is cut; dots only where not even those fit.
pub open spec fn fitted(s: Seq<char>, width: nat) -> Seq<char> {
    if width == 0 {
        Seq::empty()
    } else if s.len() <= width {
        s
    } else if width <= 3 {
        Seq::new(width, |i: int| '.')
    } else {
        s.take(width - 3) + "..."@
    }
}

/// Clips `s` to at most `width` characters.
pub fn fit_text(s: &str, width: usize) -> (out: String)
    ensures
        out@ == fitted(s@, width as nat),
{
    if width == 0 {
        return String::new();
    }
    let count = s.unicode_len();
    if count <= width {
        return s.to_owned();
    }
    if width <= 3 {
        return repeated('.', width);
    }
    let mut out = s.substring_char(0, width - 3).to_owned();
    out.append("...");
    out
}

/// `s` clipped into `width` characters of which the first `pad` (at most
/// `width`) are blank.
pub open spec fn fitted_padded(s: Seq<char>, width: nat, pad: nat) -> Seq<char> {
    if width == 0 {
        Seq::empty()
    } else {
        let blanks = if pad <= width {
            pad
        } else {
            width
        };
        Seq::new(blanks, |i: int| ' ') + fitted(s, (width - blanks) as nat)
    }
}

/// Clips `s` into `width` characters, behind `pad` blanks.
pub fn fit_text_padded(s: &str, width: usize, pad: usize) -> (out: String)
    ensures
        out@ == fitted_padded(s@, width as nat, pad as nat),
{
    if width == 0 {
        return String::new();
    }
    let pad = if pad <= width {
        pad
    } else {
        width
    };
    let inner = width - pad;
    let trimmed = fit_text(s, inner);
    let mut out = repeated(' ', pad);
    out.append(trimmed.as_str());
    out
}

/// Where the visible part of the input begins, for a cursor at `cursor` in
/// an area `width` wide: so far right that the cursor is within the area,
/// and not behind the end of the input.
pub open spec fn visible_start(len: nat, cursor: nat, width: nat) -> nat {
    let wanted = if cursor > width {
        (cursor - width) as nat
    } else {
        0
    };
    if wanted > len {
        len
    } else {
        wanted
    }
}

/// The part of the input that an area `width` wide shows.
pub open spec fn visible_text(input: Seq<char>, cursor: nat, width: nat) -> Seq<char> {
    let start = visible_start(input.len(), cursor, width);
    let end = if start + width < input.len() {
        start + width
    } else {
        input.len()
    };
    input.subrange(start as int, end as int)
}

/// The column of the cursor in the area, counted from 1.
pub open spec fn visible_cursor(len: nat, cursor: nat, width: nat) -> nat {
    let offset = (cursor - visible_start(len, cursor, width)) as nat;
    if offset < width {
        offset + 1
    } else {
        width + 1
    }
}

/// The part of `input` that an area `area_width` wide shows when the cursor
/// is at `cursor`, and the column of the cursor; nothing in an area without width.
pub fn visible_input(input: &str, cursor: usize, area_width: u16) -> (out: (String, Option<u16>))
    requires
        cursor <= input@.len(),
        area_width < u16::MAX || cursor < u16::MAX,
    ensures
        area_width == 0 ==> out.0@ == Seq::<char>::empty() && out.1 is None,
        area_width > 0 ==> out.0@ == visible_text(input@, cursor as nat, area_width as nat)
            && out.1 == Some(
            visible_cursor(input@.len(), cursor as nat, area_width as nat) as u16,
        ),
{
    let width = area_width as usize;
    if width == 0 {
        return (String::new(), None);
    }
    let len = input.unicode_len();
    let mut start: usize = 0;
    if cursor > width {
        start = cursor - width;
    }
    if start > len {
        start = len;
    }
    let end = if width < len - start {
        start + width
    } else {
        len
    };
    let visible = input.substring_char(start, end).to_owned();
    let offset = cursor - start;
    let column: u16 = if offset < width {
        offset as u16
    } else {
        area_width
    };
    (visible, Some(column + 1))
}

/// How many cells of a bar segment are filled and how many are empty: the
/// segment begins at `start`, is `len` long, and the bar is filled up to `filled`.
pub open spec fn segment_cells(filled: nat, start: nat, len: nat) -> (nat, nat) {
    let full = if filled <= start {
        0
    } else if filled - start < len {
        (filled - start) as nat
    } else {
        len
    };
    (full, (len - full) as nat)
}

/// How many cells of a bar segment are filled and how many are empty.
pub fn segment_fill(filled: usize, start: usize, len: usize) -> (cells: (usize, usize))
    ensures
        cells.0 == segment_cells(filled as nat, start as nat, len as nat).0,
        cells.1 == segment_cells(filled as nat, start as nat, len as nat).1,
        cells.0 + cells.1 == len,
{
    let full = if filled <= start {
        0
    } else if filled - start < len {
        filled - start
    } else {
        len
    };
    (full, len - full)
}

/// Whether a torrent is running: live or initializing.
pub open spec fn is_active(stats: Option<TorrentStats>) -> bool {
    stats matches Some(s) && (s.state == TorrentState::Live || s.state
        == TorrentState::Initializing)
}

/// Whether a torrent has all of its payload: finished, or live with all of
/// a non-empty payload present.
pub open spec fn is_complete(stats: Option<TorrentStats>) -> bool {
    stats matches Some(s) && (s.finished || (s.total_bytes > 0 && s.progress_bytes
        >= s.total_bytes && s.state == TorrentState::Live))
}

/// How many of the first `n` rows satisfy `wanted`.
pub open spec fn tally(
    rows: Seq<RowModel>,
    wanted: spec_fn(Option<TorrentStats>) -> bool,
    n: nat,
) -> nat
    decreases n,
{
    if n == 0 {
        0
    } else {
        tally(rows, wanted, (n - 1) as nat) + if wanted(rows[n - 1].stats) {
            1nat
        } else {
            0nat
        }
    }
}

/// The numbers of the side bar.
#[derive(Debug, Clone, Copy, PartialEq, Eq, Structural)]
pub struct Counts {
    /// Running and still fetching.
    pub downloading: usize,
    /// Running with all of the payload.
    pub seeding: usize,
    pub paused: usize,
    pub errors: usize,
    pub total: usize,
}

impl Counts {
    /// Running, fetching or not.
    pub open spec fn active(self) -> nat {
        (self.downloading + self.seeding) as nat
    }
}

/// The numbers of the side bar for `rows`.
pub open spec fn tallied(rows: Seq<RowModel>) -> Counts {
    Counts {
        downloading: tally(
            rows,
            |s: Option<TorrentStats>| is_active(s) && !is_complete(s),
            rows.len(),
        ) as usize,
        seeding: tally(
            rows,
            |s: Option<TorrentStats>| is_active(s) && is_complete(s),
            rows.len(),
        ) as usize,
        paused: tally(
            rows,
            |s: Option<TorrentStats>| s matches Some(t) && t.state == TorrentState::Paused,
            rows.len(),
        ) as usize,
        errors: tally(
            rows,
            |s: Option<TorrentStats>| s matches Some(t) && t.state == TorrentState::Error,
            rows.len(),
        ) as usize,
        total: rows.len() as usize,
    }
}

/// Counts the rows by what they are doing.
pub fn count_rows(rows: &[TorrentRow]) -> (counts: Counts)
    ensures
        counts == tallied(rows@.map_values(|r: TorrentRow| r.deep_view())),
        counts.downloading + counts.seeding + counts.paused + counts.errors <= counts.total,
        counts.total == rows@.len(),
{
    let ghost model = rows@.map_values(|r: TorrentRow| r.deep_view());
    let ghost fetching = |s: Option<TorrentStats>| is_active(s) && !is_complete(s);
    let ghost complete = |s: Option<TorrentStats>| is_active(s) && is_complete(s);
    let ghost resting = |s: Option<TorrentStats>|
        s matches Some(t) && t.state == TorrentState::Paused;
    let ghost broken = |s: Option<TorrentStats>|
        s matches Some(t) && t.state == TorrentState::Error;
    let mut downloading: usize = 0;
    let mut seeding: usize = 0;
    let mut paused: usize = 0;
    let mut errors: usize = 0;
    let mut i: usize = 0;
    while i < rows.len()
        invariant
            i <= rows.len(),
            model == rows@.map_values(|r: TorrentRow| r.deep_view()),
            fetching == (|s: Option<TorrentStats>| is_active(s) && !is_complete(s)),
            complete == (|s: Option<TorrentStats>| is_active(s) && is_complete(s)),
            resting == (|s: Option<TorrentStats>|
                s matches Some(t) && t.state == TorrentState::Paused),
            broken == (|s: Option<TorrentStats>|
                s matches Some(t) && t.state == TorrentState::Error),
            downloading == tally(model, fetching, i as nat),
            seeding == tally(model, complete, i as nat),
            paused == tally(model, resting, i as nat),
            errors == tally(model, broken, i as nat),
            downloading + seeding + paused + errors <= i,
        decreases rows.len() - i,
    {
        assert(model[i as int].stats == rows[i as int].stats);
        if let Some(stats) = &rows[i].stats {
            let live = matches!(stats.state, TorrentState::Live);
            let done = stats.finished || (stats.total_bytes > 0 && stats.progress_bytes
                >= stats.total_bytes && live);
            match stats.state {
                TorrentState::Live | TorrentState::Initializing => {
                    if done {
                        seeding = seeding + 1;
                    } else {
                        downloading = downloading + 1;
                    }
                },
                TorrentState::Paused => {
                    paused = paused + 1;
                },
                TorrentState::Error => {
                    errors = errors + 1;
                },
            }
        }
        i = i + 1;
    }
    Counts { downloading, seeding, paused, errors, total: rows.len() }
}

/// The torrents of `app` by what they are doing: fetching, seeding, paused,
/// in error, and all.
pub fn filter_counts(app: &App) -> (out: (usize, usize, usize, usize, usize))
    ensures
        out.0 == tallied(app.model().torrents).downloading,
        out.1 == tallied(app.model().torrents).seeding,
        out.2 == tallied(app.model().torrents).paused,
        out.3 == tallied(app.model().torrents).errors,
        out.4 == app.model().torrents.len(),
        out.0 + out.1 + out.2 + out.3 <= out.4,
{
    let rows = app.torrents();
    assert(rows@.map_values(|r: TorrentRow| r.deep_view()) =~= app.model().torrents);
    let all = count_rows(rows);
    (all.downloading, all.seeding, all.paused, all.errors, all.total)
}

/// The running torrents of `app`, those of them that have all of their
/// payload, and all torrents, counted.
pub fn counts(app: &App) -> (out: (usize, usize, usize))
    ensures
        out.0 == tallied(app.model().torrents).active(),
        out.1 == tallied(app.model().torrents).seeding,
        out.2 == app.model().torrents.len(),
{
    let all = filter_counts(app);
    (all.0 + all.1, all.1, all.4)
}

/// What the status column says of a torrent.
#[derive(Debug, Clone, Copy, PartialEq, Eq, Structural)]
pub enum StatusLabel {
    /// No statistics yet.
    Unknown,
    /// Live and finished.
    Seed,
    /// Live and not finished.
    Down,
    Init,
    Pause,
    Error,
}

/// The status of a torrent with statistics `stats`.
pub open spec fn status_of(stats: Option<TorrentStats>) -> StatusLabel {
    match stats {
        None => StatusLabel::Unknown,
        Some(s) => match s.state {
            TorrentState::Live => if s.finished {
                StatusLabel::Seed
            } else {
                StatusLabel::Down
            },
            TorrentState::Initializing => StatusLabel::Init,
            TorrentState::Paused => StatusLabel::Pause,
            TorrentState::Error => StatusLabel::Error,
        },
    }
}

/// The status of a torrent with statistics `stats`.
pub fn status_label(stats: &Option<TorrentStats>) -> (label: StatusLabel)
    ensures
        label == status_of(*stats),
{
    match stats {
        None => StatusLabel::Unknown,
        Some(s) => match s.state {
            TorrentState::Live => {
                if s.finished {
                    StatusLabel::Seed
                } else {
                    StatusLabel::Down
                }
            },
            TorrentState::Initializing => StatusLabel::Init,
            TorrentState::Paused => StatusLabel::Pause,
            TorrentState::Error => StatusLabel::Error,
        },
    }
}

} // verus!
