use vstd::prelude::*;

verus! {

use crate::calculations::CompositionResult;

/// One timestamped sample of the column: a temperature and a composition
/// pair per plate, plus run progress and the estimated distilled mass.
#[derive(Debug)]
pub struct ColumnEntry {
    pub timestamp: u64,
    pub temperatures: Vec<i64>,
    pub compositions: Vec<CompositionResult>,
    pub percentage_complete: i64,
    pub distilled_mass: i64,
}

/// The mathematical value of a sample.
pub struct EntryView {
    pub timestamp: u64,
    pub temperatures: Seq<i64>,
    pub compositions: Seq<CompositionResult>,
    pub percentage_complete: i64,
    pub distilled_mass: i64,
}

impl View for ColumnEntry {
    type V = EntryView;

    open spec fn view(&self) -> EntryView {
        EntryView {
            timestamp: self.timestamp,
            temperatures: self.temperatures@,
            compositions: self.compositions@,
            percentage_complete: self.percentage_complete,
            distilled_mass: self.distilled_mass,
        }
    }
}

/// The invariant every produced sample honors: one composition pair per
/// temperature, both sequences as long as the plate count that made them.
pub open spec fn entry_wf(e: EntryView) -> bool {
    e.temperatures.len() == e.compositions.len()
}

/// The mathematical values of a stored run.
pub open spec fn entries_view(s: Seq<ColumnEntry>) -> Seq<EntryView> {
    s.map_values(|e: ColumnEntry| e@)
}

fn clone_temps(v: &Vec<i64>) -> (r: Vec<i64>)
    ensures
        r@ == v@,
{
    let mut r: Vec<i64> = Vec::new();
    let mut i: usize = 0;
    while i < v.len()
        invariant
            i <= v.len(),
            r@ == v@.subrange(0, i as int),
        decreases v.len() - i,
    {
        r.push(v[i]);
        proof {
            assert(r@ =~= v@.subrange(0, i + 1));
        }
        i = i + 1;
    }
    proof {
        assert(v@.subrange(0, v.len() as int) =~= v@);
    }
    r
}

fn clone_comps(v: &Vec<CompositionResult>) -> (r: Vec<CompositionResult>)
    ensures
        r@ == v@,
{
    let mut r: Vec<CompositionResult> = Vec::new();
    let mut i: usize = 0;
    while i < v.len()
        invariant
            i <= v.len(),
            r@ == v@.subrange(0, i as int),
        decreases v.len() - i,
    {
        r.push(v[i]);
        proof {
            assert(r@ =~= v@.subrange(0, i + 1));
        }
        i = i + 1;
    }
    proof {
        assert(v@.subrange(0, v.len() as int) =~= v@);
    }
    r
}

impl Clone for ColumnEntry {
    /// A clone carries exactly the same sample.
    fn clone(&self) -> (r: Self)
        ensures
            r@ == self@,
    {
        ColumnEntry {
            timestamp: self.timestamp,
            temperatures: clone_temps(&self.temperatures),
            compositions: clone_comps(&self.compositions),
            percentage_complete: self.percentage_complete,
            distilled_mass: self.distilled_mass,
        }
    }
}

/// Clone a stored run entry by entry.
pub fn clone_entries(v: &Vec<ColumnEntry>) -> (r: Vec<ColumnEntry>)
    ensures
        entries_view(r@) == entries_view(v@),
        r@.len() == v@.len(),
{
    let mut r: Vec<ColumnEntry> = Vec::new();
    let mut i: usize = 0;
    while i < v.len()
        invariant
            i <= v.len(),
            r@.len() == i,
            forall|j: int| 0 <= j < i ==> r@[j]@ == v@[j]@,
        decreases v.len() - i,
    {
        r.push(v[i].clone());
        i = i + 1;
    }
    proof {
        assert(entries_view(r@) =~= entries_view(v@));
    }
    r
}

/// Where the columns of a tabular bulk source sit: which column holds the
/// timestamp, where the temperatures start, and where the optional
/// composition blocks start.
#[derive(Debug)]
pub struct ColumnStructure {
    pub number_plates: usize,
    pub has_compositions: bool,
    pub timestamp_column: usize,
    pub temperatures_start: usize,
    pub compositions_x_start: Option<usize>,
    pub compositions_y_start: Option<usize>,
}

/// The source the active provider draws from: the live column, a stored
/// run played back as recorded, or a stored run whose compositions are
/// recomputed from its temperatures. Exactly one is active at a time.
#[derive(Debug)]
pub enum DataSource {
    Live,
    Playback { data: Vec<ColumnEntry>, current_index: usize },
    Temperatures { data: Vec<ColumnEntry>, current_index: usize },
}

/// The mathematical value of a data source.
pub enum SourceView {
    Live,
    Playback { data: Seq<EntryView>, current_index: int },
    Temperatures { data: Seq<EntryView>, current_index: int },
}

impl View for DataSource {
    type V = SourceView;

    open spec fn view(&self) -> SourceView {
        match self {
            DataSource::Live => SourceView::Live,
            DataSource::Playback { data, current_index } => SourceView::Playback {
                data: entries_view(data@),
                current_index: *current_index as int,
            },
            DataSource::Temperatures { data, current_index } => SourceView::Temperatures {
                data: entries_view(data@),
                current_index: *current_index as int,
            },
        }
    }
}

impl Clone for DataSource {
    /// A clone denotes the same source.
    fn clone(&self) -> (r: Self)
        ensures
            r@ == self@,
    {
        match self {
            DataSource::Live => DataSource::Live,
            DataSource::Playback { data, current_index } => DataSource::Playback {
                data: clone_entries(data),
                current_index: *current_index,
            },
            DataSource::Temperatures { data, current_index } => DataSource::Temperatures {
                data: clone_entries(data),
                current_index: *current_index,
            },
        }
    }
}

} // verus!

verus! {

use crate::errors::{Error, ImportError};
use crate::math::{rdiv_any, sat_fx, SCALE};

/// `p` is a prefix of `s`.
pub open spec fn starts_with_spec(s: Seq<char>, p: Seq<char>) -> bool {
    p.len() <= s.len() && s.subrange(0, p.len() as int) == p
}

/// Whether the string starts with the given prefix.
pub fn str_starts_with(s: &str, prefix: &str) -> (r: bool)
    ensures
        r == starts_with_spec(s@, prefix@),
{
    let n = prefix.unicode_len();
    if n > s.unicode_len() {
        return false;
    }
    let mut i: usize = 0;
    while i < n
        invariant
            i <= n,
            n == prefix@.len(),
            n <= s@.len(),
            forall|j: int| 0 <= j < i ==> s@[j] == prefix@[j],
        decreases n - i,
    {
        if s.get_char(i) != prefix.get_char(i) {
            proof {
                assert(s@.subrange(0, n as int)[i as int] != prefix@[i as int]);
            }
            return false;
        }
        i = i + 1;
    }
    proof {
        assert(s@.subrange(0, n as int) =~= prefix@);
    }
    true
}

/// Scan the header cells from position `i`: the number of
/// temperature-labelled columns seen before the first composition label,
/// and whether such a label was seen at all.
pub open spec fn header_scan(h: Seq<Seq<char>>, i: int) -> (int, bool)
    decreases h.len() - i,
{
    if i < 0 || i >= h.len() {
        (0, false)
    } else if starts_with_spec(h[i], "Temperature"@) {
        let rest = header_scan(h, i + 1);
        (rest.0 + 1, rest.1)
    } else if starts_with_spec(h[i], "Composition x_1"@) {
        (0, true)
    } else {
        header_scan(h, i + 1)
    }
}

/// The plate count a header row denotes: the labelled count where there is
/// one, else a third of the data columns when compositions are present,
/// else every data column.
pub open spec fn plates_of_scan(len: int, counted: int, has_compositions: bool) -> int {
    if has_compositions && counted == 0 {
        (len - 1) / 3
    } else if counted == 0 {
        len - 1
    } else {
        counted
    }
}

/// The views of a row of header cells.
pub open spec fn headers_view(h: Seq<String>) -> Seq<Seq<char>> {
    h.map_values(|s: String| s@)
}

/// Detect the column layout of a tabular bulk source from its header row:
/// cell zero is the timestamp, the temperature columns follow, and when a
/// composition label appears the two composition blocks follow the
/// temperatures. Rejects a row of fewer than two cells.
pub fn parse_header_structure(headers: &Vec<String>) -> (r: Result<ColumnStructure, Error>)
    requires
        headers@.len() <= 0x7fff_ffff,
    ensures
        headers@.len() < 2 ==> r matches Err(Error::ImportError(ImportError::InvalidFormat(m))),
        headers@.len() >= 2 ==> (r matches Ok(c) && ({
            let scan = header_scan(headers_view(headers@), 1);
            let plates = plates_of_scan(headers@.len() as int, scan.0, scan.1);
            &&& c.number_plates == plates
            &&& c.has_compositions == scan.1
            &&& c.timestamp_column == 0
            &&& c.temperatures_start == 1
            &&& c.compositions_x_start == if scan.1 {
                Some((1 + plates) as usize)
            } else {
                None::<usize>
            }
            &&& c.compositions_y_start == if scan.1 {
                Some((1 + 2 * plates) as usize)
            } else {
                None::<usize>
            }
        })),
{
    if headers.len() < 2 {
        return Err(
            Error::ImportError(
                ImportError::InvalidFormat(String::from_str("insufficient columns")),
            ),
        );
    }
    let ghost hv = headers_view(headers@);
    let mut counted: usize = 0;
    let mut has_compositions: bool = false;
    let mut i: usize = 1;
    while i < headers.len() && !has_compositions
        invariant
            1 <= i <= headers@.len() <= 0x7fff_ffff,
            hv == headers_view(headers@),
            counted < i,
            header_scan(hv, 1) == (header_scan(hv, i as int).0 + counted, header_scan(
                hv,
                i as int,
            ).1),
            has_compositions ==> header_scan(hv, i as int) == (0int, true),
        decreases headers@.len() - i, (if has_compositions { 0int } else { 1int }),
    {
        if str_starts_with(headers[i].as_str(), "Temperature") {
            counted = counted + 1;
            i = i + 1;
        } else if str_starts_with(headers[i].as_str(), "Composition x_1") {
            has_compositions = true;
            proof {
                assert(header_scan(hv, i as int) == (0int, true));
            }
        } else {
            i = i + 1;
        }
    }
    proof {
        if !has_compositions {
            assert(header_scan(hv, headers@.len() as int) == (0int, false));
        }
    }
    let number_plates: usize = if has_compositions && counted == 0 {
        (headers.len() - 1) / 3
    } else if counted == 0 {
        headers.len() - 1
    } else {
        counted
    };
    Ok(
        ColumnStructure {
            number_plates,
            has_compositions,
            timestamp_column: 0,
            temperatures_start: 1,
            compositions_x_start: if has_compositions {
                Some(1 + number_plates)
            } else {
                None
            },
            compositions_y_start: if has_compositions {
                Some(1 + 2 * number_plates)
            } else {
                None
            },
        },
    )
}

/// The progress a row at `index` of `total` data rows denotes, as a
/// fixed-point percentage; zero when there are no rows at all.
pub open spec fn row_progress_spec(index: int, total: int) -> int {
    if total <= 0 {
        0
    } else {
        sat_fx(rdiv_any((index + 1) * 100 * SCALE, total))
    }
}

/// The percentage-complete value recorded with the row at `index`.
pub fn row_progress(index: usize, total: usize) -> (r: i64)
    ensures
        r as int == row_progress_spec(index as int, total as int),
{
    if total == 0 {
        return 0;
    }
    let p: i128 = ((index as i128) + 1) * 100 * (SCALE as i128);
    let q = crate::math::rdiv128(p, total as i128);
    proof {
        crate::math::lemma_rdiv_abs(p as int, total as int);
    }
    crate::math::sat_to_i64(q)
}

} // verus!
