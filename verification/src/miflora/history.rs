//! Planning of a history download: which records to fetch, in which pages,
//! and whether the device's store may be cleared afterwards.

use vstd::prelude::*;

verus! {

/// Number of records fetched between reconnects when the caller names none.
pub const DEFAULT_PAGE_SIZE: u16 = 10;

/// A half-open range `[from, to)` of record numbers.
#[derive(Clone, Copy, Debug, PartialEq, Eq, Structural)]
pub struct RecordRange {
    pub from: u16,
    pub to: u16,
}

/// What a history download fetches and how.
#[derive(Clone, Copy, Debug, PartialEq, Eq, Structural)]
pub struct HistoryPlan {
    pub range: RecordRange,
    pub page_size: u16,
    pub clear: bool,
}

/// The range that a request denotes on a device holding `total` records:
/// a missing `from` is 0, a missing `to` is `total`, an inverted pair is
/// swapped, and the upper end never exceeds `total`.
pub open spec fn normalized_range(from: Option<u16>, to: Option<u16>, total: u16) -> RecordRange {
    let f: u16 = match from {
        Some(v) => v,
        None => 0u16,
    };
    let t: u16 = match to {
        Some(v) => v,
        None => total,
    };
    let lo: u16 = if f > t { t } else { f };
    let hi: u16 = if f > t { f } else { t };
    RecordRange { from: lo, to: if hi > total { total } else { hi } }
}

/// The page size that a request denotes: the requested one if it is above
/// one, the default otherwise.
pub open spec fn effective_page_size(page: Option<u16>) -> u16 {
    match page {
        Some(p) => if p > 1 { p } else { DEFAULT_PAGE_SIZE },
        None => DEFAULT_PAGE_SIZE,
    }
}

/// Where the page that starts at `page_from` ends.
pub open spec fn page_end(page_from: u16, page_size: u16, to: u16) -> u16 {
    if page_from + page_size > to {
        to
    } else {
        (page_from + page_size) as u16
    }
}

/// The pages that cover a range, in the order they are fetched. A range
/// that holds nothing still has one page, which holds nothing.
pub open spec fn pages_of(from: u16, to: u16, page_size: u16) -> Seq<RecordRange>
    decreases to - from,
{
    let end = page_end(from, page_size, to);
    if end == to || page_size == 0 || from >= to {
        seq![RecordRange { from, to }]
    } else {
        seq![RecordRange { from, to: end }] + pages_of(end, to, page_size)
    }
}

/// The plan for a request, or `None` where the device holds no record.
pub open spec fn planned(
    from: Option<u16>,
    to: Option<u16>,
    page: Option<u16>,
    clear: bool,
    total: u16,
) -> Option<HistoryPlan> {
    if total == 0 {
        None
    } else {
        let range = normalized_range(from, to, total);
        Some(
            HistoryPlan {
                range,
                page_size: effective_page_size(page),
                clear: clear && range.from == 0 && range.to == total,
            },
        )
    }
}

pub fn normalize_range(from: Option<u16>, to: Option<u16>, total: u16) -> (r: RecordRange)
    ensures
        r == normalized_range(from, to, total),
{
    let mut lo: u16 = match from {
        Some(v) => v,
        None => 0,
    };
    let mut hi: u16 = match to {
        Some(v) => v,
        None => total,
    };
    if lo > hi {
        let t: u16 = lo;
        lo = hi;
        hi = t;
    }
    if hi > total {
        hi = total;
    }
    RecordRange { from: lo, to: hi }
}

pub fn page_size_or_default(page: Option<u16>) -> (r: u16)
    ensures
        r == effective_page_size(page),
        r >= 2,
{
    match page {
        Some(p) => if p > 1 { p } else { DEFAULT_PAGE_SIZE },
        None => DEFAULT_PAGE_SIZE,
    }
}

pub fn next_page_end(page_from: u16, page_size: u16, to: u16) -> (r: u16)
    ensures
        r == page_end(page_from, page_size, to),
{
    match page_from.checked_add(page_size) {
        Some(end) => if end > to { to } else { end },
        None => to,
    }
}

pub fn plan_history(
    from: Option<u16>,
    to: Option<u16>,
    page: Option<u16>,
    clear: bool,
    total: u16,
) -> (r: Option<HistoryPlan>)
    ensures
        r == planned(from, to, page, clear, total),
{
    if total == 0 {
        return None;
    }
    let range = normalize_range(from, to, total);
    let page_size = page_size_or_default(page);
    Some(HistoryPlan { range, page_size, clear: clear && range.from == 0 && range.to == total })
}

impl HistoryPlan {
    /// The pages of this plan, in the order they are fetched.
    pub fn pages(&self) -> (r: Vec<RecordRange>)
        ensures
            r@ == pages_of(self.range.from, self.range.to, self.page_size),
    {
        let to: u16 = self.range.to;
        let size: u16 = self.page_size;
        let mut out: Vec<RecordRange> = Vec::new();
        let mut page_from: u16 = self.range.from;
        loop
            invariant
                to == self.range.to,
                size == self.page_size,
                out@ + pages_of(page_from, to, size) == pages_of(
                    self.range.from,
                    to,
                    size,
                ),
            decreases to - page_from,
        {
            let end: u16 = next_page_end(page_from, size, to);
            if end == to || size == 0 || page_from >= to {
                out.push(RecordRange { from: page_from, to });
                return out;
            }
            out.push(RecordRange { from: page_from, to: end });
            assert(out@ + pages_of(end, to, size) == pages_of(self.range.from, to, size)) by {
                let prev = out@.drop_last();
                assert(out@ == prev + seq![RecordRange { from: page_from, to: end }]);
                assert(out@ + pages_of(end, to, size) =~= prev + (seq![
                    RecordRange { from: page_from, to: end },
                ] + pages_of(end, to, size)));
            }
            page_from = end;
        }
    }
}

/// When the sensor was started, in seconds since the epoch: `device_epoch`
/// seconds before `now`. `None` where that lies before the epoch.
pub fn device_boot_time(now: u64, device_epoch: u32) -> (r: Option<u64>)
    ensures
        r == (if now >= device_epoch {
            Some((now - device_epoch) as u64)
        } else {
            None
        }),
{
    now.checked_sub(device_epoch as u64)
}

/// The time that is printed for a record: `record_epoch` seconds before
/// the sensor was started. `None` where that lies before the epoch.
pub fn record_time(device_boot_time: u64, record_epoch: u32) -> (r: Option<u64>)
    ensures
        r == (if device_boot_time >= record_epoch {
            Some((device_boot_time - record_epoch) as u64)
        } else {
            None
        }),
{
    device_boot_time.checked_sub(record_epoch as u64)
}

/// The upper end of a normalized range never exceeds the number of records
/// on the device, whatever was requested.
pub proof fn range_is_clamped(from: Option<u16>, to: Option<u16>, total: u16)
    ensures
        normalized_range(from, to, total).to <= total,
{
}

/// A request whose bounds are inverted denotes the same range as the
/// request with the bounds exchanged.
pub proof fn inverted_bounds_are_swapped(from: u16, to: u16, total: u16)
    ensures
        normalized_range(Some(from), Some(to), total) == normalized_range(
            Some(to),
            Some(from),
            total,
        ),
{
}

/// A device without records has no plan: nothing is fetched from it.
pub proof fn empty_store_has_no_plan(
    from: Option<u16>,
    to: Option<u16>,
    page: Option<u16>,
    clear: bool,
    total: u16,
)
    ensures
        planned(from, to, page, clear, total) is None <==> total == 0,
{
}

/// The store is cleared only after a download of every record.
pub proof fn clear_needs_full_download(
    from: Option<u16>,
    to: Option<u16>,
    page: Option<u16>,
    clear: bool,
    total: u16,
)
    requires
        total > 0,
    ensures
        planned(from, to, page, clear, total).unwrap().clear ==> clear && normalized_range(
            from,
            to,
            total,
        ) == (RecordRange { from: 0, to: total }),
{
}

/// The pages of a range follow one another without gap or overlap from its
/// lower to its upper end, and none holds more than `page_size` records.
pub proof fn pages_partition_range(from: u16, to: u16, page_size: u16)
    requires
        from <= to,
        page_size > 0,
    ensures
        pages_of(from, to, page_size).len() >= 1,
        pages_of(from, to, page_size).first().from == from,
        pages_of(from, to, page_size).last().to == to,
        forall|i: int|
            0 <= i < pages_of(from, to, page_size).len() ==> {
                let p = #[trigger] pages_of(from, to, page_size)[i];
                p.from <= p.to && p.to - p.from <= page_size
            },
        forall|i: int|
            0 <= i < pages_of(from, to, page_size).len() - 1 ==> (#[trigger] pages_of(
                from,
                to,
                page_size,
            )[i]).to == pages_of(from, to, page_size)[i + 1].from,
    decreases to - from,
{
    let end = page_end(from, page_size, to);
    if end == to || from >= to {
    } else {
        pages_partition_range(end, to, page_size);
        let rest = pages_of(end, to, page_size);
        let all = pages_of(from, to, page_size);
        assert(all == seq![RecordRange { from, to: end }] + rest);
        assert forall|i: int| 0 <= i < all.len() implies {
            let p = #[trigger] all[i];
            p.from <= p.to && p.to - p.from <= page_size
        } by {
            if i > 0 {
                assert(all[i] == rest[i - 1]);
            }
        }
        assert forall|i: int| 0 <= i < all.len() - 1 implies (#[trigger] all[i]).to == all[i
            + 1].from by {
            assert(all[i + 1] == rest[i]);
            if i > 0 {
                assert(all[i] == rest[i - 1]);
            }
        }
    }
}

} // verus!
