//! The update engine: what has to travel to the controller for a frame.
//!
//! A frame is compared with the last one that was transmitted. The first
//! and the last byte that differ give two corners of a rectangle in the
//! controller's column and page space; the controller is told about that
//! rectangle and is then sent the bytes of the changed run that lie in it.
//! Two equal frames cost no transfer at all.

use vstd::prelude::*;
use crate::protocol::{
    push_window_commands,
    window_commands,
    Transfer,
    Window,
    CONTROLLER_RAM,
    PAGE_WIDTH,
};

verus! {

/// Whether index `i` is inside `cur` and the two buffers disagree there.
pub open spec fn differs_at(cur: Seq<u8>, prev: Seq<u8>, i: int) -> bool {
    0 <= i < cur.len() && cur[i] != prev[i]
}

/// Whether the two buffers disagree anywhere.
pub open spec fn changed(cur: Seq<u8>, prev: Seq<u8>) -> bool {
    exists|i: int| differs_at(cur, prev, i)
}

/// `k` is the lowest index at which the buffers disagree.
pub open spec fn is_first_change(cur: Seq<u8>, prev: Seq<u8>, k: int) -> bool {
    &&& differs_at(cur, prev, k)
    &&& forall|i: int| i < k ==> !#[trigger] differs_at(cur, prev, i)
}

/// `k` is one past the highest index at which the buffers disagree.
pub open spec fn is_last_change_exclusive(cur: Seq<u8>, prev: Seq<u8>, k: int) -> bool {
    &&& differs_at(cur, prev, k - 1)
    &&& forall|i: int| k <= i ==> !#[trigger] differs_at(cur, prev, i)
}

/// The lowest index at which the buffers disagree, where they do.
pub open spec fn first_change(cur: Seq<u8>, prev: Seq<u8>) -> int {
    choose|k: int| is_first_change(cur, prev, k)
}

/// One past the highest index at which the buffers disagree, where they do.
pub open spec fn last_change_exclusive(cur: Seq<u8>, prev: Seq<u8>) -> int {
    choose|k: int| is_last_change_exclusive(cur, prev, k)
}

/// There is only one lowest differing index.
pub proof fn lemma_first_change_unique(cur: Seq<u8>, prev: Seq<u8>, k: int)
    requires
        is_first_change(cur, prev, k),
    ensures
        first_change(cur, prev) == k,
{
    let c = first_change(cur, prev);
    assert(is_first_change(cur, prev, c));
    if c < k {
        assert(!differs_at(cur, prev, c));
    }
    if k < c {
        assert(!differs_at(cur, prev, k));
    }
}

/// There is only one highest differing index.
pub proof fn lemma_last_change_unique(cur: Seq<u8>, prev: Seq<u8>, k: int)
    requires
        is_last_change_exclusive(cur, prev, k),
    ensures
        last_change_exclusive(cur, prev) == k,
{
    let c = last_change_exclusive(cur, prev);
    assert(is_last_change_exclusive(cur, prev, c));
    if c < k {
        assert(!differs_at(cur, prev, k - 1));
    }
    if k < c {
        assert(!differs_at(cur, prev, c - 1));
    }
}

/// Scans upwards for the first byte in which `cur` differs from `prev`.
pub fn find_first_change(cur: &Vec<u8>, prev: &Vec<u8>) -> (found: Option<usize>)
    requires
        cur.len() == prev.len(),
    ensures
        match found {
            Some(k) => is_first_change(cur@, prev@, k as int) && first_change(cur@, prev@) == k,
            None => !changed(cur@, prev@),
        },
{
    let mut i: usize = 0;
    while i < cur.len()
        invariant
            i <= cur.len(),
            cur.len() == prev.len(),
            forall|j: int| j < i ==> !#[trigger] differs_at(cur@, prev@, j),
        decreases cur.len() - i,
    {
        if cur[i] != prev[i] {
            proof {
                lemma_first_change_unique(cur@, prev@, i as int);
            }
            return Some(i);
        }
        i = i + 1;
    }
    None
}

/// Scans downwards for the last byte in which `cur` differs from `prev`
/// and returns the index after it.
pub fn find_last_change_exclusive(cur: &Vec<u8>, prev: &Vec<u8>) -> (found: Option<usize>)
    requires
        cur.len() == prev.len(),
    ensures
        match found {
            Some(k) => is_last_change_exclusive(cur@, prev@, k as int) && last_change_exclusive(
                cur@,
                prev@,
            ) == k,
            None => !changed(cur@, prev@),
        },
{
    let mut i: usize = cur.len();
    while i > 0
        invariant
            i <= cur.len(),
            cur.len() == prev.len(),
            forall|j: int| i <= j ==> !#[trigger] differs_at(cur@, prev@, j),
        decreases i,
    {
        if cur[i - 1] != prev[i - 1] {
            proof {
                lemma_last_change_unique(cur@, prev@, i as int);
            }
            return Some(i);
        }
        i = i - 1;
    }
    None
}

/// The addressing window for a changed run: its corners are the first and
/// the last differing byte, each turned into a column (`index mod 128`) and
/// a page (`index / 128`).
pub open spec fn diff_window(first: int, last_exclusive: int) -> Window {
    Window {
        start_column: (first % (PAGE_WIDTH as int)) as u8,
        end_column: ((last_exclusive - 1) % (PAGE_WIDTH as int)) as u8,
        start_page: (first / (PAGE_WIDTH as int)) as u8,
        end_page: ((last_exclusive - 1) / (PAGE_WIDTH as int)) as u8,
    }
}

/// Computes the addressing window of the run `first .. last_exclusive`.
/// The pages always run forwards and everything stays in the controller's
/// range; the columns run forwards at least when the run stays in one page.
pub fn window_of(first: usize, last_exclusive: usize) -> (window: Window)
    requires
        first < last_exclusive <= CONTROLLER_RAM,
    ensures
        window == diff_window(first as int, last_exclusive as int),
        window.start_column == first % 128,
        window.end_column == (last_exclusive - 1) % 128,
        window.start_page == first / 128,
        window.end_page == (last_exclusive - 1) / 128,
        window.start_column < 128,
        window.end_column < 128,
        window.start_page <= window.end_page < 8,
        window.start_page == window.end_page ==> window.well_formed(),
{
    let last: usize = last_exclusive - 1;
    Window {
        start_column: (first % PAGE_WIDTH) as u8,
        end_column: (last % PAGE_WIDTH) as u8,
        start_page: (first / PAGE_WIDTH) as u8,
        end_page: (last / PAGE_WIDTH) as u8,
    }
}

/// The data transfers for the run `from .. to`: in rising order, the byte
/// of every index of the run that lies in `window`.
pub open spec fn window_data(cur: Seq<u8>, window: Window, from: int, to: int) -> Seq<Transfer>
    decreases to - from,
{
    if to <= from {
        Seq::empty()
    } else {
        let head = window_data(cur, window, from, to - 1);
        if window.contains(to - 1) {
            head.push(Transfer::Data(cur[to - 1]))
        } else {
            head
        }
    }
}

/// Everything that a flush of `cur` against the last transmitted frame
/// `prev` hands to the transport, in order: nothing where the frames agree;
/// otherwise the commands for the window of the changed run, then the
/// run's data in that window.
pub open spec fn flush_plan(cur: Seq<u8>, prev: Seq<u8>) -> Seq<Transfer> {
    if !changed(cur, prev) {
        Seq::empty()
    } else {
        let first = first_change(cur, prev);
        let last = last_change_exclusive(cur, prev);
        let window = diff_window(first, last);
        window_commands(window) + window_data(cur, window, first, last)
    }
}

/// Works out what a flush of `cur` against `prev` has to transmit.
pub fn plan_flush(cur: &Vec<u8>, prev: &Vec<u8>) -> (plan: Vec<Transfer>)
    requires
        cur.len() == prev.len(),
        cur.len() <= CONTROLLER_RAM,
    ensures
        plan@ == flush_plan(cur@, prev@),
{
    let mut plan: Vec<Transfer> = Vec::new();
    let first: usize = match find_first_change(cur, prev) {
        Some(k) => k,
        None => {
            return plan;
        },
    };
    let last: usize = match find_last_change_exclusive(cur, prev) {
        Some(k) => k,
        None => {
            assert(differs_at(cur@, prev@, first as int));
            return plan;
        },
    };
    assert(first < last) by {
        if last <= first {
            assert(!differs_at(cur@, prev@, first as int));
        }
    }
    let window: Window = window_of(first, last);
    push_window_commands(&mut plan, window);
    assert(plan@ =~= window_commands(window));
    let mut i: usize = first;
    while i < last
        invariant
            first <= i <= last <= cur.len(),
            plan@ == window_commands(window) + window_data(cur@, window, first as int, i as int),
        decreases last - i,
    {
        if window.holds(i) {
            plan.push(Transfer::Data(cur[i]));
        }
        i = i + 1;
        assert(plan@ =~= window_commands(window) + window_data(
            cur@,
            window,
            first as int,
            i as int,
        ));
    }
    plan
}

/// The whole of `cur` as data transfers, in buffer order.
pub open spec fn frame_data(cur: Seq<u8>) -> Seq<Transfer> {
    Seq::new(cur.len(), |i: int| Transfer::Data(cur[i]))
}

/// Everything that an unconditional transmission of `cur` hands to the
/// transport: the commands for the full window, then every byte.
pub open spec fn full_plan(cur: Seq<u8>) -> Seq<Transfer> {
    window_commands(Window::full()) + frame_data(cur)
}

/// Works out what an unconditional transmission of `cur` has to transmit.
pub fn plan_full(cur: &Vec<u8>) -> (plan: Vec<Transfer>)
    ensures
        plan@ == full_plan(cur@),
{
    let mut plan: Vec<Transfer> = Vec::new();
    let window = Window { start_column: 0, end_column: 127, start_page: 0, end_page: 7 };
    push_window_commands(&mut plan, window);
    let mut i: usize = 0;
    while i < cur.len()
        invariant
            i <= cur.len(),
            window == Window::full(),
            plan@ == window_commands(window) + frame_data(cur@.take(i as int)),
        decreases cur.len() - i,
    {
        plan.push(Transfer::Data(cur[i]));
        i = i + 1;
        assert(plan@ =~= window_commands(window) + frame_data(cur@.take(i as int)));
    }
    assert(cur@.take(i as int) =~= cur@);
    plan
}

/// A frame that equals the last transmitted one costs no transfer, and
/// only such a frame does: any difference costs at least the six window
/// commands.
pub proof fn lemma_plan_empty_iff_unchanged(cur: Seq<u8>, prev: Seq<u8>)
    requires
        cur.len() == prev.len(),
    ensures
        cur == prev <==> flush_plan(cur, prev).len() == 0,
        cur != prev ==> flush_plan(cur, prev).len() >= 6,
{
    if cur == prev {
        assert forall|i: int| !differs_at(cur, prev, i) by {}
    } else {
        assert(!(cur =~= prev));
        let i = choose|i: int| 0 <= i < cur.len() && cur[i] != prev[i];
        assert(differs_at(cur, prev, i));
    }
}

/// After a flush of a blank frame the next flush, with no pixel written in
/// between, is silent: the live frame is blank again and so is the frame
/// it is compared with.
pub proof fn lemma_flush_twice_is_silent(frame: Seq<u8>)
    requires
        frame == crate::framebuffer::blank(frame.len() as int),
    ensures
        flush_plan(crate::framebuffer::blank(frame.len() as int), frame) == Seq::<
            Transfer,
        >::empty(),
{
    lemma_plan_empty_iff_unchanged(crate::framebuffer::blank(frame.len() as int), frame);
    assert(flush_plan(crate::framebuffer::blank(frame.len() as int), frame) =~= Seq::<
        Transfer,
    >::empty());
}

/// A run that stays in one page is streamed whole: every byte from the
/// first to the last that changed, and nothing else.
pub proof fn lemma_single_page_stream(cur: Seq<u8>, first: int, last_exclusive: int)
    requires
        0 <= first < last_exclusive <= CONTROLLER_RAM,
        last_exclusive <= cur.len(),
        first / 128 == (last_exclusive - 1) / 128,
    ensures
        diff_window(first, last_exclusive).well_formed(),
        window_data(cur, diff_window(first, last_exclusive), first, last_exclusive)
            == frame_data(cur.subrange(first, last_exclusive)),
{
    let window = diff_window(first, last_exclusive);
    assert forall|i: int| first <= i < last_exclusive implies window.contains(i) by {
        assert(i / 128 == first / 128);
    }
    lemma_window_data_all_inside(cur, window, first, last_exclusive);
    assert(window_data(cur, window, first, last_exclusive) =~= frame_data(
        cur.subrange(first, last_exclusive),
    ));
}

/// A window whose columns run backwards holds no byte, so a run whose last
/// byte lies left of its first one, in a later page, is announced by its
/// window commands and followed by no data at all.
pub proof fn lemma_crossed_window_streams_nothing(
    cur: Seq<u8>,
    window: Window,
    from: int,
    to: int,
)
    requires
        0 <= from,
        window.start_column > window.end_column,
    ensures
        window_data(cur, window, from, to) == Seq::<Transfer>::empty(),
    decreases to - from,
{
    if from < to {
        lemma_crossed_window_streams_nothing(cur, window, from, to - 1);
        assert(!window.contains(to - 1));
    }
}

/// Where every index of a run lies in the window, the run's data is the
/// run itself.
proof fn lemma_window_data_all_inside(cur: Seq<u8>, window: Window, from: int, to: int)
    requires
        from <= to,
        forall|i: int| from <= i < to ==> window.contains(i),
    ensures
        window_data(cur, window, from, to).len() == to - from,
        forall|j: int|
            0 <= j < to - from ==> #[trigger] window_data(cur, window, from, to)[j]
                == Transfer::Data(cur[from + j]),
    decreases to - from,
{
    if from < to {
        lemma_window_data_all_inside(cur, window, from, to - 1);
        assert(window.contains(to - 1));
    }
}

/// Where a single byte differs, the changed run is that byte, the window
/// is exactly its column and its page, and the flush sends the six window
/// commands followed by that one byte.
pub proof fn lemma_single_byte_diff(cur: Seq<u8>, prev: Seq<u8>, k: int)
    requires
        cur.len() == prev.len(),
        cur.len() <= CONTROLLER_RAM,
        0 <= k < cur.len(),
        cur[k] != prev[k],
        forall|i: int| 0 <= i < cur.len() && i != k ==> cur[i] == prev[i],
    ensures
        first_change(cur, prev) == k,
        last_change_exclusive(cur, prev) == k + 1,
        diff_window(k, k + 1) == (Window {
            start_column: (k % 128) as u8,
            end_column: (k % 128) as u8,
            start_page: (k / 128) as u8,
            end_page: (k / 128) as u8,
        }),
        diff_window(k, k + 1).well_formed(),
        flush_plan(cur, prev) == window_commands(diff_window(k, k + 1)).push(
            Transfer::Data(cur[k]),
        ),
{
    assert(differs_at(cur, prev, k));
    lemma_first_change_unique(cur, prev, k);
    lemma_last_change_unique(cur, prev, k + 1);
    let window = diff_window(k, k + 1);
    lemma_window_data_all_inside(cur, window, k, k + 1);
    assert(window_data(cur, window, k, k + 1) =~= seq![Transfer::Data(cur[k])]);
    assert(flush_plan(cur, prev) =~= window_commands(window).push(Transfer::Data(cur[k])));
}

/// An unconditional transmission is one window-programming sequence for
/// the full geometry followed by exactly one data byte per byte of the
/// frame, in buffer order; for a blank frame every one of them is zero.
pub proof fn lemma_full_plan_shape(cur: Seq<u8>)
    ensures
        full_plan(cur).len() == 6 + cur.len(),
        full_plan(cur).take(6) == window_commands(
            Window { start_column: 0, end_column: 127, start_page: 0, end_page: 7 },
        ),
        forall|i: int|
            0 <= i < cur.len() ==> #[trigger] full_plan(cur)[6 + i] == Transfer::Data(cur[i]),
        cur == crate::framebuffer::blank(cur.len() as int) ==> forall|i: int|
            6 <= i < full_plan(cur).len() ==> #[trigger] full_plan(cur)[i] == Transfer::Data(0u8),
{
    assert(full_plan(cur).take(6) =~= window_commands(Window::full()));
}

} // verus!
