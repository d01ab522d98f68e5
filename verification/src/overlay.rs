//! What the full-screen notification overlay decides: how large it is and
//! what its rest countdown shows.
use vstd::prelude::*;

use crate::clock::{clock_text, format_clock};

verus! {

/// The smallest overlay width, whatever the monitors.
pub open spec fn min_overlay_width() -> i32 {
    1920
}

/// The smallest overlay height, whatever the monitors.
pub open spec fn min_overlay_height() -> i32 {
    1080
}

/// The larger of two numbers.
pub open spec fn max_i32(a: i32, b: i32) -> i32 {
    if b > a {
        b
    } else {
        a
    }
}

/// The largest width among `monitors` (pairs of width and height), and at
/// least `floor`.
pub open spec fn widest(monitors: Seq<(i32, i32)>, floor: i32) -> i32
    decreases monitors.len(),
{
    if monitors.len() == 0 {
        floor
    } else {
        max_i32(widest(monitors.drop_last(), floor), monitors.last().0)
    }
}

/// The largest height among `monitors` (pairs of width and height), and at
/// least `floor`.
pub open spec fn tallest(monitors: Seq<(i32, i32)>, floor: i32) -> i32
    decreases monitors.len(),
{
    if monitors.len() == 0 {
        floor
    } else {
        max_i32(tallest(monitors.drop_last(), floor), monitors.last().1)
    }
}

/// The widest width is at least the floor and every monitor's width, and it
/// is the floor or one of those widths.
pub proof fn lemma_widest_is_max(monitors: Seq<(i32, i32)>, floor: i32)
    ensures
        widest(monitors, floor) >= floor,
        forall|i: int| 0 <= i < monitors.len() ==> widest(monitors, floor) >= #[trigger] monitors[i].0,
        widest(monitors, floor) == floor || exists|i: int|
            0 <= i < monitors.len() && widest(monitors, floor) == #[trigger] monitors[i].0,
    decreases monitors.len(),
{
    if monitors.len() > 0 {
        let rest = monitors.drop_last();
        lemma_widest_is_max(rest, floor);
        assert forall|i: int| 0 <= i < monitors.len() implies widest(monitors, floor)
            >= #[trigger] monitors[i].0 by {
            if i < monitors.len() - 1 {
                assert(monitors[i] == rest[i]);
            }
        }
        if widest(monitors, floor) != floor {
            if widest(monitors, floor) == monitors.last().0 {
                assert(monitors[monitors.len() - 1].0 == widest(monitors, floor));
            } else {
                let j = choose|j: int| 0 <= j < rest.len() && widest(rest, floor) == #[trigger] rest[j].0;
                assert(monitors[j] == rest[j]);
            }
        }
    }
}

/// The tallest height is at least the floor and every monitor's height, and
/// it is the floor or one of those heights.
pub proof fn lemma_tallest_is_max(monitors: Seq<(i32, i32)>, floor: i32)
    ensures
        tallest(monitors, floor) >= floor,
        forall|i: int| 0 <= i < monitors.len() ==> tallest(monitors, floor) >= #[trigger] monitors[i].1,
        tallest(monitors, floor) == floor || exists|i: int|
            0 <= i < monitors.len() && tallest(monitors, floor) == #[trigger] monitors[i].1,
    decreases monitors.len(),
{
    if monitors.len() > 0 {
        let rest = monitors.drop_last();
        lemma_tallest_is_max(rest, floor);
        assert forall|i: int| 0 <= i < monitors.len() implies tallest(monitors, floor)
            >= #[trigger] monitors[i].1 by {
            if i < monitors.len() - 1 {
                assert(monitors[i] == rest[i]);
            }
        }
        if tallest(monitors, floor) != floor {
            if tallest(monitors, floor) == monitors.last().1 {
                assert(monitors[monitors.len() - 1].1 == tallest(monitors, floor));
            } else {
                let j = choose|j: int| 0 <= j < rest.len() && tallest(rest, floor) == #[trigger] rest[j].1;
                assert(monitors[j] == rest[j]);
            }
        }
    }
}

/// The overlay's size for the given monitor sizes (width, height): as wide
/// as the widest monitor and as tall as the tallest, but never smaller than
/// 1920 by 1080.
pub fn overlay_size(monitors: &Vec<(i32, i32)>) -> (r: (i32, i32))
    ensures
        r.0 == widest(monitors@, min_overlay_width()),
        r.1 == tallest(monitors@, min_overlay_height()),
        r.0 >= min_overlay_width(),
        r.1 >= min_overlay_height(),
        forall|i: int| 0 <= i < monitors.len() ==> r.0 >= (#[trigger] monitors@[i]).0 && r.1 >= monitors@[i].1,
{
    let mut w: i32 = 1920;
    let mut h: i32 = 1080;
    let mut i: usize = 0;
    while i < monitors.len()
        invariant
            i <= monitors.len(),
            w == widest(monitors@.take(i as int), min_overlay_width()),
            h == tallest(monitors@.take(i as int), min_overlay_height()),
        decreases monitors.len() - i,
    {
        let (mw, mh) = monitors[i];
        if mw > w {
            w = mw;
        }
        if mh > h {
            h = mh;
        }
        assert(monitors@.take(i + 1).drop_last() =~= monitors@.take(i as int));
        i = i + 1;
    }
    assert(monitors@.take(i as int) =~= monitors@);
    proof {
        lemma_widest_is_max(monitors@, min_overlay_width());
        lemma_tallest_is_max(monitors@, min_overlay_height());
    }
    (w, h)
}

/// One second of the overlay's rest countdown: while rest time is left, the
/// label to show; `None` once the rest is over and the confirm button is to
/// be enabled.
pub fn rest_label(rest: u64) -> (r: Option<String>)
    ensures
        rest > 0 ==> r is Some && r.unwrap()@ == clock_text(rest as nat),
        rest == 0 ==> r is None,
{
    if rest > 0 {
        Some(format_clock(rest))
    } else {
        None
    }
}

} // verus!
