//! Keyboard focus traversal in reading order.
use vstd::prelude::*;
use vstd::set_lib::{lemma_int_range, lemma_len_subset, set_int_range};
use crate::colors::Swatch;
use crate::components::{FocusState, Focusable};

verus! {

/// A focusable widget as traversal sees it: its identity and its position.
#[derive(Clone, Copy, Debug, PartialEq, Eq, Structural)]
pub struct FocusTarget {
    /// Stable identifier of the widget.
    pub id: u64,
    /// Horizontal screen position.
    pub x: i64,
    /// Vertical screen position (grows downwards).
    pub y: i64,
}

/// Which widget, if any, has keyboard focus; kept from frame to frame.
#[derive(Clone, Copy, Debug, PartialEq, Eq, Structural, Default)]
pub struct FocusManager {
    pub current: Option<u64>,
}

/// Item `i` comes before item `j` in reading order: higher on screen
/// first, then further left, then earlier in the list.
pub open spec fn precedes(items: Seq<FocusTarget>, i: int, j: int) -> bool {
    items[i].y < items[j].y || (items[i].y == items[j].y && (items[i].x < items[j].x || (
    items[i].x == items[j].x && i < j)))
}

pub open spec fn valid_index(items: Seq<FocusTarget>, i: int) -> bool {
    0 <= i < items.len()
}

/// Item `r` is the first in reading order.
pub open spec fn is_first(items: Seq<FocusTarget>, r: int) -> bool {
    valid_index(items, r) && forall|k: int| valid_index(items, k) ==> !precedes(items, k, r)
}

/// Some item comes after item `c`.
pub open spec fn has_successor(items: Seq<FocusTarget>, c: int) -> bool {
    exists|k: int| valid_index(items, k) && precedes(items, c, k)
}

/// Item `r` comes right after item `c`.
pub open spec fn is_successor(items: Seq<FocusTarget>, c: int, r: int) -> bool {
    valid_index(items, r) && precedes(items, c, r) && forall|k: int|
        valid_index(items, k) && precedes(items, c, k) ==> !precedes(items, k, r)
}

/// Item `r` is the one after item `c`, wrapping from the last to the first.
pub open spec fn is_next(items: Seq<FocusTarget>, c: int, r: int) -> bool {
    if has_successor(items, c) {
        is_successor(items, c, r)
    } else {
        is_first(items, r)
    }
}

pub open spec fn next_index(items: Seq<FocusTarget>, c: int) -> int {
    choose|r: int| is_next(items, c, r)
}

pub open spec fn first_index(items: Seq<FocusTarget>) -> int {
    choose|r: int| is_first(items, r)
}

pub open spec fn has_id(items: Seq<FocusTarget>, id: u64) -> bool {
    exists|i: int| valid_index(items, i) && items[i].id == id
}

/// Item `i` is the first in the list with identifier `id`.
pub open spec fn is_position_of(items: Seq<FocusTarget>, id: u64, i: int) -> bool {
    valid_index(items, i) && items[i].id == id && forall|k: int| 0 <= k < i ==> items[k].id != id
}

pub open spec fn position_of(items: Seq<FocusTarget>, id: u64) -> int {
    choose|i: int| is_position_of(items, id, i)
}

/// The focus after one press of the advance key: the first widget in
/// reading order when nothing has focus, the next one (wrapping) after the
/// focused widget, and no change when the focused widget is not among the
/// items.
pub open spec fn advance_focus(items: Seq<FocusTarget>, current: Option<u64>) -> Option<u64> {
    match current {
        Some(id) => if has_id(items, id) {
            Some(items[next_index(items, position_of(items, id))].id)
        } else {
            current
        },
        None => if items.len() == 0 {
            None
        } else {
            Some(items[first_index(items)].id)
        },
    }
}

/// The focus after `k` presses of the advance key.
pub open spec fn advance_focus_times(items: Seq<FocusTarget>, current: Option<u64>, k: nat) -> Option<u64>
    decreases k,
{
    if k == 0 {
        current
    } else {
        advance_focus(items, advance_focus_times(items, current, (k - 1) as nat))
    }
}

pub open spec fn distinct_ids(items: Seq<FocusTarget>) -> bool {
    forall|i: int, j: int|
        valid_index(items, i) && valid_index(items, j) && i != j ==> items[i].id != items[j].id
}

proof fn lemma_next_unique(items: Seq<FocusTarget>, c: int, r1: int, r2: int)
    requires
        is_next(items, c, r1),
        is_next(items, c, r2),
    ensures
        r1 == r2,
{
}

proof fn lemma_first_unique(items: Seq<FocusTarget>, r1: int, r2: int)
    requires
        is_first(items, r1),
        is_first(items, r2),
    ensures
        r1 == r2,
{
}

/// Reading order is a strict total order on the items.
proof fn lemma_precedes_order(items: Seq<FocusTarget>, a: int, b: int, c: int)
    ensures
        !precedes(items, a, a),
        precedes(items, a, b) && precedes(items, b, c) ==> precedes(items, a, c),
        a != b ==> precedes(items, a, b) || precedes(items, b, a),
        precedes(items, a, b) ==> !precedes(items, b, a),
{
}

proof fn lemma_position_unique(items: Seq<FocusTarget>, id: u64, i1: int, i2: int)
    requires
        is_position_of(items, id, i1),
        is_position_of(items, id, i2),
    ensures
        i1 == i2,
{
}

fn precedes_exec(items: &Vec<FocusTarget>, i: usize, j: usize) -> (b: bool)
    requires
        i < items@.len(),
        j < items@.len(),
    ensures
        b == precedes(items@, i as int, j as int),
{
    let a = items[i];
    let o = items[j];
    a.y < o.y || (a.y == o.y && (a.x < o.x || (a.x == o.x && i < j)))
}

/// Index of the first item in reading order.
fn first_in_order(items: &Vec<FocusTarget>) -> (r: usize)
    requires
        items@.len() > 0,
    ensures
        is_first(items@, r as int),
{
    let mut best: usize = 0;
    let mut i: usize = 1;
    while i < items.len()
        invariant
            1 <= i <= items@.len(),
            best < i,
            forall|k: int| 0 <= k < i ==> !precedes(items@, k, best as int),
        decreases items@.len() - i,
    {
        if precedes_exec(items, i, best) {
            assert forall|k: int| 0 <= k < i + 1 implies !precedes(items@, k, i as int) by {
                lemma_precedes_order(items@, k, i as int, best as int);
            }
            best = i;
        }
        i = i + 1;
    }
    best
}

/// Index of the item right after item `c` in reading order, if any.
fn successor_in_order(items: &Vec<FocusTarget>, c: usize) -> (r: Option<usize>)
    requires
        c < items@.len(),
    ensures
        match r {
            Some(b) => is_successor(items@, c as int, b as int),
            None => !has_successor(items@, c as int),
        },
{
    let mut best: Option<usize> = None;
    let mut i: usize = 0;
    while i < items.len()
        invariant
            i <= items@.len(),
            c < items@.len(),
            match best {
                Some(b) => b < i && precedes(items@, c as int, b as int) && forall|k: int|
                    0 <= k < i && precedes(items@, c as int, k) ==> !precedes(items@, k, b as int),
                None => forall|k: int| 0 <= k < i ==> !precedes(items@, c as int, k),
            },
        decreases items@.len() - i,
    {
        if precedes_exec(items, c, i) {
            match best {
                Some(b) => {
                    if precedes_exec(items, i, b) {
                        assert forall|k: int|
                            0 <= k < i + 1 && precedes(items@, c as int, k) implies !precedes(
                            items@,
                            k,
                            i as int,
                        ) by {
                            lemma_precedes_order(items@, k, i as int, b as int);
                        }
                        best = Some(i);
                    }
                },
                None => {
                    best = Some(i);
                },
            }
        }
        i = i + 1;
    }
    best
}

/// Index of the first item with identifier `id`, if any.
fn position_in(items: &Vec<FocusTarget>, id: u64) -> (r: Option<usize>)
    ensures
        match r {
            Some(i) => is_position_of(items@, id, i as int),
            None => !has_id(items@, id),
        },
{
    let mut i: usize = 0;
    while i < items.len()
        invariant
            i <= items@.len(),
            forall|k: int| 0 <= k < i ==> items@[k].id != id,
        decreases items@.len() - i,
    {
        if items[i].id == id {
            return Some(i);
        }
        i = i + 1;
    }
    None
}

/// The identifier that has focus after one press of the advance key.
pub fn next_focus(items: &Vec<FocusTarget>, current: Option<u64>) -> (r: Option<u64>)
    ensures
        r == advance_focus(items@, current),
{
    match current {
        Some(id) => match position_in(items, id) {
            Some(c) => {
                proof {
                    lemma_position_unique(items@, id, c as int, position_of(items@, id));
                }
                let n = match successor_in_order(items, c) {
                    Some(b) => b,
                    None => first_in_order(items),
                };
                assert(is_next(items@, c as int, n as int));
                proof {
                    lemma_next_unique(items@, c as int, n as int, next_index(items@, c as int));
                }
                Some(items[n].id)
            },
            None => current,
        },
        None => {
            if items.len() == 0 {
                None
            } else {
                let f = first_in_order(items);
                assert(is_first(items@, f as int));
                proof {
                    lemma_first_unique(items@, f as int, first_index(items@));
                }
                Some(items[f].id)
            }
        },
    }
}

/// Whether the widget with identifier `id` has focus under `current`.
pub open spec fn state_for(current: Option<u64>, id: u64) -> FocusState {
    if current == Some(id) {
        FocusState::Focused
    } else {
        FocusState::NotFocused
    }
}

/// The focus after a frame: moved when the advance key was pressed, kept otherwise.
pub open spec fn focus_after(items: Seq<FocusTarget>, current: Option<u64>, advance_pressed: bool) -> Option<u64> {
    if advance_pressed {
        advance_focus(items, current)
    } else {
        current
    }
}

/// The focus handler does not drift: a frame without a press of the advance
/// key leaves focus where the previous frame left it.
pub proof fn lemma_focus_without_key_press(items: Seq<FocusTarget>, current: Option<u64>, advance_pressed: bool)
    ensures
        focus_after(items, focus_after(items, current, advance_pressed), false) == focus_after(
            items,
            current,
            advance_pressed,
        ),
{
}

/// Handles one frame of keyboard focus traversal.
///
/// When the advance key was pressed this frame, focus moves as
/// [`advance_focus`] says; otherwise it stays. The result holds the focus
/// state of each item, in the order given: focused for the one that has
/// focus, not focused for the others.
pub fn focus_navigation_system(
    manager: &mut FocusManager,
    advance_pressed: bool,
    items: &Vec<FocusTarget>,
) -> (states: Vec<FocusState>)
    ensures
        final(manager).current == focus_after(items@, old(manager).current, advance_pressed),
        states@.len() == items@.len(),
        forall|i: int|
            0 <= i < items@.len() ==> states@[i] == state_for(final(manager).current, items@[i].id),
{
    if advance_pressed {
        manager.current = next_focus(items, manager.current);
    }
    let mut states: Vec<FocusState> = Vec::new();
    let mut i: usize = 0;
    while i < items.len()
        invariant
            i <= items@.len(),
            states@.len() == i,
            forall|k: int| 0 <= k < i ==> states@[k] == state_for(manager.current, items@[k].id),
        decreases items@.len() - i,
    {
        let s = if manager.current == Some(items[i].id) {
            FocusState::Focused
        } else {
            FocusState::NotFocused
        };
        states.push(s);
        i = i + 1;
    }
    states
}

/// The background and border colors of a focusable widget in a focus state.
pub open spec fn focus_colors(state: FocusState) -> (Swatch, Swatch) {
    if state == FocusState::Focused {
        (Swatch::FocusHighlight, Swatch::FocusBorder)
    } else {
        (Swatch::ButtonNormal, Swatch::Transparent)
    }
}

/// The background and border colors of a focusable widget: highlighted and
/// bordered while it has focus, the normal button background without a
/// visible border otherwise, so a widget that loses focus loses its
/// highlight.
pub fn focus_visual_system(focusable: &Focusable) -> (colors: (Swatch, Swatch))
    ensures
        colors == focus_colors(focusable.state),
{
    match focusable.state {
        FocusState::Focused => (Swatch::FocusHighlight, Swatch::FocusBorder),
        _ => (Swatch::ButtonNormal, Swatch::Transparent),
    }
}

/// The items that come before item `i` in reading order.
pub open spec fn predecessors(items: Seq<FocusTarget>, i: int) -> Set<int> {
    Set::new(|k: int| valid_index(items, k) && precedes(items, k, i))
}

/// How many items come before item `i` in reading order.
pub open spec fn rank(items: Seq<FocusTarget>, i: int) -> int {
    predecessors(items, i).len() as int
}

proof fn lemma_predecessors_bounded(items: Seq<FocusTarget>, i: int)
    requires
        valid_index(items, i),
    ensures
        predecessors(items, i).finite(),
        0 <= rank(items, i) < items.len(),
{
    let all = set_int_range(0, items.len() as int);
    lemma_int_range(0, items.len() as int);
    assert(predecessors(items, i).subset_of(all.remove(i)));
    lemma_len_subset(predecessors(items, i), all.remove(i));
}

proof fn lemma_rank_of_successor(items: Seq<FocusTarget>, c: int, r: int)
    requires
        valid_index(items, c),
        is_successor(items, c, r),
    ensures
        rank(items, r) == rank(items, c) + 1,
{
    lemma_predecessors_bounded(items, c);
    assert forall|k: int| #[trigger]
        predecessors(items, r).contains(k) <==> predecessors(items, c).insert(c).contains(k) by {
        lemma_precedes_order(items, k, c, r);
        lemma_precedes_order(items, c, k, r);
    }
    assert(predecessors(items, r) =~= predecessors(items, c).insert(c));
}

proof fn lemma_rank_of_last(items: Seq<FocusTarget>, c: int)
    requires
        valid_index(items, c),
        !has_successor(items, c),
    ensures
        rank(items, c) == items.len() - 1,
{
    let all = set_int_range(0, items.len() as int);
    lemma_int_range(0, items.len() as int);
    assert forall|k: int| #[trigger]
        predecessors(items, c).contains(k) <==> all.remove(c).contains(k) by {
        lemma_precedes_order(items, k, c, c);
        if valid_index(items, k) && k != c {
            assert(!(valid_index(items, k) && precedes(items, c, k)));
        }
    }
    assert(predecessors(items, c) =~= all.remove(c));
}

proof fn lemma_rank_of_first(items: Seq<FocusTarget>, r: int)
    requires
        is_first(items, r),
    ensures
        rank(items, r) == 0,
{
    assert(predecessors(items, r) =~= Set::empty());
}

proof fn lemma_rank_injective(items: Seq<FocusTarget>, i: int, j: int)
    requires
        valid_index(items, i),
        valid_index(items, j),
        rank(items, i) == rank(items, j),
    ensures
        i == j,
{
    if i != j {
        lemma_precedes_order(items, i, j, j);
        let (a, b) = if precedes(items, i, j) {
            (i, j)
        } else {
            (j, i)
        };
        lemma_predecessors_bounded(items, a);
        lemma_predecessors_bounded(items, b);
        assert forall|k: int| #[trigger]
            predecessors(items, a).insert(a).contains(k) implies predecessors(items, b).contains(
            k,
        ) by {
            lemma_precedes_order(items, k, a, b);
        }
        lemma_len_subset(predecessors(items, a).insert(a), predecessors(items, b));
        lemma_precedes_order(items, a, a, a);
    }
}

proof fn scan_first(items: Seq<FocusTarget>, m: int) -> (r: int)
    requires
        0 < m <= items.len(),
    ensures
        0 <= r < m,
        forall|k: int| 0 <= k < m ==> !precedes(items, k, r),
    decreases m,
{
    if m == 1 {
        0
    } else {
        let b = scan_first(items, m - 1);
        if precedes(items, m - 1, b) {
            assert forall|k: int| 0 <= k < m implies !#[trigger] precedes(items, k, m - 1) by {
                lemma_precedes_order(items, k, m - 1, b);
            }
            m - 1
        } else {
            b
        }
    }
}

proof fn scan_successor(items: Seq<FocusTarget>, c: int, m: int) -> (r: int)
    requires
        valid_index(items, c),
        0 <= m <= items.len(),
    ensures
        r == -1 ==> forall|k: int| 0 <= k < m ==> !precedes(items, c, k),
        r != -1 ==> 0 <= r < m && precedes(items, c, r) && forall|k: int|
            0 <= k < m && precedes(items, c, k) ==> !precedes(items, k, r),
    decreases m,
{
    if m == 0 {
        -1
    } else {
        let b = scan_successor(items, c, m - 1);
        let i = m - 1;
        if precedes(items, c, i) && (b == -1 || precedes(items, i, b)) {
            assert forall|k: int| 0 <= k < m && precedes(items, c, k) implies !precedes(
                items,
                k,
                i,
            ) by {
                lemma_precedes_order(items, k, i, b);
            }
            i
        } else {
            b
        }
    }
}

proof fn lemma_next_rank(items: Seq<FocusTarget>, c: int)
    requires
        valid_index(items, c),
    ensures
        is_next(items, c, next_index(items, c)),
        valid_index(items, next_index(items, c)),
        rank(items, next_index(items, c)) == (rank(items, c) + 1) % (items.len() as int),
{
    let n = items.len() as int;
    lemma_predecessors_bounded(items, c);
    if has_successor(items, c) {
        let r = scan_successor(items, c, n);
        assert(is_next(items, c, r));
        lemma_rank_of_successor(items, c, next_index(items, c));
        lemma_predecessors_bounded(items, next_index(items, c));
        vstd::arithmetic::div_mod::lemma_small_mod((rank(items, c) + 1) as nat, n as nat);
    } else {
        let r = scan_first(items, n);
        assert(is_next(items, c, r));
        lemma_rank_of_last(items, c);
        lemma_rank_of_first(items, next_index(items, c));
        assert((n - 1 + 1) % n == 0) by {
            vstd::arithmetic::div_mod::lemma_mod_self_0(n);
        }
    }
}

/// The index of the widget that has focus after `k` presses, starting at item `s`.
pub open spec fn focus_index_after(items: Seq<FocusTarget>, s: int, k: nat) -> int
    decreases k,
{
    if k == 0 {
        s
    } else {
        next_index(items, focus_index_after(items, s, (k - 1) as nat))
    }
}

proof fn lemma_focus_index_after(items: Seq<FocusTarget>, s: int, k: nat)
    requires
        distinct_ids(items),
        valid_index(items, s),
    ensures
        valid_index(items, focus_index_after(items, s, k)),
        advance_focus_times(items, Some(items[s].id), k) == Some(
            items[focus_index_after(items, s, k)].id,
        ),
        rank(items, focus_index_after(items, s, k)) == (rank(items, s) + k) % (items.len() as int),
    decreases k,
{
    let n = items.len() as int;
    lemma_predecessors_bounded(items, s);
    if k == 0 {
        vstd::arithmetic::div_mod::lemma_small_mod(rank(items, s) as nat, n as nat);
    } else {
        lemma_focus_index_after(items, s, (k - 1) as nat);
        let c = focus_index_after(items, s, (k - 1) as nat);
        let id = items[c].id;
        assert forall|j: int| 0 <= j < c implies items[j].id != id by {
            assert(valid_index(items, j) && valid_index(items, c) && j != c);
        }
        assert(is_position_of(items, id, c));
        lemma_position_unique(items, id, c, position_of(items, id));
        lemma_next_rank(items, c);
        vstd::arithmetic::div_mod::lemma_add_mod_noop(rank(items, s) + k - 1, 1, n);
        vstd::arithmetic::div_mod::lemma_add_mod_noop(rank(items, c), 1, n);
        vstd::arithmetic::div_mod::lemma_mod_twice(rank(items, s) + k - 1, n);
    }
}

/// Focus traversal is a cycle: when the widgets have distinct identifiers,
/// pressing the advance key as many times as there are focusable widgets
/// gives focus back to the widget that had it.
pub proof fn lemma_focus_cycles(items: Seq<FocusTarget>, s: int)
    requires
        distinct_ids(items),
        valid_index(items, s),
    ensures
        advance_focus_times(items, Some(items[s].id), items.len()) == Some(items[s].id),
{
    let n = items.len() as int;
    lemma_focus_index_after(items, s, items.len());
    lemma_predecessors_bounded(items, s);
    vstd::arithmetic::div_mod::lemma_mod_add_multiples_vanish(rank(items, s), n);
    vstd::arithmetic::div_mod::lemma_small_mod(rank(items, s) as nat, n as nat);
    let e = focus_index_after(items, s, items.len());
    lemma_rank_injective(items, e, s);
}

} // verus!
