//! Interaction handlers for buttons, checkboxes, tabs, dropdowns, setting
//! rows, tooltips and progress bars.
use vstd::prelude::*;
use crate::colors::Swatch;
use crate::components::{
    Dropdown, FocusState, ProgressBar, SettingRow, TabbedContainer, Tooltip, TooltipPosition,
    UiButton, UiCheckbox,
};
use crate::geometry::Point;
use crate::input::Interaction;
use crate::slider::round_div;

verus! {

/// Padding around tooltip text, in pixels.
pub const TOOLTIP_PADDING: i64 = 8;

/// Colors of a button: its background and the text of its label.
#[derive(Clone, Copy, Debug, PartialEq, Eq, Structural)]
pub struct ButtonVisual {
    pub background: Swatch,
    pub text: Swatch,
}

/// The colors of a button in each interaction state.
pub open spec fn button_visual(interaction: Interaction) -> ButtonVisual {
    match interaction {
        Interaction::Pressed => ButtonVisual { background: Swatch::ButtonPressed, text: Swatch::FocusText },
        Interaction::Hovered => ButtonVisual { background: Swatch::ButtonHovered, text: Swatch::TextNormal },
        Interaction::Idle => ButtonVisual { background: Swatch::ButtonNormal, text: Swatch::TextNormal },
    }
}

/// A button after a change to `interaction`: pressed or hovered as it says.
pub open spec fn button_after(button: UiButton, interaction: Interaction) -> UiButton {
    UiButton {
        pressed: interaction == Interaction::Pressed,
        hovered: interaction == Interaction::Hovered,
        ..button
    }
}

/// The button handler does not drift: handling the same interaction state a
/// second time leaves the button as the first time left it.
pub proof fn lemma_button_idempotent(button: UiButton, interaction: Interaction)
    ensures
        button_after(button_after(button, interaction), interaction) == button_after(
            button,
            interaction,
        ),
{
}

/// Handles a change of a button's interaction state: records whether it is
/// pressed or hovered and returns its colors for that state.
pub fn button_interaction_system(interaction: Interaction, button: &mut UiButton) -> (v: ButtonVisual)
    ensures
        *final(button) == button_after(*old(button), interaction),
        v == button_visual(interaction),
{
    button.hovered = interaction == Interaction::Hovered;
    button.pressed = interaction == Interaction::Pressed;
    match interaction {
        Interaction::Pressed => ButtonVisual { background: Swatch::ButtonPressed, text: Swatch::FocusText },
        Interaction::Hovered => ButtonVisual { background: Swatch::ButtonHovered, text: Swatch::TextNormal },
        Interaction::Idle => ButtonVisual { background: Swatch::ButtonNormal, text: Swatch::TextNormal },
    }
}

/// The background of a checkbox in the given state.
pub open spec fn checkbox_background(checked: bool) -> Swatch {
    if checked {
        Swatch::ButtonPressed
    } else {
        Swatch::ButtonNormal
    }
}

/// A checkbox after a change to `interaction`: a press toggles an enabled one.
pub open spec fn checkbox_after(checkbox: UiCheckbox, interaction: Interaction) -> UiCheckbox {
    if interaction == Interaction::Pressed && !checkbox.disabled {
        UiCheckbox { checked: !checkbox.checked, ..checkbox }
    } else {
        checkbox
    }
}

/// The checkbox handler does not drift: without a new press it changes
/// nothing, so a second call after a press keeps the toggled state.
pub proof fn lemma_checkbox_no_press_no_change(checkbox: UiCheckbox, interaction: Interaction)
    requires
        interaction != Interaction::Pressed,
    ensures
        checkbox_after(checkbox, interaction) == checkbox,
{
}

/// The checkbox handler does not drift: after a first change of interaction,
/// a second call without a new press leaves the checkbox as the first left it.
pub proof fn lemma_checkbox_idempotent(checkbox: UiCheckbox, first: Interaction, second: Interaction)
    requires
        second != Interaction::Pressed,
    ensures
        checkbox_after(checkbox_after(checkbox, first), second) == checkbox_after(checkbox, first),
{
}

/// Handles a change of a checkbox's interaction state.
///
/// A press on an enabled checkbox toggles it and returns its new
/// background; anything else leaves it as it is and returns `None`.
pub fn checkbox_interaction_system(interaction: Interaction, checkbox: &mut UiCheckbox) -> (bg: Option<Swatch>)
    ensures
        *final(checkbox) == checkbox_after(*old(checkbox), interaction),
        bg == (if interaction == Interaction::Pressed && !old(checkbox).disabled {
            Some(checkbox_background(final(checkbox).checked))
        } else {
            None
        }),
{
    if interaction == Interaction::Pressed && !checkbox.disabled {
        checkbox.checked = !checkbox.checked;
        if checkbox.checked {
            Some(Swatch::ButtonPressed)
        } else {
            Some(Swatch::ButtonNormal)
        }
    } else {
        None
    }
}

/// Visibility of a child widget.
#[derive(Clone, Copy, Debug, PartialEq, Eq, Structural)]
pub enum Visibility {
    Visible,
    Hidden,
}

/// How many entries are visible.
pub open spec fn count_visible(vis: Seq<Visibility>) -> nat
    decreases vis.len(),
{
    if vis.len() == 0 {
        0
    } else {
        count_visible(vis.drop_last()) + if vis.last() == Visibility::Visible {
            1nat
        } else {
            0nat
        }
    }
}

/// Visibility where only entry `active` is visible.
pub open spec fn only_active(vis: Seq<Visibility>, active: int) -> bool {
    forall|i: int| 0 <= i < vis.len() ==> (vis[i] == Visibility::Visible <==> i == active)
}

/// One tab shown: where entry `active` alone is visible, exactly one entry
/// is visible, provided `active` is one of the entries.
pub proof fn lemma_exactly_one_visible(vis: Seq<Visibility>, active: int)
    requires
        only_active(vis, active),
        0 <= active < vis.len(),
    ensures
        count_visible(vis) == 1,
{
    lemma_count_prefix(vis, active, vis.len() as int);
    assert(vis.take(vis.len() as int) =~= vis);
}

proof fn lemma_count_prefix(vis: Seq<Visibility>, active: int, m: int)
    requires
        only_active(vis, active),
        0 <= active,
        0 <= m <= vis.len(),
    ensures
        count_visible(vis.take(m)) == (if active < m { 1nat } else { 0nat }),
    decreases m,
{
    if m > 0 {
        lemma_count_prefix(vis, active, m - 1);
        assert(vis.take(m).drop_last() =~= vis.take(m - 1));
        assert(vis[m - 1] == Visibility::Visible <==> m - 1 == active);
    }
}

/// The visibilities of `count` tabs with tab `active` shown.
pub fn tab_visibilities(count: usize, active: usize) -> (vis: Vec<Visibility>)
    ensures
        vis@.len() == count,
        only_active(vis@, active as int),
        active < count ==> count_visible(vis@) == 1,
{
    let mut vis: Vec<Visibility> = Vec::new();
    let mut i: usize = 0;
    while i < count
        invariant
            i <= count,
            vis@.len() == i,
            forall|k: int| 0 <= k < i ==> (vis@[k] == Visibility::Visible <==> k == active),
        decreases count - i,
    {
        if i == active {
            vis.push(Visibility::Visible);
        } else {
            vis.push(Visibility::Hidden);
        }
        i = i + 1;
    }
    proof {
        if active < count {
            lemma_exactly_one_visible(vis@, active as int);
        }
    }
    vis
}

/// Item `i` is the first of `ids` equal to `id`.
pub open spec fn is_first_of(ids: Seq<u64>, id: u64, i: int) -> bool {
    0 <= i < ids.len() && ids[i] == id && forall|k: int| 0 <= k < i ==> ids[k] != id
}

/// The first position of `button` among `tabs`.
pub open spec fn tab_position(tabs: Seq<u64>, button: u64) -> int {
    choose|i: int| is_first_of(tabs, button, i)
}

/// A tab container after a change of interaction on child `button`: a press
/// on one of its tabs makes that tab active.
pub open spec fn tab_after(
    container: TabbedContainer,
    interaction: Interaction,
    tabs: Seq<u64>,
    button: u64,
) -> TabbedContainer {
    if interaction == Interaction::Pressed && tabs.contains(button) {
        TabbedContainer { active_tab: tab_position(tabs, button) as usize, ..container }
    } else {
        container
    }
}

/// The tab handler does not drift: handling the same press a second time
/// leaves the container as the first time left it.
pub proof fn lemma_tab_idempotent(
    container: TabbedContainer,
    interaction: Interaction,
    tabs: Seq<u64>,
    button: u64,
)
    ensures
        tab_after(tab_after(container, interaction, tabs, button), interaction, tabs, button)
            == tab_after(container, interaction, tabs, button),
{
}

/// Handles a change of interaction on a tab button.
///
/// `tabs` lists the container's children in order and `button` is the child
/// whose state changed. On a press of one of them, the first position at
/// which it stands becomes the active tab and the result holds the
/// children's visibilities: the active one shown, all others hidden.
/// Otherwise the container is left as it is and the result is `None`.
pub fn tab_system(
    interaction: Interaction,
    container: &mut TabbedContainer,
    tabs: &Vec<u64>,
    button: u64,
) -> (vis: Option<Vec<Visibility>>)
    ensures
        *final(container) == tab_after(*old(container), interaction, tabs@, button),
        match vis {
            Some(v) => interaction == Interaction::Pressed && tabs@.contains(button) && is_first_of(
                tabs@,
                button,
                final(container).active_tab as int,
            ) && v@.len() == tabs@.len() && only_active(v@, final(container).active_tab as int)
                && count_visible(v@) == 1,
            None => !(interaction == Interaction::Pressed && tabs@.contains(button)),
        },
{
    if interaction != Interaction::Pressed {
        return None;
    }
    let mut i: usize = 0;
    while i < tabs.len()
        invariant
            i <= tabs@.len(),
            *container == *old(container),
            interaction == Interaction::Pressed,
            forall|k: int| 0 <= k < i ==> tabs@[k] != button,
        decreases tabs@.len() - i,
    {
        if tabs[i] == button {
            assert(is_first_of(tabs@, button, i as int));
            container.active_tab = i;
            return Some(tab_visibilities(tabs.len(), i));
        }
        i = i + 1;
    }
    None
}

/// One option row of an open dropdown.
#[derive(Clone, Debug)]
pub struct OptionRow {
    /// Position of the option.
    pub position: usize,
    /// Its label.
    pub label: String,
}

/// What the host does with a dropdown's option rows.
#[derive(Clone, Debug)]
pub enum DropdownAction {
    /// Nothing changes.
    Keep,
    /// Create these rows under the dropdown.
    ShowOptions(Vec<OptionRow>),
    /// Remove the option rows.
    HideOptions,
}

/// `rows` lists the options in order, each with its position.
pub open spec fn rows_of(rows: Seq<OptionRow>, options: Seq<String>) -> bool {
    rows.len() == options.len() && forall|i: int|
        0 <= i < rows.len() ==> (#[trigger] rows[i]).position == i && rows[i].label == options[i]
}

fn option_rows(options: &Vec<String>) -> (rows: Vec<OptionRow>)
    ensures
        rows_of(rows@, options@),
{
    let mut out: Vec<OptionRow> = Vec::new();
    let mut i: usize = 0;
    while i < options.len()
        invariant
            i <= options@.len(),
            out@.len() == i,
            forall|k: int| 0 <= k < i ==> (#[trigger] out@[k]).position == k && out@[k].label == options@[k],
        decreases options@.len() - i,
    {
        let label = options[i].clone();
        out.push(OptionRow { position: i, label });
        i = i + 1;
    }
    out
}

/// A dropdown after a change to `interaction`: a press opens or closes it.
pub open spec fn dropdown_after(dropdown: Dropdown, interaction: Interaction) -> Dropdown {
    if interaction == Interaction::Pressed {
        Dropdown { opened: !dropdown.opened, ..dropdown }
    } else {
        dropdown
    }
}

/// The dropdown handler does not drift: without a new press it changes nothing.
pub proof fn lemma_dropdown_no_press_no_change(dropdown: Dropdown, interaction: Interaction)
    requires
        interaction != Interaction::Pressed,
    ensures
        dropdown_after(dropdown, interaction) == dropdown,
{
}

/// Handles a change of a dropdown's interaction state.
///
/// A press toggles it: on opening, the result asks for one row per option;
/// on closing, for the rows to go. Anything else changes nothing.
pub fn dropdown_system(interaction: Interaction, dropdown: &mut Dropdown) -> (a: DropdownAction)
    ensures
        *final(dropdown) == dropdown_after(*old(dropdown), interaction),
        match a {
            DropdownAction::Keep => interaction != Interaction::Pressed,
            DropdownAction::ShowOptions(rows) => interaction == Interaction::Pressed
                && final(dropdown).opened && rows_of(rows@, old(dropdown).options@),
            DropdownAction::HideOptions => interaction == Interaction::Pressed
                && !final(dropdown).opened,
        },
{
    if interaction != Interaction::Pressed {
        return DropdownAction::Keep;
    }
    dropdown.opened = !dropdown.opened;
    if dropdown.opened {
        DropdownAction::ShowOptions(option_rows(&dropdown.options))
    } else {
        DropdownAction::HideOptions
    }
}

/// A dropdown after option `index` is chosen: an existing option becomes the
/// selection and the dropdown closes.
pub open spec fn dropdown_selected(dropdown: Dropdown, index: usize) -> Dropdown {
    if index < dropdown.options.len() {
        Dropdown { selected_index: index, opened: false, ..dropdown }
    } else {
        dropdown
    }
}

/// Choosing the same option a second time changes nothing more.
pub proof fn lemma_dropdown_select_idempotent(dropdown: Dropdown, index: usize)
    ensures
        dropdown_selected(dropdown_selected(dropdown, index), index) == dropdown_selected(
            dropdown,
            index,
        ),
{
}

/// Commits the choice of option `index`: it becomes the selection and the
/// dropdown closes. An index past the options changes nothing.
pub fn dropdown_select(dropdown: &mut Dropdown, index: usize) -> (a: DropdownAction)
    ensures
        *final(dropdown) == dropdown_selected(*old(dropdown), index),
        index < old(dropdown).options@.len() ==> a is HideOptions,
        index >= old(dropdown).options@.len() ==> a is Keep,
{
    if index < dropdown.options.len() {
        dropdown.selected_index = index;
        dropdown.opened = false;
        DropdownAction::HideOptions
    } else {
        DropdownAction::Keep
    }
}

/// What a setting row shows: its background and, when the row is hovered
/// without focus, the help text for the tooltip.
#[derive(Clone, Debug)]
pub struct SettingRowUpdate {
    pub background: Swatch,
    pub tooltip_text: Option<String>,
}

/// The background of a setting row for an interaction and a focus state.
pub open spec fn row_background(interaction: Interaction, focus: FocusState) -> Swatch {
    if interaction == Interaction::Pressed {
        Swatch::RowPressed
    } else if interaction == Interaction::Hovered && focus == FocusState::NotFocused {
        Swatch::RowHovered
    } else if focus == FocusState::Focused {
        Swatch::RowFocused
    } else {
        Swatch::RowIdle
    }
}

/// Handles a change of a setting row's interaction state.
pub fn setting_row_system(row: &SettingRow, interaction: Interaction, focus: FocusState) -> (u: SettingRowUpdate)
    ensures
        u.background == row_background(interaction, focus),
        u.tooltip_text == (if interaction == Interaction::Hovered && focus == FocusState::NotFocused {
            row.help_text
        } else {
            None
        }),
{
    match interaction {
        Interaction::Pressed => SettingRowUpdate { background: Swatch::RowPressed, tooltip_text: None },
        Interaction::Hovered if focus == FocusState::NotFocused => {
            let text = match &row.help_text {
                Some(t) => Some(t.clone()),
                None => None,
            };
            SettingRowUpdate { background: Swatch::RowHovered, tooltip_text: text }
        },
        _ => {
            if focus == FocusState::Focused {
                SettingRowUpdate { background: Swatch::RowFocused, tooltip_text: None }
            } else {
                SettingRowUpdate { background: Swatch::RowIdle, tooltip_text: None }
            }
        },
    }
}

/// Where a tooltip stands: `offset` pixels from the cursor on its side.
pub open spec fn placement(position: TooltipPosition, offset: int, cursor: Point) -> (int, int) {
    match position {
        TooltipPosition::Top => (cursor.x as int, cursor.y - offset),
        TooltipPosition::Bottom => (cursor.x as int, cursor.y + offset),
        TooltipPosition::Left => (cursor.x - offset, cursor.y as int),
        TooltipPosition::Right => (cursor.x + offset, cursor.y as int),
    }
}

pub open spec fn placement_fits(position: TooltipPosition, offset: int, cursor: Point) -> bool {
    let (x, y) = placement(position, offset, cursor);
    i64::MIN <= x <= i64::MAX && i64::MIN <= y <= i64::MAX
}

/// A tooltip to draw this frame.
#[derive(Clone, Debug)]
pub struct TooltipView {
    pub text: String,
    pub position: Point,
    pub padding: i64,
}

/// The tooltip to draw this frame: shown while its target is hovered and
/// the cursor is known, at [`placement`] from the cursor; `None` otherwise.
pub fn tooltip_system(tooltip: &Tooltip, target_hovered: bool, cursor: Option<Point>) -> (v: Option<TooltipView>)
    requires
        match cursor {
            Some(c) => placement_fits(tooltip.position, tooltip.offset as int, c),
            None => true,
        },
    ensures
        match (target_hovered, cursor) {
            (true, Some(c)) => match v {
                Some(view) => view.text == tooltip.text && (view.position.x as int, view.position.y as int)
                    == placement(tooltip.position, tooltip.offset as int, c) && view.padding == TOOLTIP_PADDING,
                None => false,
            },
            _ => v.is_none(),
        },
{
    if !target_hovered {
        return None;
    }
    match cursor {
        Some(c) => {
            let position = match tooltip.position {
                TooltipPosition::Top => Point { x: c.x, y: c.y - tooltip.offset },
                TooltipPosition::Bottom => Point { x: c.x, y: c.y + tooltip.offset },
                TooltipPosition::Left => Point { x: c.x - tooltip.offset, y: c.y },
                TooltipPosition::Right => Point { x: c.x + tooltip.offset, y: c.y },
            };
            Some(TooltipView { text: tooltip.text.clone(), position, padding: TOOLTIP_PADDING })
        },
        None => None,
    }
}

/// What a progress bar shows: the fill width in percent of the bar, and the
/// percentage as a number when the bar shows text.
#[derive(Clone, Copy, Debug, PartialEq, Eq, Structural)]
pub struct ProgressDisplay {
    pub width_percent: u32,
    pub text_percent: Option<u32>,
}

/// The percentage done, rounded to the nearest whole number.
pub open spec fn percent_done(value: int) -> int {
    round_div(value, 10)
}

/// What a progress bar shows for its value: the fill is the percentage
/// done, at most 100; the text, when shown, the percentage itself.
pub fn update_progress_bars(bar: &ProgressBar) -> (d: ProgressDisplay)
    ensures
        d.width_percent == (if percent_done(bar.value as int) > 100 {
            100
        } else {
            percent_done(bar.value as int)
        }),
        d.text_percent == (if bar.show_text {
            Some(percent_done(bar.value as int) as u32)
        } else {
            None
        }),
{
    let p: u32 = ((bar.value as u64 * 2 + 10) / 20) as u32;
    let w: u32 = if p > 100 {
        100
    } else {
        p
    };
    let t = if bar.show_text {
        Some(p)
    } else {
        None
    };
    ProgressDisplay { width_percent: w, text_percent: t }
}

} // verus!
