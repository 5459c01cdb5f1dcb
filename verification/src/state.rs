use vstd::prelude::*;
use vstd::string::*;

use crate::appearance::Color;
use crate::layout::{
    Rect, fits_i32, tray_left_of, max_drag_offset, dragged_offset, drag_offset, scaled, in_drag_zone,
    DIVIDER_HIT_ZONE,
};
use crate::localization::{LanguageId, resolved_language, resolve_language};
use crate::polling::{retry_delay_ms, retry_delay};
use crate::scheme::{ColorSchemeMode, palette_of, color_palette_for_mode};

verus! {

/// What the user chose and what is kept in the settings file.
#[derive(Clone, Copy, Debug, PartialEq, Eq, Structural)]
pub struct Preferences {
    pub tray_offset: i32,
    pub poll_interval_ms: u32,
    pub language_override: Option<LanguageId>,
    pub widget_visible: bool,
    pub widget_width_px: i32,
    pub widget_height_px: i32,
    pub background_color: Color,
    pub font_color: Color,
    pub indicator_color: Color,
    pub color_scheme_mode: ColorSchemeMode,
    pub border_width_px: i32,
    pub panel_margin_px: i32,
    pub panel_padding_px: i32,
}

/// The widget's state between window messages.
pub struct WidgetState {
    pub prefs: Preferences,
    /// The language in use, resolved from the override and the system's language.
    pub language: LanguageId,
    /// The system's UI language, when the widget has it.
    pub system_language: Option<LanguageId>,
    /// Whether the system uses a dark theme.
    pub is_dark: bool,
    /// Whether the widget sits inside the taskbar rather than over it.
    pub embedded: bool,
    pub session_text: String,
    pub weekly_text: String,
    /// Failed polls in a row.
    pub retry_count: u32,
    pub last_poll_ok: bool,
    pub dragging: bool,
    pub drag_start_mouse_x: i32,
    pub drag_start_offset: i32,
}

impl WidgetState {
    /// The language in use is the one the override and the system's language resolve to.
    pub open spec fn wf(&self) -> bool {
        self.language == resolved_language(self.prefs.language_override, self.system_language)
    }
}

/// The preferences with the colours of the current scheme, unless the colours are custom.
pub open spec fn with_scheme_colors(p: Preferences, is_dark: bool) -> Preferences {
    if p.color_scheme_mode == ColorSchemeMode::Custom {
        p
    } else {
        Preferences {
            background_color: palette_of(p.color_scheme_mode, is_dark).0,
            font_color: palette_of(p.color_scheme_mode, is_dark).1,
            indicator_color: palette_of(p.color_scheme_mode, is_dark).2,
            ..p
        }
    }
}

/// The text shown while data is being fetched or after a failed fetch.
pub open spec fn refreshing_text() -> Seq<char> {
    "..."@
}

/// Tooltip of the tray icon.
pub open spec fn tooltip_of(last_poll_ok: bool, session: Seq<char>, weekly: Seq<char>) -> Seq<char> {
    if last_poll_ok {
        "5h: "@ + session + " | 7d: "@ + weekly
    } else {
        "Code Usage Monitor"@
    }
}

/// Recolours the widget from its scheme, unless the colours are custom.
pub fn apply_color_scheme_to_state(state: &mut WidgetState)
    ensures
        *final(state) == (WidgetState {
            prefs: with_scheme_colors(old(state).prefs, old(state).is_dark),
            ..*old(state)
        }),
{
    if state.prefs.color_scheme_mode == ColorSchemeMode::Custom {
        return;
    }
    let (bg, font, indicator) = color_palette_for_mode(state.prefs.color_scheme_mode, state.is_dark);
    state.prefs.background_color = bg;
    state.prefs.font_color = font;
    state.prefs.indicator_color = indicator;
}

/// Takes in the system's current theme; recolours when it changed.
/// Returns whether it changed.
pub fn check_theme_change(state: &mut WidgetState, new_dark: bool) -> (changed: bool)
    ensures
        changed == (old(state).is_dark != new_dark),
        changed ==> *final(state) == (WidgetState {
            is_dark: new_dark,
            prefs: with_scheme_colors(old(state).prefs, new_dark),
            ..*old(state)
        }),
        !changed ==> *final(state) == *old(state),
{
    if state.is_dark != new_dark {
        state.is_dark = new_dark;
        apply_color_scheme_to_state(state);
        true
    } else {
        false
    }
}

/// Shows a hidden widget or hides a shown one; returns whether it is now shown.
pub fn toggle_widget_visibility(state: &mut WidgetState) -> (visible: bool)
    ensures
        visible == !old(state).prefs.widget_visible,
        *final(state) == (WidgetState {
            prefs: Preferences { widget_visible: visible, ..old(state).prefs },
            ..*old(state)
        }),
{
    state.prefs.widget_visible = !state.prefs.widget_visible;
    state.prefs.widget_visible
}

/// Puts freshly formatted usage texts on display, but only after a successful
/// poll and when there is data to format.
pub fn refresh_usage_texts(state: &mut WidgetState, texts: Option<(String, String)>)
    ensures
        old(state).last_poll_ok && texts is Some ==> *final(state) == (WidgetState {
            session_text: (texts->0).0,
            weekly_text: (texts->0).1,
            ..*old(state)
        }),
        !(old(state).last_poll_ok && texts is Some) ==> *final(state) == *old(state),
{
    if !state.last_poll_ok {
        return;
    }
    match texts {
        Some((session, weekly)) => {
            state.session_text = session;
            state.weekly_text = weekly;
        },
        None => {},
    }
}

/// The state with the usage texts replaced, when a poll has succeeded and
/// there are texts.
pub open spec fn with_texts(s: WidgetState, texts: Option<(String, String)>) -> WidgetState {
    if s.last_poll_ok && texts is Some {
        WidgetState { session_text: (texts->0).0, weekly_text: (texts->0).1, ..s }
    } else {
        s
    }
}

/// The state after choosing a language override: the language it resolves
/// to, and the usage texts as formatted in that language.
pub open spec fn with_language(
    s: WidgetState,
    language_override: Option<LanguageId>,
    texts: Option<(String, String)>,
) -> WidgetState {
    with_texts(
        WidgetState {
            prefs: Preferences { language_override, ..s.prefs },
            language: resolved_language(language_override, s.system_language),
            ..s
        },
        texts,
    )
}

/// Chooses the language override and the language it resolves to, then shows
/// the usage texts formatted in that language (`texts`, when there are any).
pub fn apply_language_to_state(
    state: &mut WidgetState,
    language_override: Option<LanguageId>,
    texts: Option<(String, String)>,
)
    ensures
        *final(state) == with_language(*old(state), language_override, texts),
        final(state).wf(),
{
    state.prefs.language_override = language_override;
    state.language = resolve_language(language_override, state.system_language);
    refresh_usage_texts(state, texts);
}

/// Shows the refreshing marker in both rows.
pub fn mark_refreshing(state: &mut WidgetState)
    ensures
        final(state).session_text@ == refreshing_text(),
        final(state).weekly_text@ == refreshing_text(),
        *final(state) == (WidgetState {
            session_text: final(state).session_text,
            weekly_text: final(state).weekly_text,
            ..*old(state)
        }),
{
    proof { reveal_strlit("..."); }
    state.session_text = String::from_str("...");
    state.weekly_text = String::from_str("...");
}

/// Records a successful poll and shows its texts. After failures it clears the
/// failure count and returns the regular poll interval to restart the timer with.
pub fn record_poll_success(state: &mut WidgetState, texts: Option<(String, String)>) -> (restart: Option<u32>)
    ensures
        restart == (if old(state).retry_count > 0 {
            Some(old(state).prefs.poll_interval_ms)
        } else {
            None
        }),
        texts is Some ==> *final(state) == (WidgetState {
            last_poll_ok: true,
            retry_count: 0,
            session_text: (texts->0).0,
            weekly_text: (texts->0).1,
            ..*old(state)
        }),
        texts is None ==> *final(state) == (WidgetState {
            last_poll_ok: true,
            retry_count: 0,
            ..*old(state)
        }),
{
    state.last_poll_ok = true;
    refresh_usage_texts(state, texts);
    if state.retry_count > 0 {
        state.retry_count = 0;
        Some(state.prefs.poll_interval_ms)
    } else {
        None
    }
}

/// Records a failed poll: shows the refreshing marker, counts the failure and
/// returns how long to wait before the next try.
pub fn record_poll_failure(state: &mut WidgetState) -> (retry_ms: u32)
    ensures
        final(state).retry_count == (if old(state).retry_count == u32::MAX {
            u32::MAX
        } else {
            (old(state).retry_count + 1) as u32
        }),
        retry_ms == retry_delay_ms(final(state).retry_count as nat, old(state).prefs.poll_interval_ms as int),
        final(state).session_text@ == refreshing_text(),
        final(state).weekly_text@ == refreshing_text(),
        *final(state) == (WidgetState {
            session_text: final(state).session_text,
            weekly_text: final(state).weekly_text,
            last_poll_ok: false,
            retry_count: final(state).retry_count,
            ..*old(state)
        }),
{
    mark_refreshing(state);
    state.last_poll_ok = false;
    state.retry_count = state.retry_count.saturating_add(1);
    retry_delay(state.retry_count, state.prefs.poll_interval_ms)
}

/// Starts a drag of the widget from the mouse's screen position.
pub fn begin_drag(state: &mut WidgetState, mouse_x: i32)
    ensures
        *final(state) == (WidgetState {
            dragging: true,
            drag_start_mouse_x: mouse_x,
            drag_start_offset: old(state).prefs.tray_offset,
            ..*old(state)
        }),
{
    state.dragging = true;
    state.drag_start_mouse_x = mouse_x;
    state.drag_start_offset = state.prefs.tray_offset;
}

/// Follows the mouse during a drag; returns the new offset, or `None` when no
/// drag is under way.
pub fn drag_to(state: &mut WidgetState, mouse_x: i32, limit: Option<(Rect, Option<i32>, i32)>) -> (r:
    Option<i32>)
    requires
        old(state).dragging ==> {
            &&& fits_i32(old(state).drag_start_mouse_x - mouse_x)
            &&& fits_i32(old(state).drag_start_offset + (old(state).drag_start_mouse_x - mouse_x))
            &&& limit matches Some((taskbar, tray_left, width)) ==> {
                &&& fits_i32(tray_left_of(taskbar, tray_left) - taskbar.left)
                &&& fits_i32(max_drag_offset(taskbar, tray_left, width as int))
            }
        },
    ensures
        !old(state).dragging ==> r is None && *final(state) == *old(state),
        old(state).dragging ==> {
            &&& r matches Some(o)
            &&& o == dragged_offset(
                old(state).drag_start_offset as int,
                old(state).drag_start_mouse_x as int,
                mouse_x as int,
                match limit {
                    Some((taskbar, tray_left, width)) => Some(
                        max_drag_offset(taskbar, tray_left, width as int),
                    ),
                    None => None,
                },
            )
            &&& *final(state) == (WidgetState {
                prefs: Preferences { tray_offset: o, ..old(state).prefs },
                ..*old(state)
            })
        },
{
    if !state.dragging {
        return None;
    }
    let offset = drag_offset(state.drag_start_offset, state.drag_start_mouse_x, mouse_x, limit);
    state.prefs.tray_offset = offset;
    Some(offset)
}

/// Ends a drag; returns the offset to keep, or `None` when no drag was under way.
pub fn end_drag(state: &mut WidgetState) -> (r: Option<i32>)
    ensures
        old(state).dragging ==> r == Some(old(state).prefs.tray_offset) && *final(state) == (
        WidgetState { dragging: false, ..*old(state) }),
        !old(state).dragging ==> r is None && *final(state) == *old(state),
{
    if state.dragging {
        state.dragging = false;
        Some(state.prefs.tray_offset)
    } else {
        None
    }
}

/// The tray icon's tooltip: both usage texts after a successful poll, else the
/// program's name.
pub fn tray_tooltip(state: &WidgetState) -> (r: String)
    ensures
        r@ == tooltip_of(state.last_poll_ok, state.session_text@, state.weekly_text@),
{
    if state.last_poll_ok {
        let mut s = String::from_str("5h: ");
        s.append(state.session_text.as_str());
        s.append(" | 7d: ");
        s.append(state.weekly_text.as_str());
        s
    } else {
        String::from_str("Code Usage Monitor")
    }
}

/// A change of the system theme never touches custom colours.
pub proof fn lemma_theme_change_keeps_custom_colors(p: Preferences, is_dark: bool)
    requires
        p.color_scheme_mode == ColorSchemeMode::Custom,
    ensures
        with_scheme_colors(p, is_dark) == p,
{
}

/// Only the automatic scheme follows the system theme: the light and dark
/// schemes give the same colours on either theme.
pub proof fn lemma_fixed_schemes_ignore_theme(p: Preferences)
    requires
        p.color_scheme_mode == ColorSchemeMode::Light || p.color_scheme_mode == ColorSchemeMode::Dark,
    ensures
        with_scheme_colors(p, true) == with_scheme_colors(p, false),
{
}

/// A mouse event on the widget.
#[derive(Clone, Copy, Debug, PartialEq, Eq)]
pub enum PointerEvent {
    /// The left button went down at `client_x` in the widget, `screen_x` on screen.
    ButtonDown { client_x: i32, screen_x: i32 },
    /// The mouse moved to `screen_x`; `limit` is the taskbar, the notification
    /// area's left edge and the widget's width, when the taskbar is known.
    Move { screen_x: i32, limit: Option<(Rect, Option<i32>, i32)> },
    /// The left button went up.
    ButtonUp,
}

/// What the window does after a mouse event.
#[derive(Clone, Copy, Debug, PartialEq, Eq, Structural)]
pub enum PointerAction {
    Nothing,
    /// Capture the mouse: a drag has started.
    Capture,
    /// Move the widget to the new offset.
    MoveTo(i32),
    /// Release the mouse and save the settings: a drag has ended.
    ReleaseAndSave,
}

/// The state after a mouse event, and what the window does.
pub open spec fn after_pointer(s: WidgetState, ev: PointerEvent, dpi: u32) -> (WidgetState, PointerAction) {
    match ev {
        PointerEvent::ButtonDown { client_x, screen_x } => if client_x < scaled(
            DIVIDER_HIT_ZONE as int,
            dpi as int,
        ) {
            (
                WidgetState {
                    dragging: true,
                    drag_start_mouse_x: screen_x,
                    drag_start_offset: s.prefs.tray_offset,
                    ..s
                },
                PointerAction::Capture,
            )
        } else {
            (s, PointerAction::Nothing)
        },
        PointerEvent::Move { screen_x, limit } => if s.dragging {
            let o = dragged_offset(
                s.drag_start_offset as int,
                s.drag_start_mouse_x as int,
                screen_x as int,
                match limit {
                    Some((taskbar, tray_left, width)) => Some(
                        max_drag_offset(taskbar, tray_left, width as int),
                    ),
                    None => None,
                },
            ) as i32;
            (
                WidgetState { prefs: Preferences { tray_offset: o, ..s.prefs }, ..s },
                PointerAction::MoveTo(o),
            )
        } else {
            (s, PointerAction::Nothing)
        },
        PointerEvent::ButtonUp => if s.dragging {
            (WidgetState { dragging: false, ..s }, PointerAction::ReleaseAndSave)
        } else {
            (s, PointerAction::Nothing)
        },
    }
}

/// The arithmetic of a drag step stays within `i32`.
pub open spec fn pointer_fits(s: WidgetState, ev: PointerEvent) -> bool {
    match ev {
        PointerEvent::Move { screen_x, limit } => s.dragging ==> {
            &&& fits_i32(s.drag_start_mouse_x - screen_x)
            &&& fits_i32(s.drag_start_offset + (s.drag_start_mouse_x - screen_x))
            &&& limit matches Some((taskbar, tray_left, width)) ==> {
                &&& fits_i32(tray_left_of(taskbar, tray_left) - taskbar.left)
                &&& fits_i32(max_drag_offset(taskbar, tray_left, width as int))
            }
        },
        _ => true,
    }
}

/// Handles a mouse event: a press on the drag strip starts a drag, a move
/// during a drag moves the widget, a release ends the drag.
pub fn handle_pointer_event(state: &mut WidgetState, ev: PointerEvent, dpi: u32) -> (a: PointerAction)
    requires
        pointer_fits(*old(state), ev),
    ensures
        (*final(state), a) == after_pointer(*old(state), ev, dpi),
{
    match ev {
        PointerEvent::ButtonDown { client_x, screen_x } => {
            if in_drag_zone(client_x, dpi) {
                begin_drag(state, screen_x);
                PointerAction::Capture
            } else {
                PointerAction::Nothing
            }
        },
        PointerEvent::Move { screen_x, limit } => match drag_to(state, screen_x, limit) {
            Some(o) => PointerAction::MoveTo(o),
            None => PointerAction::Nothing,
        },
        PointerEvent::ButtonUp => match end_drag(state) {
            Some(_) => PointerAction::ReleaseAndSave,
            None => PointerAction::Nothing,
        },
    }
}

/// A press starts a drag exactly on the drag strip, a release always ends it,
/// and moves never start or end one.
pub proof fn lemma_drag_flag(s: WidgetState, ev: PointerEvent, dpi: u32)
    ensures
        ev matches PointerEvent::ButtonDown { client_x, screen_x } ==> after_pointer(s, ev, dpi).0.dragging
            == (s.dragging || client_x < scaled(DIVIDER_HIT_ZONE as int, dpi as int)),
        ev is ButtonUp ==> !after_pointer(s, ev, dpi).0.dragging,
        ev is Move ==> after_pointer(s, ev, dpi).0.dragging == s.dragging,
        ev is ButtonUp ==> (after_pointer(s, ev, dpi).1 == PointerAction::ReleaseAndSave
            <==> s.dragging),
{
}

} // verus!
