use vstd::prelude::*;

use crate::layout::{
    Placement, Rect, low_word, placement_fits, placement_of, total_height, total_height_fits,
    total_width, total_width_fits, total_widget_height, total_widget_width, widget_placement,
};
use crate::appearance::Color;
use crate::scheme::ColorSchemeMode;
use crate::state::{WidgetState, with_scheme_colors, with_texts, check_theme_change, refresh_usage_texts};

verus! {

/// The widget's timers.
#[derive(Clone, Copy, Debug, PartialEq, Eq, Structural)]
pub enum TimerKind {
    /// The regular poll.
    Poll,
    /// The countdown text refresh.
    Countdown,
    /// The fast poll while a reset time has passed.
    ResetPoll,
}

/// A window message that is not about the mouse or the menu.
#[derive(Clone, Copy, Debug, PartialEq, Eq, Structural)]
pub enum WindowMessage {
    Timer(TimerKind),
    /// New usage data arrived; `system_dark` is the system theme now.
    UsageUpdated { system_dark: bool },
    /// The display configuration changed.
    DisplayChanged,
    /// The DPI changed; `wparam_bits` holds the new DPI in its low word.
    DpiChanged { wparam_bits: usize },
    /// A system setting changed; `system_dark` is the system theme now.
    SettingChanged { system_dark: bool },
}

/// What the window does after a message.
#[derive(Clone, Copy, Debug, PartialEq, Eq, Structural)]
pub struct MessageActions {
    /// Start a poll on a worker thread.
    pub start_poll: bool,
    /// Take this DPI as the current one.
    pub set_dpi: Option<u32>,
    /// Ask the window for its DPI.
    pub refresh_dpi: bool,
    /// Draw the widget because the theme changed.
    pub render_for_theme: bool,
    /// Move the widget to its place on the taskbar.
    pub reposition: bool,
    /// Draw the widget.
    pub render: bool,
    /// Set the countdown timer again.
    pub schedule_countdown: bool,
    /// Update the tray icon and its tooltip.
    pub update_tray: bool,
}

/// How the widget is drawn: inside the taskbar through a layered update, else
/// by invalidating the window and painting it.
#[derive(Clone, Copy, Debug, PartialEq, Eq, Structural)]
pub enum RenderPath {
    Invalidate,
    Layered,
}

pub open spec fn no_actions() -> MessageActions {
    MessageActions {
        start_poll: false,
        set_dpi: None,
        refresh_dpi: false,
        render_for_theme: false,
        reposition: false,
        render: false,
        schedule_countdown: false,
        update_tray: false,
    }
}

/// The state after a message: the countdown shows the freshly formatted
/// `texts` after a successful poll; new data and setting changes take in the
/// system theme.
pub open spec fn after_message(s: WidgetState, msg: WindowMessage, texts: Option<(String, String)>) -> WidgetState {
    match msg {
        WindowMessage::Timer(TimerKind::Countdown) => with_texts(s, texts),
        WindowMessage::UsageUpdated { system_dark } | WindowMessage::SettingChanged { system_dark } =>
            if s.is_dark != system_dark {
            WidgetState {
                is_dark: system_dark,
                prefs: with_scheme_colors(s.prefs, system_dark),
                ..s
            }
        } else {
            s
        },
        _ => s,
    }
}

/// What the window does after a message; `theme_changed` is whether the
/// message brought a new system theme.
pub open spec fn actions_of(msg: WindowMessage, theme_changed: bool) -> MessageActions {
    let n = no_actions();
    let geometry = MessageActions {
        refresh_dpi: true,
        reposition: true,
        render: true,
        ..n
    };
    match msg {
        WindowMessage::Timer(TimerKind::Poll) | WindowMessage::Timer(TimerKind::ResetPoll) =>
            MessageActions { start_poll: true, ..n },
        WindowMessage::Timer(TimerKind::Countdown) => MessageActions {
            render: true,
            schedule_countdown: true,
            ..n
        },
        WindowMessage::UsageUpdated { .. } => MessageActions {
            render_for_theme: theme_changed,
            render: true,
            schedule_countdown: true,
            update_tray: true,
            ..n
        },
        WindowMessage::DisplayChanged => geometry,
        WindowMessage::DpiChanged { wparam_bits } => MessageActions {
            set_dpi: Some((wparam_bits as int % 0x10000) as u32),
            ..geometry
        },
        WindowMessage::SettingChanged { .. } => MessageActions { render_for_theme: theme_changed, ..geometry },
    }
}

/// Handles a timer, data or display message: updates the widget's state and
/// says what the window does next. `texts` are the usage texts formatted now,
/// looked at only by the countdown timer.
pub fn handle_window_message(
    state: &mut WidgetState,
    msg: WindowMessage,
    texts: Option<(String, String)>,
) -> (a: MessageActions)
    ensures
        *final(state) == after_message(*old(state), msg, texts),
        a == actions_of(
            msg,
            (msg is UsageUpdated || msg is SettingChanged) && old(state).is_dark != final(state).is_dark,
        ),
        msg matches WindowMessage::SettingChanged { system_dark } ==> final(state).is_dark
            == system_dark && a.render_for_theme == (old(state).is_dark != system_dark) && a.reposition
            && a.render,
        msg matches WindowMessage::UsageUpdated { system_dark } ==> final(state).is_dark == system_dark
            && a.render_for_theme == (old(state).is_dark != system_dark) && a.render && a.update_tray,
{
    let n = MessageActions {
        start_poll: false,
        set_dpi: None,
        refresh_dpi: false,
        render_for_theme: false,
        reposition: false,
        render: false,
        schedule_countdown: false,
        update_tray: false,
    };
    let geometry = MessageActions { refresh_dpi: true, reposition: true, render: true, ..n };
    match msg {
        WindowMessage::Timer(TimerKind::Poll) | WindowMessage::Timer(TimerKind::ResetPoll) => {
            MessageActions { start_poll: true, ..n }
        },
        WindowMessage::Timer(TimerKind::Countdown) => {
            refresh_usage_texts(state, texts);
            MessageActions { render: true, schedule_countdown: true, ..n }
        },
        WindowMessage::UsageUpdated { system_dark } => {
            let changed = check_theme_change(state, system_dark);
            MessageActions {
                render_for_theme: changed,
                render: true,
                schedule_countdown: true,
                update_tray: true,
                ..n
            }
        },
        WindowMessage::DisplayChanged => geometry,
        WindowMessage::DpiChanged { wparam_bits } => {
            MessageActions { set_dpi: Some(low_word(wparam_bits) as u32), ..geometry }
        },
        WindowMessage::SettingChanged { system_dark } => {
            let changed = check_theme_change(state, system_dark);
            MessageActions { render_for_theme: changed, ..geometry }
        },
    }
}

/// How the widget is drawn.
pub fn render_path(embedded: bool) -> (r: RenderPath)
    ensures
        r == (if embedded {
            RenderPath::Layered
        } else {
            RenderPath::Invalidate
        }),
{
    if embedded {
        RenderPath::Layered
    } else {
        RenderPath::Invalidate
    }
}

/// Where the widget goes, or `None` when it stays: while the user drags it,
/// and when the taskbar's rectangle is unknown.
pub open spec fn placement_for_spec(
    s: WidgetState,
    dpi: u32,
    taskbar: Option<Rect>,
    tray_left: Option<i32>,
) -> Option<(int, int, int, int)> {
    if s.dragging || taskbar is None {
        None
    } else {
        let w = total_width(dpi as int, s.prefs.panel_margin_px as int, s.prefs.panel_padding_px as int, s.prefs.widget_width_px as int);
        let h = total_height(dpi as int, s.prefs.panel_margin_px as int, s.prefs.panel_padding_px as int, s.prefs.widget_height_px as int);
        let (x, y) = placement_of(taskbar->0, tray_left, s.embedded, s.prefs.tray_offset as int, w, h);
        Some((x, y, w, h))
    }
}

/// The placement sizes and coordinates stay within `i32`.
pub open spec fn placement_for_fits(
    s: WidgetState,
    dpi: u32,
    taskbar: Option<Rect>,
    tray_left: Option<i32>,
) -> bool {
    !s.dragging && taskbar is Some ==> {
        let m = s.prefs.panel_margin_px as int;
        let p = s.prefs.panel_padding_px as int;
        &&& total_width_fits(dpi as int, m, p)
        &&& total_height_fits(dpi as int, m, p)
        &&& placement_fits(
            taskbar->0,
            tray_left,
            s.embedded,
            s.prefs.tray_offset as int,
            total_width(dpi as int, m, p, s.prefs.widget_width_px as int),
            total_height(dpi as int, m, p, s.prefs.widget_height_px as int),
        )
    }
}

/// Where the widget goes on the taskbar, or `None` when it stays where it is.
pub fn placement_for(
    state: &WidgetState,
    dpi: u32,
    taskbar: Option<Rect>,
    tray_left: Option<i32>,
) -> (r: Option<Placement>)
    requires
        placement_for_fits(*state, dpi, taskbar, tray_left),
    ensures
        match r {
            Some(p) => placement_for_spec(*state, dpi, taskbar, tray_left) == Some(
                (p.x as int, p.y as int, p.width as int, p.height as int),
            ),
            None => placement_for_spec(*state, dpi, taskbar, tray_left) is None,
        },
{
    if state.dragging {
        return None;
    }
    match taskbar {
        None => None,
        Some(rect) => {
            let m = state.prefs.panel_margin_px;
            let p = state.prefs.panel_padding_px;
            let w = total_widget_width(dpi, m, p, state.prefs.widget_width_px);
            let h = total_widget_height(dpi, m, p, state.prefs.widget_height_px);
            Some(widget_placement(rect, tray_left, state.embedded, state.prefs.tray_offset, w, h))
        },
    }
}

/// A change of system settings, like new usage data, takes in the system theme:
/// the widget then follows the theme it was told, an automatic scheme is
/// recoloured to that theme's palette, custom colours stay, and the widget is
/// drawn again for the theme exactly when the theme changed.
pub proof fn lemma_theme_followed(s: WidgetState, system_dark: bool, texts: Option<(String, String)>)
    ensures
        ({
            let msg = WindowMessage::SettingChanged { system_dark };
            let t = after_message(s, msg, texts);
            &&& t.is_dark == system_dark
            &&& s.prefs.color_scheme_mode == ColorSchemeMode::Auto && s.is_dark != system_dark ==> {
                &&& t.prefs.background_color == (if system_dark {
                    Color { r: 0x16, g: 0x16, b: 0x16 }
                } else {
                    Color { r: 0xF4, g: 0xF6, b: 0xF8 }
                })
                &&& t.prefs.font_color == (if system_dark {
                    Color { r: 0xEA, g: 0xEA, b: 0xEA }
                } else {
                    Color { r: 0x1F, g: 0x29, b: 0x33 }
                })
            }
            &&& s.prefs.color_scheme_mode == ColorSchemeMode::Custom ==> t.prefs == s.prefs
            &&& actions_of(msg, s.is_dark != t.is_dark).render_for_theme == (s.is_dark != system_dark)
            &&& actions_of(msg, s.is_dark != t.is_dark).reposition
        }),
        after_message(s, WindowMessage::UsageUpdated { system_dark }, texts).is_dark == system_dark,
        after_message(s, WindowMessage::SettingChanged { system_dark }, texts).language == s.language,
{
}

} // verus!
