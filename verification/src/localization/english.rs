use vstd::prelude::*;

use super::Strings;

verus! {

/// The English text table.
pub open spec fn strings_table() -> Strings {
    Strings {
        window_title: "Code Usage Monitor",
        refresh: "Refresh",
        update_frequency: "Update Frequency",
        one_minute: "1 Minute",
        five_minutes: "5 Minutes",
        fifteen_minutes: "15 Minutes",
        one_hour: "1 Hour",
        settings: "Settings",
        start_with_windows: "Start with Windows",
        reset_position: "Reset Position",
        language: "Language",
        system_default: "System Default",
        exit: "Exit",
        show_widget: "Show Widget",
        session_window: "5h",
        weekly_window: "7d",
        now: "now",
        day_suffix: "d",
        hour_suffix: "h",
        minute_suffix: "m",
        second_suffix: "s",
    }
}

/// Builds the English text table.
pub fn strings() -> (r: Strings)
    ensures
        r == strings_table(),
{
    Strings {
        window_title: "Code Usage Monitor",
        refresh: "Refresh",
        update_frequency: "Update Frequency",
        one_minute: "1 Minute",
        five_minutes: "5 Minutes",
        fifteen_minutes: "15 Minutes",
        one_hour: "1 Hour",
        settings: "Settings",
        start_with_windows: "Start with Windows",
        reset_position: "Reset Position",
        language: "Language",
        system_default: "System Default",
        exit: "Exit",
        show_widget: "Show Widget",
        session_window: "5h",
        weekly_window: "7d",
        now: "now",
        day_suffix: "d",
        hour_suffix: "h",
        minute_suffix: "m",
        second_suffix: "s",
    }
}

} // verus!
