use vstd::prelude::*;

mod english;
mod portuguese_brazil;

verus! {

/// A language the widget can be shown in.
#[derive(Clone, Copy, Debug, PartialEq, Eq, Structural)]
pub enum LanguageId {
    English,
    PortugueseBrazil,
}

/// The user-visible texts of one language.
#[derive(Clone, Copy, Debug)]
pub struct Strings {
    pub window_title: &'static str,
    pub refresh: &'static str,
    pub update_frequency: &'static str,
    pub one_minute: &'static str,
    pub five_minutes: &'static str,
    pub fifteen_minutes: &'static str,
    pub one_hour: &'static str,
    pub settings: &'static str,
    pub start_with_windows: &'static str,
    pub reset_position: &'static str,
    pub language: &'static str,
    pub system_default: &'static str,
    pub exit: &'static str,
    pub show_widget: &'static str,
    pub session_window: &'static str,
    pub weekly_window: &'static str,
    pub now: &'static str,
    pub day_suffix: &'static str,
    pub hour_suffix: &'static str,
    pub minute_suffix: &'static str,
    pub second_suffix: &'static str,
}

/// The language used when there is no override and the system's language is
/// not one the widget has.
pub open spec fn default_language() -> LanguageId {
    LanguageId::PortugueseBrazil
}

/// The language shown: the override when one is chosen, else the system's
/// language when the widget has it, else the default.
pub open spec fn resolved_language(
    language_override: Option<LanguageId>,
    system_language: Option<LanguageId>,
) -> LanguageId {
    match language_override {
        Some(l) => l,
        None => match system_language {
            Some(l) => l,
            None => default_language(),
        },
    }
}

/// The language of a Windows UI language id, when the widget has it: its
/// primary language (the low ten bits) is English or Portuguese.
pub open spec fn language_of_ui_id(ui_language_id: u16) -> Option<LanguageId> {
    let primary = ui_language_id as int % 0x400;
    if primary == 0x09 {
        Some(LanguageId::English)
    } else if primary == 0x16 {
        Some(LanguageId::PortugueseBrazil)
    } else {
        None
    }
}

/// The name of each language written in that language.
pub open spec fn native_name_of(language: LanguageId) -> &'static str {
    match language {
        LanguageId::English => "English",
        LanguageId::PortugueseBrazil => "Português (Brasil)",
    }
}

/// The text table of each language.
pub open spec fn strings_of(language: LanguageId) -> Strings {
    match language {
        LanguageId::English => english::strings_table(),
        LanguageId::PortugueseBrazil => portuguese_brazil::strings_table(),
    }
}

impl LanguageId {
    /// Every language, in the order the language menu lists them.
    pub const ALL: [LanguageId; 2] = [LanguageId::English, LanguageId::PortugueseBrazil];

    /// The language's own name for itself, as shown in the language menu.
    pub fn native_name(self) -> (r: &'static str)
        ensures
            r == native_name_of(self),
    {
        match self {
            LanguageId::English => "English",
            LanguageId::PortugueseBrazil => "Português (Brasil)",
        }
    }

    /// The text table of this language.
    pub fn strings(self) -> (r: Strings)
        ensures
            r == strings_of(self),
    {
        match self {
            LanguageId::English => english::strings(),
            LanguageId::PortugueseBrazil => portuguese_brazil::strings(),
        }
    }
}

/// Picks the language to show: the override when there is one, else the
/// system's language when the widget has it, else Brazilian Portuguese.
pub fn resolve_language(
    language_override: Option<LanguageId>,
    system_language: Option<LanguageId>,
) -> (r: LanguageId)
    ensures
        r == resolved_language(language_override, system_language),
        language_override matches Some(o) ==> r == o,
        language_override is None ==> (system_language matches Some(l) ==> r == l),
        language_override is None && system_language is None ==> r == LanguageId::PortugueseBrazil,
{
    match language_override {
        Some(l) => l,
        None => match system_language {
            Some(l) => l,
            None => LanguageId::PortugueseBrazil,
        },
    }
}

/// The widget's language for a Windows UI language id, when it has one.
pub fn language_from_ui_language(ui_language_id: u16) -> (r: Option<LanguageId>)
    ensures
        r == language_of_ui_id(ui_language_id),
{
    let primary = ui_language_id & 0x3FF;
    assert(ui_language_id & 0x3FF == ui_language_id % 0x400) by (bit_vector);
    if primary == 0x09 {
        Some(LanguageId::English)
    } else if primary == 0x16 {
        Some(LanguageId::PortugueseBrazil)
    } else {
        None
    }
}

/// A chosen override is always the language shown, whatever the system's language.
pub proof fn lemma_override_wins(o: LanguageId, system_language: Option<LanguageId>)
    ensures
        resolved_language(Some(o), system_language) == o,
{
}

/// Without an override, the system's language is shown when the widget has it,
/// and Brazilian Portuguese otherwise.
pub proof fn lemma_no_override(system_language: Option<LanguageId>)
    ensures
        system_language matches Some(l) ==> resolved_language(None, system_language) == l,
        system_language is None ==> resolved_language(None, system_language)
            == LanguageId::PortugueseBrazil,
{
}

/// The shown language is always the override, the system's language or
/// Brazilian Portuguese, and the override is chosen over the others.
pub proof fn lemma_resolution_order(o: Option<LanguageId>, sys: Option<LanguageId>)
    ensures
        resolved_language(o, sys) == LanguageId::PortugueseBrazil || Some(resolved_language(o, sys))
            == o || Some(resolved_language(o, sys)) == sys,
        o is Some ==> Some(resolved_language(o, sys)) == o,
{
}

} // verus!
