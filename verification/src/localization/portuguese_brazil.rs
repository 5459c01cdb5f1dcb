use vstd::prelude::*;

use super::Strings;

verus! {

/// The Brazilian Portuguese text table.
pub open spec fn strings_table() -> Strings {
    Strings {
        window_title: "Code Usage Monitor",
        refresh: "Atualizar",
        update_frequency: "Frequência de atualização",
        one_minute: "1 minuto",
        five_minutes: "5 minutos",
        fifteen_minutes: "15 minutos",
        one_hour: "1 hora",
        settings: "Configurações",
        start_with_windows: "Iniciar com o Windows",
        reset_position: "Redefinir posição",
        language: "Idioma",
        system_default: "Padrão do sistema",
        exit: "Sair",
        show_widget: "Mostrar widget",
        session_window: "5h",
        weekly_window: "7d",
        now: "agora",
        day_suffix: "d",
        hour_suffix: "h",
        minute_suffix: "m",
        second_suffix: "s",
    }
}

/// Builds the Brazilian Portuguese text table.
pub fn strings() -> (r: Strings)
    ensures
        r == strings_table(),
{
    Strings {
        window_title: "Code Usage Monitor",
        refresh: "Atualizar",
        update_frequency: "Frequência de atualização",
        one_minute: "1 minuto",
        five_minutes: "5 minutos",
        fifteen_minutes: "15 minutos",
        one_hour: "1 hora",
        settings: "Configurações",
        start_with_windows: "Iniciar com o Windows",
        reset_position: "Redefinir posição",
        language: "Idioma",
        system_default: "Padrão do sistema",
        exit: "Sair",
        show_widget: "Mostrar widget",
        session_window: "5h",
        weekly_window: "7d",
        now: "agora",
        day_suffix: "d",
        hour_suffix: "h",
        minute_suffix: "m",
        second_suffix: "s",
    }
}

} // verus!
