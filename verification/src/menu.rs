//! The identifiers of the application's custom menu items: a fixed
//! bijection between the variants and their event-identifier strings.

use vstd::prelude::*;

use crate::strings::str_eq;

verus! {

/// One custom menu item of the application window.
#[derive(Debug, Clone, Copy, PartialEq, Eq, Structural)]
pub enum MenuItemId {
    RefreshSerialPorts,
    ShowWelcomeScreen,
    ToggleFullscreen,
    RakWirelessDiscount,
    SupportMyWork,
    CopyVersionNumber,
    CopyLogDirectory,
    OpenLogFile,
    ReportBug,
}

/// The event-identifier string of each menu item.
pub open spec fn spec_menu_item_id(m: MenuItemId) -> Seq<char> {
    match m {
        MenuItemId::RefreshSerialPorts => "refresh_serial_ports"@,
        MenuItemId::ShowWelcomeScreen => "show_welcome_screen"@,
        MenuItemId::ToggleFullscreen => "toggle_fullscreen"@,
        MenuItemId::RakWirelessDiscount => "rak_wireless_discount"@,
        MenuItemId::SupportMyWork => "support_my_work"@,
        MenuItemId::CopyVersionNumber => "copy_version_number"@,
        MenuItemId::CopyLogDirectory => "copy_log_directory"@,
        MenuItemId::OpenLogFile => "open_log_file"@,
        MenuItemId::ReportBug => "report_bug"@,
    }
}

/// The menu item a given event-identifier string names, if any.
pub open spec fn spec_menu_item_from_id(s: Seq<char>) -> Option<MenuItemId> {
    if s == "refresh_serial_ports"@ {
        Some(MenuItemId::RefreshSerialPorts)
    } else if s == "show_welcome_screen"@ {
        Some(MenuItemId::ShowWelcomeScreen)
    } else if s == "toggle_fullscreen"@ {
        Some(MenuItemId::ToggleFullscreen)
    } else if s == "rak_wireless_discount"@ {
        Some(MenuItemId::RakWirelessDiscount)
    } else if s == "support_my_work"@ {
        Some(MenuItemId::SupportMyWork)
    } else if s == "copy_version_number"@ {
        Some(MenuItemId::CopyVersionNumber)
    } else if s == "copy_log_directory"@ {
        Some(MenuItemId::CopyLogDirectory)
    } else if s == "open_log_file"@ {
        Some(MenuItemId::OpenLogFile)
    } else if s == "report_bug"@ {
        Some(MenuItemId::ReportBug)
    } else {
        None
    }
}

impl MenuItemId {
    /// The event-identifier string of this menu item.
    pub fn id(&self) -> (r: String)
        ensures
            r@ == spec_menu_item_id(*self),
    {
        match self {
            MenuItemId::RefreshSerialPorts => "refresh_serial_ports",
            MenuItemId::ShowWelcomeScreen => "show_welcome_screen",
            MenuItemId::ToggleFullscreen => "toggle_fullscreen",
            MenuItemId::RakWirelessDiscount => "rak_wireless_discount",
            MenuItemId::SupportMyWork => "support_my_work",
            MenuItemId::CopyVersionNumber => "copy_version_number",
            MenuItemId::CopyLogDirectory => "copy_log_directory",
            MenuItemId::OpenLogFile => "open_log_file",
            MenuItemId::ReportBug => "report_bug",
        }.to_owned()
    }

    /// The menu item an event-identifier string names; an unknown string
    /// names none.
    pub fn from_id(s: &str) -> (r: Option<MenuItemId>)
        ensures
            r == spec_menu_item_from_id(s@),
    {
        if str_eq(s, "refresh_serial_ports") {
            Some(MenuItemId::RefreshSerialPorts)
        } else if str_eq(s, "show_welcome_screen") {
            Some(MenuItemId::ShowWelcomeScreen)
        } else if str_eq(s, "toggle_fullscreen") {
            Some(MenuItemId::ToggleFullscreen)
        } else if str_eq(s, "rak_wireless_discount") {
            Some(MenuItemId::RakWirelessDiscount)
        } else if str_eq(s, "support_my_work") {
            Some(MenuItemId::SupportMyWork)
        } else if str_eq(s, "copy_version_number") {
            Some(MenuItemId::CopyVersionNumber)
        } else if str_eq(s, "copy_log_directory") {
            Some(MenuItemId::CopyLogDirectory)
        } else if str_eq(s, "open_log_file") {
            Some(MenuItemId::OpenLogFile)
        } else if str_eq(s, "report_bug") {
            Some(MenuItemId::ReportBug)
        } else {
            None
        }
    }
}

} // verus!
