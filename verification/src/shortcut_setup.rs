//! Setting up the global shortcut: which desktop environment runs, whether
//! its tools are there to register the shortcut, and what to tell the user
//! who has to do it by hand.

use vstd::prelude::*;
use vstd::string::*;

verus! {

pub const GNOME_INSTRUCTIONS: &'static str = "**GNOME Settings:**\n1. Open Settings → Keyboard → Keyboard Shortcuts → Custom Shortcuts\n2. Click \"+\" to add a new shortcut\n3. Name: \"Clipboard History\"\n4. Command: `win11-clipboard-history`\n5. Shortcut: Press Super+V";

pub const KDE_INSTRUCTIONS: &'static str = "**KDE System Settings:**\n1. Open System Settings → Shortcuts → Custom Shortcuts\n2. Click \"Edit\" → \"New\" → \"Global Shortcut\" → \"Command/URL\"\n3. Name: \"Clipboard History\"\n4. Trigger: Click and press Meta+V\n5. Action: `win11-clipboard-history`";

pub const CINNAMON_INSTRUCTIONS: &'static str = "**Cinnamon Settings:**\n1. Open System Settings → Keyboard → Shortcuts → Custom Shortcuts\n2. Click \"Add custom shortcut\"\n3. Name: \"Clipboard History\"\n4. Command: `win11-clipboard-history`\n5. Click on the shortcut area and press Super+V";

pub const XFCE_INSTRUCTIONS: &'static str = "**XFCE Settings:**\n1. Open Settings → Keyboard → Application Shortcuts\n2. Click \"Add\"\n3. Command: `win11-clipboard-history`\n4. Press Super+V when prompted";

pub const MATE_INSTRUCTIONS: &'static str = "**MATE Control Center:**\n1. Open Control Center → Keyboard Shortcuts\n2. Click \"Add\"\n3. Name: \"Clipboard History\"\n4. Command: `win11-clipboard-history`\n5. Click on the shortcut and press Super+V";

pub const LXQT_INSTRUCTIONS: &'static str = "**LXQt Configuration:**\n1. Open LXQt Configuration → Shortcut Keys\n2. Click \"Add\"\n3. Description: \"Clipboard History\"\n4. Command: `win11-clipboard-history`\n5. Set shortcut to Meta+V";

pub const LXDE_INSTRUCTIONS: &'static str = "**LXDE/Openbox:**\n1. Edit ~/.config/openbox/lxde-rc.xml\n2. Add in <keyboard> section:\n\n<keybind key=\"Super_L+v\">\n  <action name=\"Execute\">\n    <command>win11-clipboard-history</command>\n  </action>\n</keybind>\n\n3. Run: openbox --reconfigure";

pub const COSMIC_INSTRUCTIONS: &'static str = "**COSMIC Settings:**\n1. Open Settings → Keyboard → Custom Shortcuts\n2. Add new shortcut\n3. Command: `win11-clipboard-history`\n4. Binding: Super+V";

pub const GENERIC_INSTRUCTIONS: &'static str = "**Generic Instructions:**\n1. Open your desktop environment's keyboard shortcuts settings\n2. Add a new custom shortcut\n3. Command: `win11-clipboard-history`\n4. Shortcut: Super+V (or your preferred combination)";

/// Whether `needle` occurs in `hay` as a run of characters.
pub open spec fn contains_spec(hay: Seq<char>, needle: Seq<char>) -> bool {
    exists|i: int|
        0 <= i && i + needle.len() <= hay.len() && #[trigger] hay.subrange(i, i + needle.len())
            == needle
}

/// Whether two texts are the same.
pub fn same_text(a: &str, b: &str) -> (same: bool)
    ensures
        same == (a@ == b@),
{
    String::from_str(a) == String::from_str(b)
}

/// Whether `needle` occurs in `hay`.
pub fn contains(hay: &str, needle: &str) -> (found: bool)
    ensures
        found == contains_spec(hay@, needle@),
{
    let n = hay.unicode_len();
    let m = needle.unicode_len();
    if m > n {
        return false;
    }
    if m == 0 {
        assert(contains_spec(hay@, needle@)) by {
            let i = 0int;
            assert(hay@.subrange(i, i + needle@.len()) =~= needle@);
        }
        return true;
    }
    let mut i: usize = 0;
    while i <= n - m
        invariant
            n == hay@.len(),
            m == needle@.len(),
            0 < m <= n,
            i <= n - m + 1,
            forall|j: int| 0 <= j < i ==> #[trigger] hay@.subrange(j, j + m) != needle@,
        decreases n - m + 1 - i,
    {
        if same_text(hay.substring_char(i, i + m), needle) {
            return true;
        }
        i = i + 1;
    }
    false
}

/// What `str::to_lowercase` of std makes of a text.
pub uninterp spec fn lowercase_of(text: Seq<char>) -> Seq<char>;

/// What `str::to_uppercase` of std makes of a text.
pub uninterp spec fn uppercase_of(text: Seq<char>) -> Seq<char>;

/// `str::to_lowercase` of std: the text in lower case as Unicode defines it,
/// which depends on the text alone.
#[verifier::external_body]
fn to_lowercase(text: &str) -> (lower: String)
    ensures
        lower@ == lowercase_of(text@),
{
    text.to_lowercase()
}

/// `str::to_uppercase` of std: the text in upper case as Unicode defines it,
/// which depends on the text alone.
#[verifier::external_body]
fn to_uppercase(text: &str) -> (upper: String)
    ensures
        upper@ == uppercase_of(text@),
{
    text.to_uppercase()
}

/// The desktop environment that a text in lower case names, by the first of
/// the known names that occurs in it.
pub open spec fn known_desktop(combined: Seq<char>) -> Option<Seq<char>> {
    if contains_spec(combined, "gnome"@) || contains_spec(combined, "unity"@) || contains_spec(combined, "pantheon"@) {
        Some("GNOME"@)
    } else if contains_spec(combined, "cinnamon"@) {
        Some("Cinnamon"@)
    } else if contains_spec(combined, "kde"@) || contains_spec(combined, "plasma"@) {
        Some("KDE Plasma"@)
    } else if contains_spec(combined, "xfce"@) {
        Some("XFCE"@)
    } else if contains_spec(combined, "mate"@) {
        Some("MATE"@)
    } else if contains_spec(combined, "lxde"@) {
        Some("LXDE"@)
    } else if contains_spec(combined, "lxqt"@) {
        Some("LXQt"@)
    } else if contains_spec(combined, "cosmic"@) {
        Some("COSMIC"@)
    } else if contains_spec(combined, "budgie"@) {
        Some("Budgie"@)
    } else if contains_spec(combined, "deepin"@) {
        Some("Deepin"@)
    } else {
        None
    }
}

/// Tells the desktop environment from a text in lower case.
pub fn classify_desktop(combined: &str) -> (name: Option<&'static str>)
    ensures
        match name {
            Some(name) => known_desktop(combined@) == Some(name@),
            None => known_desktop(combined@) is None,
        },
{
    if contains(combined, "gnome") || contains(combined, "unity") || contains(combined, "pantheon") {
        Some("GNOME")
    } else if contains(combined, "cinnamon") {
        Some("Cinnamon")
    } else if contains(combined, "kde") || contains(combined, "plasma") {
        Some("KDE Plasma")
    } else if contains(combined, "xfce") {
        Some("XFCE")
    } else if contains(combined, "mate") {
        Some("MATE")
    } else if contains(combined, "lxde") {
        Some("LXDE")
    } else if contains(combined, "lxqt") {
        Some("LXQt")
    } else if contains(combined, "cosmic") {
        Some("COSMIC")
    } else if contains(combined, "budgie") {
        Some("Budgie")
    } else if contains(combined, "deepin") {
        Some("Deepin")
    } else {
        None
    }
}

/// The name of the desktop environment, given the two variables in lower
/// case and the first of them in upper case: the known environment that the
/// two name together, or else the first variable in upper case.
pub open spec fn desktop_environment_spec(
    current_lower: Seq<char>,
    session_lower: Seq<char>,
    current_upper: Seq<char>,
) -> Seq<char> {
    match known_desktop(current_lower + " "@ + session_lower) {
        Some(name) => name,
        None => current_upper,
    }
}

/// The name of the desktop environment, told from the values of
/// `XDG_CURRENT_DESKTOP` and `XDG_SESSION_DESKTOP` (empty where unset).
pub fn get_desktop_environment(xdg_current: &str, xdg_session: &str) -> (name: String)
    ensures
        name@ == desktop_environment_spec(
            lowercase_of(xdg_current@),
            lowercase_of(xdg_session@),
            uppercase_of(lowercase_of(xdg_current@)),
        ),
{
    let current = to_lowercase(xdg_current);
    let session = to_lowercase(xdg_session);
    let mut combined = current.clone();
    combined.append(" ");
    combined.append(session.as_str());
    match classify_desktop(combined.as_str()) {
        Some(name) => String::from_str(name),
        None => to_uppercase(current.as_str()),
    }
}

/// Which of the tools that register shortcuts are installed.
#[derive(Clone, Copy, Debug, PartialEq, Eq, Structural)]
pub struct ToolAvailability {
    pub gsettings: bool,
    pub kwriteconfig5: bool,
    pub kwriteconfig6: bool,
    pub xfconf_query: bool,
    pub dconf: bool,
}

/// Whether the shortcut can be registered without the user: with the tools
/// of the environment where it has some, always where it is set up through
/// files, and with `gsettings` in an environment that is not known.
pub open spec fn can_register_spec(de: Seq<char>, tools: ToolAvailability) -> bool {
    if de == "GNOME"@ || de == "Cinnamon"@ || de == "MATE"@ || de == "Budgie"@ || de == "Deepin"@ {
        tools.gsettings || tools.dconf
    } else if de == "KDE Plasma"@ {
        tools.kwriteconfig5 || tools.kwriteconfig6
    } else if de == "XFCE"@ {
        tools.xfconf_query
    } else if de == "LXQt"@ || de == "LXDE"@ || de == "COSMIC"@ {
        true
    } else {
        tools.gsettings
    }
}

pub fn can_register(de: &str, tools: ToolAvailability) -> (can: bool)
    ensures
        can == can_register_spec(de@, tools),
{
    if same_text(de, "GNOME") || same_text(de, "Cinnamon") || same_text(de, "MATE") || same_text(
        de,
        "Budgie",
    ) || same_text(de, "Deepin") {
        tools.gsettings || tools.dconf
    } else if same_text(de, "KDE Plasma") {
        tools.kwriteconfig5 || tools.kwriteconfig6
    } else if same_text(de, "XFCE") {
        tools.xfconf_query
    } else if same_text(de, "LXQt") || same_text(de, "LXDE") || same_text(de, "COSMIC") {
        true
    } else {
        tools.gsettings
    }
}

/// What the setup wizard is told.
#[derive(Debug)]
pub struct ShortcutToolsStatus {
    pub desktop_environment: String,
    pub gsettings_available: bool,
    pub kde_tools_available: bool,
    pub xfce_tools_available: bool,
    pub can_register_automatically: bool,
    pub manual_instructions: String,
}

/// The status for the desktop environment `de` and the tools found.
pub fn shortcut_tools_status(de: String, tools: ToolAvailability) -> (status: ShortcutToolsStatus)
    ensures
        status.desktop_environment@ == de@,
        status.gsettings_available == tools.gsettings,
        status.kde_tools_available == (tools.kwriteconfig5 || tools.kwriteconfig6),
        status.xfce_tools_available == tools.xfconf_query,
        status.can_register_automatically == can_register_spec(de@, tools),
        status.manual_instructions@ == manual_instructions_spec(de@),
{
    let can = can_register(de.as_str(), tools);
    let manual = get_manual_instructions(de.as_str());
    ShortcutToolsStatus {
        desktop_environment: de,
        gsettings_available: tools.gsettings,
        kde_tools_available: tools.kwriteconfig5 || tools.kwriteconfig6,
        xfce_tools_available: tools.xfconf_query,
        can_register_automatically: can,
        manual_instructions: manual,
    }
}

/// The status for the environment that the two variables name and the tools
/// found.
pub fn check_shortcut_tools(xdg_current: &str, xdg_session: &str, tools: ToolAvailability) -> (status:
    ShortcutToolsStatus)
    ensures
        ({
            let de = desktop_environment_spec(
                lowercase_of(xdg_current@),
                lowercase_of(xdg_session@),
                uppercase_of(lowercase_of(xdg_current@)),
            );
            &&& status.desktop_environment@ == de
            &&& status.gsettings_available == tools.gsettings
            &&& status.kde_tools_available == (tools.kwriteconfig5 || tools.kwriteconfig6)
            &&& status.xfce_tools_available == tools.xfconf_query
            &&& status.can_register_automatically == can_register_spec(de, tools)
            &&& status.manual_instructions@ == manual_instructions_spec(de)
        }),
{
    shortcut_tools_status(get_desktop_environment(xdg_current, xdg_session), tools)
}

/// What to tell a user of the desktop environment `de` who sets the
/// shortcut up by hand.
pub open spec fn manual_instructions_spec(de: Seq<char>) -> Seq<char> {
    if de == "GNOME"@ {
        GNOME_INSTRUCTIONS@
    } else if de == "KDE Plasma"@ {
        KDE_INSTRUCTIONS@
    } else if de == "Cinnamon"@ {
        CINNAMON_INSTRUCTIONS@
    } else if de == "XFCE"@ {
        XFCE_INSTRUCTIONS@
    } else if de == "MATE"@ {
        MATE_INSTRUCTIONS@
    } else if de == "LXQt"@ {
        LXQT_INSTRUCTIONS@
    } else if de == "LXDE"@ {
        LXDE_INSTRUCTIONS@
    } else if de == "COSMIC"@ {
        COSMIC_INSTRUCTIONS@
    } else {
        GENERIC_INSTRUCTIONS@
    }
}

pub fn get_manual_instructions(de: &str) -> (text: String)
    ensures
        text@ == manual_instructions_spec(de@),
{
    let text = if same_text(de, "GNOME") {
        GNOME_INSTRUCTIONS
    } else if same_text(de, "KDE Plasma") {
        KDE_INSTRUCTIONS
    } else if same_text(de, "Cinnamon") {
        CINNAMON_INSTRUCTIONS
    } else if same_text(de, "XFCE") {
        XFCE_INSTRUCTIONS
    } else if same_text(de, "MATE") {
        MATE_INSTRUCTIONS
    } else if same_text(de, "LXQt") {
        LXQT_INSTRUCTIONS
    } else if same_text(de, "LXDE") {
        LXDE_INSTRUCTIONS
    } else if same_text(de, "COSMIC") {
        COSMIC_INSTRUCTIONS
    } else {
        GENERIC_INSTRUCTIONS
    };
    String::from_str(text)
}

/// What the wizard is told when it asks for the shortcut to be registered:
/// that the registration was started, on a platform where it can be; that it
/// cannot be, elsewhere. The registration itself runs beside the caller.
pub fn register_de_shortcut(supported: bool) -> (answer: Result<String, String>)
    ensures
        supported ==> answer is Ok && answer->Ok_0@
            == "Shortcut registration initiated. Check the app logs for details."@,
        !supported ==> answer is Err && answer->Err_0@
            == "Shortcut registration is only supported on Linux."@,
{
    if supported {
        Ok(String::from_str("Shortcut registration initiated. Check the app logs for details."))
    } else {
        Err(String::from_str("Shortcut registration is only supported on Linux."))
    }
}

} // verus!
