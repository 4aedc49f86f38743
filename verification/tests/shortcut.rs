use win11_clipboard_history::shortcut_setup::{
    can_register, check_shortcut_tools, classify_desktop, contains, get_desktop_environment,
    get_manual_instructions, register_de_shortcut, same_text, ToolAvailability,
};

fn tools(gsettings: bool, k5: bool, k6: bool, xfconf: bool, dconf: bool) -> ToolAvailability {
    ToolAvailability {
        gsettings,
        kwriteconfig5: k5,
        kwriteconfig6: k6,
        xfconf_query: xfconf,
        dconf,
    }
}

#[test]
fn contains_agrees_with_std() {
    let hays = ["", "a", "gnome", "ubuntu:gnome ", "xkdex", "kd e", "ééé"];
    let needles = ["", "a", "gnome", "kde", "é", "éé", "gnomes"];
    for hay in hays {
        for needle in needles {
            assert_eq!(contains(hay, needle), hay.contains(needle));
        }
    }
    assert!(same_text("a", "a"));
    assert!(!same_text("a", "A"));
}

#[test]
fn desktop_environments() {
    assert_eq!(get_desktop_environment("ubuntu:GNOME", "ubuntu"), "GNOME");
    assert_eq!(get_desktop_environment("Unity", ""), "GNOME");
    assert_eq!(get_desktop_environment("Pantheon", ""), "GNOME");
    assert_eq!(get_desktop_environment("X-Cinnamon", "cinnamon"), "Cinnamon");
    assert_eq!(get_desktop_environment("KDE", "plasma"), "KDE Plasma");
    assert_eq!(get_desktop_environment("", "PLASMA"), "KDE Plasma");
    assert_eq!(get_desktop_environment("XFCE", "xfce"), "XFCE");
    assert_eq!(get_desktop_environment("MATE", ""), "MATE");
    assert_eq!(get_desktop_environment("LXDE", ""), "LXDE");
    assert_eq!(get_desktop_environment("LXQt", ""), "LXQt");
    assert_eq!(get_desktop_environment("COSMIC", ""), "COSMIC");
    assert_eq!(get_desktop_environment("Budgie:GNOME", ""), "GNOME");
    assert_eq!(get_desktop_environment("Budgie", ""), "Budgie");
    assert_eq!(get_desktop_environment("Deepin", ""), "Deepin");
    assert_eq!(get_desktop_environment("sway", "i3"), "SWAY");
    assert_eq!(get_desktop_environment("", ""), "");
    assert_eq!(get_desktop_environment("\u{212a}DE", ""), "KDE Plasma");
    assert_eq!(get_desktop_environment("straße", ""), "STRASSE");
    assert_eq!(classify_desktop("x gnome"), Some("GNOME"));
    assert_eq!(classify_desktop("i3 "), None);
    assert_eq!(classify_desktop("GNOME"), None);
}

#[test]
fn automatic_registration() {
    let none = tools(false, false, false, false, false);
    for de in ["GNOME", "Cinnamon", "MATE", "Budgie", "Deepin"] {
        assert!(!can_register(de, none));
        assert!(can_register(de, tools(true, false, false, false, false)));
        assert!(can_register(de, tools(false, false, false, false, true)));
        assert!(!can_register(de, tools(false, true, true, true, false)));
    }
    assert!(can_register("KDE Plasma", tools(false, true, false, false, false)));
    assert!(can_register("KDE Plasma", tools(false, false, true, false, false)));
    assert!(!can_register("KDE Plasma", tools(true, false, false, true, true)));
    assert!(can_register("XFCE", tools(false, false, false, true, false)));
    assert!(!can_register("XFCE", tools(true, true, true, false, true)));
    for de in ["LXQt", "LXDE", "COSMIC"] {
        assert!(can_register(de, none));
    }
    assert!(can_register("SWAY", tools(true, false, false, false, false)));
    assert!(!can_register("SWAY", tools(false, true, true, true, true)));
}

#[test]
fn status_for_the_wizard() {
    let status = check_shortcut_tools("KDE", "", tools(true, false, true, false, false));
    assert_eq!(status.desktop_environment, "KDE Plasma");
    assert!(status.gsettings_available);
    assert!(status.kde_tools_available);
    assert!(!status.xfce_tools_available);
    assert!(status.can_register_automatically);
    assert_eq!(status.manual_instructions, get_manual_instructions("KDE Plasma"));
    let status = check_shortcut_tools("sway", "", tools(false, false, false, true, true));
    assert_eq!(status.desktop_environment, "SWAY");
    assert!(!status.kde_tools_available);
    assert!(status.xfce_tools_available);
    assert!(!status.can_register_automatically);
    assert!(status.manual_instructions.starts_with("**Generic Instructions:**"));
}

#[test]
fn manual_instructions() {
    let heads = [
        ("GNOME", "**GNOME Settings:**\n1. Open Settings → Keyboard"),
        ("KDE Plasma", "**KDE System Settings:**"),
        ("Cinnamon", "**Cinnamon Settings:**"),
        ("XFCE", "**XFCE Settings:**"),
        ("MATE", "**MATE Control Center:**"),
        ("LXQt", "**LXQt Configuration:**"),
        ("LXDE", "**LXDE/Openbox:**"),
        ("COSMIC", "**COSMIC Settings:**"),
        ("Budgie", "**Generic Instructions:**"),
        ("", "**Generic Instructions:**"),
    ];
    for (de, head) in heads {
        assert!(get_manual_instructions(de).starts_with(head), "{}", de);
    }
    assert_eq!(
        get_manual_instructions("XFCE"),
        "**XFCE Settings:**\n1. Open Settings → Keyboard → Application Shortcuts\n2. Click \"Add\"\n3. Command: `win11-clipboard-history`\n4. Press Super+V when prompted"
    );
    assert!(get_manual_instructions("LXDE").ends_with("3. Run: openbox --reconfigure"));
    assert!(get_manual_instructions("LXDE").contains("<keybind key=\"Super_L+v\">\n  <action name=\"Execute\">"));
    assert!(get_manual_instructions("gnome").starts_with("**Generic"));
}

#[test]
fn registration_answer() {
    assert_eq!(
        register_de_shortcut(true),
        Ok("Shortcut registration initiated. Check the app logs for details.".to_string())
    );
    assert_eq!(
        register_de_shortcut(false),
        Err("Shortcut registration is only supported on Linux.".to_string())
    );
}
