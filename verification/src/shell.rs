//! The frame of every page: navigation, language and looks.
use crate::locale::{tr, Locale};
use crate::text::{cat2, cat3, cat5, same};
use vstd::prelude::*;

verus! {

/// The sections in menu order.
pub open spec fn nav_keys() -> Seq<&'static str> {
    seq![
        "dashboard",
        "monitoring",
        "servers",
        "users",
        "audit",
        "alerts",
        "settings",
        "boosty",
    ]
}

/// Path of a section; the dashboard is the home page.
pub open spec fn nav_path(key: Seq<char>) -> Seq<char> {
    if key == "dashboard"@ {
        "/admin/"@
    } else {
        "/admin/"@ + key
    }
}

/// Path of a section; the dashboard is the home page.
pub fn nav_href(key: &str) -> (r: String)
    ensures
        r@ == nav_path(key@),
{
    if same(key, "dashboard") {
        "/admin/".to_owned()
    } else {
        cat2("/admin/", key)
    }
}

/// A section in the menu.
pub struct NavLink {
    pub key: &'static str,
    pub href: String,
    pub active: bool,
    /// Number to draw attention to.
    pub count: Option<u64>,
}

/// `l` is the menu entry of section `key`. Only alerts that wait carry a
/// number.
pub open spec fn nav_link(
    l: NavLink,
    key: &'static str,
    active: Seq<char>,
    alerts_unacked: u64,
) -> bool {
    &&& l.key == key
    &&& l.href@ == nav_path(key@)
    &&& l.active == (key@ == active)
    &&& l.count == (if key@ == "alerts"@ && alerts_unacked > 0 {
        Some(alerts_unacked)
    } else {
        None
    })
}

/// The bar on top of every page.
pub struct Topbar {
    pub links: Vec<NavLink>,
    /// The language to switch to.
    pub other: Locale,
    pub search_title: &'static str,
    pub search_hint: &'static str,
    /// What switching does, in the other language.
    pub switch_title: &'static str,
    pub logout_title: &'static str,
    pub logout: &'static str,
}

/// The other of the two languages.
pub open spec fn other_language(lang: Locale) -> Locale {
    match lang {
        Locale::En => Locale::Ru,
        Locale::Ru => Locale::En,
    }
}

/// Switching the language twice leads back.
pub proof fn switching_twice(lang: Locale)
    ensures
        other_language(lang) != lang,
        other_language(other_language(lang)) == lang,
{
}

/// The bar on top of the page of section `active`.
pub fn topbar(active: &str, lang: Locale, alerts_unacked: u64) -> (r: Topbar)
    ensures
        r.links@.len() == nav_keys().len(),
        forall|i: int|
            0 <= i < r.links@.len() ==> nav_link(
                #[trigger] r.links@[i],
                nav_keys()[i],
                active@,
                alerts_unacked,
            ),
        r.other == other_language(lang),
        r.search_title == crate::locale::in_language(
            lang,
            "Fleet-wide search — press / to focus",
            "Поиск по флоту — нажми / чтобы сфокусировать",
        ),
        r.search_hint == crate::locale::in_language(lang, "search…  /", "поиск…  /"),
        r.switch_title == crate::locale::in_language(
            r.other,
            "Switch admin UI to English",
            "Переключить админку на русский",
        ),
        r.logout_title == crate::locale::in_language(
            lang,
            "Sign out of the admin UI on this device",
            "Выйти из админки на этом устройстве",
        ),
        r.logout == crate::locale::in_language(lang, "logout", "выйти"),
{
    let keys = vec![
        "dashboard",
        "monitoring",
        "servers",
        "users",
        "audit",
        "alerts",
        "settings",
        "boosty",
    ];
    let mut links: Vec<NavLink> = Vec::new();
    let mut i: usize = 0;
    while i < keys.len()
        invariant
            i <= keys.len(),
            keys@ == nav_keys(),
            links@.len() == i,
            forall|j: int|
                0 <= j < i ==> nav_link(
                    #[trigger] links@[j],
                    nav_keys()[j],
                    active@,
                    alerts_unacked,
                ),
        decreases keys.len() - i,
    {
        let key = keys[i];
        links.push(
            NavLink {
                key,
                href: nav_href(key),
                active: same(key, active),
                count: if same(key, "alerts") && alerts_unacked > 0 {
                    Some(alerts_unacked)
                } else {
                    None
                },
            },
        );
        i = i + 1;
    }
    let other = match lang {
        Locale::En => Locale::Ru,
        Locale::Ru => Locale::En,
    };
    Topbar {
        links,
        other,
        search_title: tr(
            lang,
            "Fleet-wide search — press / to focus",
            "Поиск по флоту — нажми / чтобы сфокусировать",
        ),
        search_hint: tr(lang, "search…  /", "поиск…  /"),
        switch_title: tr(
            other,
            "Switch admin UI to English",
            "Переключить админку на русский",
        ),
        logout_title: tr(
            lang,
            "Sign out of the admin UI on this device",
            "Выйти из админки на этом устройстве",
        ),
        logout: tr(lang, "logout", "выйти"),
    }
}

/// The paper themes.
pub open spec fn themes() -> Seq<&'static str> {
    seq!["default", "newsprint", "foxed", "ink"]
}

/// The accent colours.
pub open spec fn accents() -> Seq<&'static str> {
    seq!["default", "rust", "forest", "plum"]
}

/// A button that changes the looks.
pub struct TweakButton {
    pub value: &'static str,
    pub title: String,
    pub style: String,
}

/// `b` is the button of `name`, filled with `fill` where it is chosen.
pub open spec fn tweak_button(
    b: TweakButton,
    name: &'static str,
    chosen: Seq<char>,
    prompt: Seq<char>,
    fill: Seq<char>,
) -> bool {
    &&& b.value == name
    &&& b.title@ == prompt + " "@ + name@
    &&& b.style@ == "padding: 3px 9px; border: 1px solid var(--rule-s); background: "@ + (if name@
        == chosen {
        fill
    } else {
        "transparent"@
    }) + "; color: "@ + (if name@ == chosen {
        "var(--paper)"@
    } else {
        "var(--ink)"@
    }) + "; font-family: var(--mono); font-size: 11px; cursor: pointer;"@
}

/// `bs` has one button per name.
pub open spec fn tweak_buttons(
    bs: Seq<TweakButton>,
    names: Seq<&'static str>,
    chosen: Seq<char>,
    prompt: Seq<char>,
    fill: Seq<char>,
) -> bool {
    &&& bs.len() == names.len()
    &&& forall|i: int|
        0 <= i < bs.len() ==> tweak_button(#[trigger] bs[i], names[i], chosen, prompt, fill)
}

fn buttons(
    names: &Vec<&'static str>,
    chosen: &str,
    prompt: &str,
    fill: &str,
) -> (r: Vec<TweakButton>)
    ensures
        tweak_buttons(r@, names@, chosen@, prompt@, fill@),
{
    let mut r: Vec<TweakButton> = Vec::new();
    let mut i: usize = 0;
    while i < names.len()
        invariant
            i <= names.len(),
            r@.len() == i,
            forall|j: int|
                0 <= j < i ==> tweak_button(
                    #[trigger] r@[j],
                    names@[j],
                    chosen@,
                    prompt@,
                    fill@,
                ),
        decreases names.len() - i,
    {
        let name = names[i];
        let on = same(name, chosen);
        r.push(
            TweakButton {
                value: name,
                title: cat3(prompt, " ", name),
                style: cat5(
                    "padding: 3px 9px; border: 1px solid var(--rule-s); background: ",
                    if on {
                        fill
                    } else {
                        "transparent"
                    },
                    "; color: ",
                    if on {
                        "var(--paper)"
                    } else {
                        "var(--ink)"
                    },
                    "; font-family: var(--mono); font-size: 11px; cursor: pointer;",
                ),
            },
        );
        i = i + 1;
    }
    r
}

/// The buttons that change theme and accent.
pub struct Tweaks {
    pub themes: Vec<TweakButton>,
    pub accents: Vec<TweakButton>,
}

/// The buttons that change theme and accent, the chosen ones filled.
pub fn tweaks_inline(theme: &str, accent: &str, lang: Locale) -> (r: Tweaks)
    ensures
        tweak_buttons(
            r.themes@,
            themes(),
            theme@,
            crate::locale::in_language(
                lang,
                "Switch paper theme to",
                "Переключить тему бумаги на",
            )@,
            "var(--ink)"@,
        ),
        tweak_buttons(
            r.accents@,
            accents(),
            accent@,
            crate::locale::in_language(
                lang,
                "Switch accent colour to",
                "Переключить акцентный цвет на",
            )@,
            "var(--acc)"@,
        ),
{
    let theme_names = vec!["default", "newsprint", "foxed", "ink"];
    let accent_names = vec!["default", "rust", "forest", "plum"];
    assert(theme_names@ =~= themes());
    assert(accent_names@ =~= accents());
    Tweaks {
        themes: buttons(
            &theme_names,
            theme,
            tr(lang, "Switch paper theme to", "Переключить тему бумаги на"),
            "var(--ink)",
        ),
        accents: buttons(
            &accent_names,
            accent,
            tr(lang, "Switch accent colour to", "Переключить акцентный цвет на"),
            "var(--acc)",
        ),
    }
}

/// Class of a theme; nothing for the default and the unknown.
pub open spec fn theme_class(theme: Seq<char>) -> Seq<char> {
    if theme == "newsprint"@ {
        " ed-newsprint"@
    } else if theme == "foxed"@ {
        " ed-foxed"@
    } else if theme == "ink"@ {
        " ed-ink"@
    } else {
        Seq::empty()
    }
}

/// Class of an accent; nothing for the default and the unknown.
pub open spec fn accent_class(accent: Seq<char>) -> Seq<char> {
    if accent == "rust"@ {
        " ed-acc-rust"@
    } else if accent == "forest"@ {
        " ed-acc-forest"@
    } else if accent == "plum"@ {
        " ed-acc-plum"@
    } else {
        Seq::empty()
    }
}

/// Class of the page for a theme and an accent.
pub fn root_class(theme: &str, accent: &str) -> (r: String)
    ensures
        r@ == "ed"@ + theme_class(theme@) + accent_class(accent@),
{
    let t = if same(theme, "newsprint") {
        " ed-newsprint"
    } else if same(theme, "foxed") {
        " ed-foxed"
    } else if same(theme, "ink") {
        " ed-ink"
    } else {
        ""
    };
    let a = if same(accent, "rust") {
        " ed-acc-rust"
    } else if same(accent, "forest") {
        " ed-acc-forest"
    } else if same(accent, "plum") {
        " ed-acc-plum"
    } else {
        ""
    };
    proof {
        reveal_strlit("");
        assert(""@ =~= Seq::<char>::empty());
    }
    cat3("ed", t, a)
}

/// An unknown theme and accent leave the plain page.
pub proof fn unknown_looks_are_plain(theme: Seq<char>, accent: Seq<char>)
    requires
        forall|i: int| 1 <= i < themes().len() ==> #[trigger] themes()[i]@ != theme,
        forall|i: int| 1 <= i < accents().len() ==> #[trigger] accents()[i]@ != accent,
    ensures
        "ed"@ + theme_class(theme) + accent_class(accent) == "ed"@,
{
    assert(themes()[1]@ != theme && themes()[2]@ != theme && themes()[3]@ != theme);
    assert(accents()[1]@ != accent && accents()[2]@ != accent && accents()[3]@ != accent);
    assert("ed"@ + Seq::<char>::empty() + Seq::<char>::empty() =~= "ed"@);
}

} // verus!
