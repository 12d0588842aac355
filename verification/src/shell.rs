//! The tray icon, the window and the page.

use vstd::prelude::*;

use crate::effect::{Effect, EffectData, DSH_RESTART_REQUESTED};
use crate::script::market_filter_script;
use crate::text::same_text;

verus! {

/// Name of the menu item that ends the application.
pub const QUIT: &'static str = "quit";

/// Name of the menu item that brings the window up.
pub const SHOW: &'static str = "show";

/// Name of the menu item that restarts DSH.
pub const RESTART: &'static str = "restart";

/// An entry of the tray menu.
#[derive(Debug, PartialEq, Eq)]
pub enum MenuEntry {
    Item { id: &'static str, label: &'static str },
    Separator,
}

/// A [`MenuEntry`] with its texts as character sequences.
#[verifier::ext_equal]
pub enum MenuEntryData {
    Item { id: Seq<char>, label: Seq<char> },
    Separator,
}

impl View for MenuEntry {
    type V = MenuEntryData;

    open spec fn view(&self) -> MenuEntryData {
        match self {
            MenuEntry::Item { id, label } => MenuEntryData::Item { id: id@, label: label@ },
            MenuEntry::Separator => MenuEntryData::Separator,
        }
    }
}

/// The tray menu, from top to bottom.
pub open spec fn menu_data() -> Seq<MenuEntryData> {
    seq![
        MenuEntryData::Item { id: SHOW@, label: "显示窗口"@ },
        MenuEntryData::Item { id: RESTART@, label: "重启 DSH"@ },
        MenuEntryData::Separator,
        MenuEntryData::Item { id: QUIT@, label: "退出"@ },
    ]
}

/// The tray menu, from top to bottom.
pub fn tray_menu() -> (entries: Vec<MenuEntry>)
    ensures
        entries@.map_values(|e: MenuEntry| e@) == menu_data(),
{
    let mut entries: Vec<MenuEntry> = Vec::new();
    entries.push(MenuEntry::Item { id: SHOW, label: "显示窗口" });
    entries.push(MenuEntry::Item { id: RESTART, label: "重启 DSH" });
    entries.push(MenuEntry::Separator);
    entries.push(MenuEntry::Item { id: QUIT, label: "退出" });
    assert(entries@.map_values(|e: MenuEntry| e@) =~= menu_data());
    entries
}

/// Bringing the window up.
pub open spec fn show_effects() -> Seq<EffectData> {
    seq![EffectData::ShowWindow, EffectData::FocusWindow]
}

/// What a menu item does. Leaving the application does not run destructors,
/// so the process is ended first; it would outlive the application otherwise
/// and lock the runtime's directory at the next launch.
pub open spec fn menu_effects(id: Seq<char>) -> Seq<EffectData> {
    if id == QUIT@ {
        seq![EffectData::DropProcess, EffectData::Exit(0)]
    } else if id == SHOW@ {
        show_effects()
    } else if id == RESTART@ {
        seq![EffectData::Signal { event: DSH_RESTART_REQUESTED@ }]
    } else {
        Seq::empty()
    }
}

/// Brings the window up.
fn show_window() -> (effects: Vec<Effect>)
    ensures
        crate::effect::listed(effects) == show_effects(),
{
    let mut effects: Vec<Effect> = Vec::new();
    effects.push(Effect::ShowWindow);
    effects.push(Effect::FocusWindow);
    assert(crate::effect::listed(effects) =~= show_effects());
    effects
}

/// The menu item with the name `id` was chosen.
pub fn menu_event(id: &str) -> (effects: Vec<Effect>)
    ensures
        crate::effect::listed(effects) == menu_effects(id@),
{
    let mut effects: Vec<Effect> = Vec::new();
    if same_text(id, QUIT) {
        effects.push(Effect::DropProcess);
        effects.push(Effect::Exit(0));
    } else if same_text(id, SHOW) {
        return show_window();
    } else if same_text(id, RESTART) {
        effects.push(Effect::Signal { event: DSH_RESTART_REQUESTED.to_owned() });
    }
    assert(crate::effect::listed(effects) =~= menu_effects(id@));
    effects
}

/// The tray icon was clicked, with the left button or with another one.
pub fn tray_click(left: bool) -> (effects: Vec<Effect>)
    ensures
        crate::effect::listed(effects) == (if left {
            show_effects()
        } else {
            Seq::empty()
        }),
{
    if left {
        show_window()
    } else {
        let effects: Vec<Effect> = Vec::new();
        assert(crate::effect::listed(effects) =~= Seq::empty());
        effects
    }
}

/// The window is about to be closed: it is hidden instead, so that background
/// tasks keep running.
pub fn close_requested() -> (effects: Vec<Effect>)
    ensures
        crate::effect::listed(effects) == seq![EffectData::PreventClose, EffectData::HideWindow],
{
    let mut effects: Vec<Effect> = Vec::new();
    effects.push(Effect::PreventClose);
    effects.push(Effect::HideWindow);
    assert(crate::effect::listed(effects) =~= seq![
        EffectData::PreventClose,
        EffectData::HideWindow,
    ]);
    effects
}

/// What follows a page load.
pub open spec fn page_load_effects(finished: bool) -> Seq<EffectData> {
    if finished {
        seq![
            EffectData::Evaluate(
                crate::script::script_text(
                    crate::script::allowlist_urls(),
                    crate::script::ALLOWLIST_FETCH_TIMEOUT_MS as nat,
                ),
            ),
        ]
    } else {
        Seq::empty()
    }
}

/// A page load began or finished. The script is run after every load, as the
/// window first loads a local page and then goes to the web interface.
pub fn page_load(finished: bool) -> (effects: Vec<Effect>)
    ensures
        crate::effect::listed(effects) == page_load_effects(finished),
{
    let mut effects: Vec<Effect> = Vec::new();
    if finished {
        effects.push(Effect::Evaluate(market_filter_script()));
    }
    assert(crate::effect::listed(effects) =~= page_load_effects(finished));
    effects
}

/// The slot is empty by the time the application is left.
pub proof fn law_nothing_runs_after_quit(slot: Option<crate::service::HeldData>)
    ensures
        menu_effects(QUIT@).last() == EffectData::Exit(0),
        crate::service::slot_after(slot, menu_effects(QUIT@), None) is None,
{
    reveal_with_fuel(crate::service::slot_after, 3);
    assert(menu_effects(QUIT@).drop_last().last() == EffectData::DropProcess);
}

/// The items of the menu, each of which does something.
pub proof fn law_every_menu_item_acts(i: int)
    requires
        0 <= i < menu_data().len(),
    ensures
        menu_data()[i] matches MenuEntryData::Item { id, label: _ } ==> menu_effects(id).len() > 0,
{
}

/// An entry of the menu is its name and its label.
pub proof fn law_menu_entry_data(id: &'static str, label: &'static str)
    ensures
        (MenuEntry::Item { id, label })@ == (MenuEntryData::Item { id: id@, label: label@ }),
        MenuEntry::Separator@ is Separator,
{
}

/// What the menu offers: the window, a restart, and, set apart, the way out.
pub proof fn law_menu()
    ensures
        menu_data() == seq![
            MenuEntryData::Item { id: "show"@, label: "显示窗口"@ },
            MenuEntryData::Item { id: "restart"@, label: "重启 DSH"@ },
            MenuEntryData::Separator,
            MenuEntryData::Item { id: "quit"@, label: "退出"@ },
        ],
{
}

/// What is chosen is done, and nothing is done for any other name: quitting
/// ends the process and then the application, showing brings the window up and
/// into focus, restarting asks the page.
pub proof fn law_choices(id: Seq<char>)
    ensures
        menu_effects("quit"@) == seq![EffectData::DropProcess, EffectData::Exit(0)],
        menu_effects("show"@) == seq![EffectData::ShowWindow, EffectData::FocusWindow],
        menu_effects("restart"@) == seq![
            EffectData::Signal { event: "dsh-restart-requested"@ },
        ],
        id != "quit"@ && id != "show"@ && id != "restart"@ ==> menu_effects(id).len() == 0,
        show_effects() == seq![EffectData::ShowWindow, EffectData::FocusWindow],
{
    reveal_strlit("quit");
    reveal_strlit("show");
    reveal_strlit("restart");
    assert("quit"@[0] != "show"@[0]);
    assert("quit"@.len() == 4 && "show"@.len() == 4 && "restart"@.len() == 7);
}

/// After every finished page load, and only then, one script is run: the
/// filter for the published allowlist and its mirror, with eight seconds for each.
pub proof fn law_page_loads()
    ensures
        page_load_effects(false).len() == 0,
        page_load_effects(true).len() == 1,
        page_load_effects(true)[0] == EffectData::Evaluate(
            crate::script::script_text(
                seq![
                    "https://raw.githubusercontent.com/hotpot-labs/awesome-dsh-industry-plugins/main/plugins.json"@,
                    "https://cdn.jsdelivr.net/gh/hotpot-labs/awesome-dsh-industry-plugins@main/plugins.json"@,
                ],
                8000,
            ),
        ),
{
}

} // verus!
