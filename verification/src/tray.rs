//! The tray menu as data: the entries of each service's submenu, the ids of
//! the menu items and how an id is dispatched, and the tray's icons as RGBA
//! pixels. The menu itself is built and shown by the caller.
use vstd::prelude::*;

use crate::config::{ActionConfig, ServiceConfig, ServiceType};
use crate::service::{
    action_is_available, available, lifecycle_name, lifecycle_name_text, RuntimeServiceState,
    ServiceLifecycle,
};
use crate::text::{concat, push_char, split_once, split_once_spec, strip_prefix, has_prefix, text_eq};

verus! {

pub const TRAY_ID: &'static str = "devdock-main";

/// The id of the configured action that the react-native "Reload app" item replaces.
pub const REACT_NATIVE_RELOAD_ACTION_ID: &'static str = "reload";

/// The id of the configured action that the react-native "Open dev menu" item replaces.
pub const REACT_NATIVE_OPEN_DEV_MENU_ACTION_ID: &'static str = "open-dev-menu";

/// The RGBA colour of a lifecycle's status dot.
pub open spec fn status_rgba(lifecycle: ServiceLifecycle) -> [u8; 4] {
    match lifecycle {
        ServiceLifecycle::Running | ServiceLifecycle::Starting | ServiceLifecycle::Restarting => [
            34u8,
            197u8,
            94u8,
            255u8,
        ],
        ServiceLifecycle::Failed => [239u8, 68u8, 68u8, 255u8],
        ServiceLifecycle::Stopped | ServiceLifecycle::Stopping | ServiceLifecycle::Unknown => [
            255u8,
            255u8,
            255u8,
            255u8,
        ],
    }
}

/// The colour of a lifecycle's status dot.
pub fn status_color(lifecycle: ServiceLifecycle) -> (r: [u8; 4])
    ensures
        r == status_rgba(lifecycle),
{
    match lifecycle {
        ServiceLifecycle::Running | ServiceLifecycle::Starting | ServiceLifecycle::Restarting => [
            34,
            197,
            94,
            255,
        ],
        ServiceLifecycle::Failed => [239, 68, 68, 255],
        ServiceLifecycle::Stopped | ServiceLifecycle::Stopping | ServiceLifecycle::Unknown => [
            255,
            255,
            255,
            255,
        ],
    }
}

/// `char::to_uppercase` of `c`, as text.
pub uninterp spec fn uppercase_of(c: char) -> Seq<char>;

/// `char::to_uppercase`: the uppercase mapping of `c`, one or more
/// characters. Unicode's case tables take pages, so the result is named
/// `uppercase_of`.
#[verifier::external_body]
fn char_to_uppercase(c: char) -> (r: String)
    ensures
        r@ == uppercase_of(c),
{
    c.to_uppercase().collect()
}

/// `value` with its first character upper-cased.
pub open spec fn title_case_text(value: Seq<char>) -> Seq<char> {
    if value.len() == 0 {
        value
    } else {
        uppercase_of(value[0]) + value.skip(1)
    }
}

/// `value` with its first character upper-cased.
pub fn title_case(value: &str) -> (r: String)
    ensures
        r@ == title_case_text(value@),
{
    let v = crate::text::chars_of(value);
    if v.len() == 0 {
        return String::new();
    }
    let mut r = char_to_uppercase(v[0]);
    let mut i: usize = 1;
    while i < v.len()
        invariant
            v@ == value@,
            1 <= i <= v.len(),
            r@ == uppercase_of(v@[0]) + v@.subrange(1, i as int),
        decreases v.len() - i,
    {
        push_char(&mut r, v[i]);
        i = i + 1;
        assert(r@ =~= uppercase_of(v@[0]) + v@.subrange(1, i as int));
    }
    assert(v@.subrange(1, v.len() as int) =~= value@.skip(1));
    r
}

// ---------------------------------------------------------------------------
// Service submenus
// ---------------------------------------------------------------------------

/// One entry of a menu.
#[derive(Debug, Clone, PartialEq)]
pub enum MenuEntry {
    Item { id: String, label: String },
    Separator,
}

/// A menu entry as text.
pub ghost enum EntryView {
    Item(Seq<char>, Seq<char>),
    Separator,
}

impl MenuEntry {
    pub open spec fn view(&self) -> EntryView {
        match self {
            MenuEntry::Item { id, label } => EntryView::Item(id@, label@),
            MenuEntry::Separator => EntryView::Separator,
        }
    }
}

/// A service's submenu: its title, the lifecycle its status icon shows, and its entries.
#[derive(Debug, Clone, PartialEq)]
pub struct ServiceMenu {
    pub id: String,
    pub title: String,
    pub lifecycle: ServiceLifecycle,
    pub entries: Vec<MenuEntry>,
}

/// The entries as text.
pub open spec fn entries_view(entries: Seq<MenuEntry>) -> Seq<EntryView> {
    entries.map_values(|e: MenuEntry| e.view())
}

/// `service:<operation>:<service id>`.
pub open spec fn service_item_id(operation: Seq<char>, service_id: Seq<char>) -> Seq<char> {
    "service:"@ + operation + ":"@ + service_id
}

/// `react-native:<operation>:<service id>`.
pub open spec fn react_native_item_id(operation: Seq<char>, service_id: Seq<char>) -> Seq<char> {
    "react-native:"@ + operation + ":"@ + service_id
}

/// `action:<service id>:<action id>`.
pub open spec fn action_item_id(service_id: Seq<char>, action_id: Seq<char>) -> Seq<char> {
    "action:"@ + service_id + ":"@ + action_id
}

/// The submenu title: the service's name, ` - ` and its lifecycle, then
/// ` · ` and its detail status with a capital first letter if it has one,
/// as in `React Native Metro - Running · Ready` or `API Server - Failed`.
pub open spec fn menu_title(service: ServiceConfig, state: RuntimeServiceState) -> Seq<char> {
    let head = service.name@ + " - "@ + lifecycle_name_text(state.lifecycle);
    match state.detail {
        Some(d) => head + " · "@ + title_case_text(d@),
        None => head,
    }
}

/// The operations offered in `lifecycle`: stop and restart while the service
/// runs or is about to, start and restart after a failure, start otherwise.
pub open spec fn lifecycle_entries(id: Seq<char>, lifecycle: ServiceLifecycle) -> Seq<EntryView> {
    let start = EntryView::Item(service_item_id("start"@, id), "Start"@);
    let stop = EntryView::Item(service_item_id("stop"@, id), "Stop"@);
    let restart = EntryView::Item(service_item_id("restart"@, id), "Restart"@);
    match lifecycle {
        ServiceLifecycle::Running | ServiceLifecycle::Starting | ServiceLifecycle::Restarting => seq![
            stop,
            restart,
        ],
        ServiceLifecycle::Failed => seq![start, restart],
        _ => seq![start],
    }
}

/// The log entries, after a separator.
pub open spec fn log_entries(id: Seq<char>) -> Seq<EntryView> {
    seq![
        EntryView::Separator,
        EntryView::Item(service_item_id("open-log"@, id), "Open Log"@),
        EntryView::Item(service_item_id("open-log-terminal"@, id), "Open Log in Terminal"@),
    ]
}

/// The react-native entries of a running react-native service, after a separator.
pub open spec fn react_native_entries(service: ServiceConfig, lifecycle: ServiceLifecycle) -> Seq<
    EntryView,
> {
    if service.service_type == ServiceType::ReactNative && lifecycle == ServiceLifecycle::Running {
        seq![
            EntryView::Separator,
            EntryView::Item(react_native_item_id("reload"@, service.id@), "Reload app"@),
            EntryView::Item(react_native_item_id("open-dev-menu"@, service.id@), "Open dev menu"@),
        ]
    } else {
        seq![]
    }
}

/// A configured action is listed: it is offered in `lifecycle`, and a
/// react-native service's `reload` and `open-dev-menu` actions are left to
/// the react-native entries.
pub open spec fn action_listed(service: ServiceConfig, action: ActionConfig, lifecycle: ServiceLifecycle) -> bool {
    &&& !(service.service_type == ServiceType::ReactNative && (action.id@ == "reload"@ || action.id@
        == "open-dev-menu"@))
    &&& available(action.when, lifecycle)
}

/// The listed actions among the first `n`, as items.
pub open spec fn action_entries(service: ServiceConfig, lifecycle: ServiceLifecycle, n: int) -> Seq<
    EntryView,
>
    decreases n,
{
    if n <= 0 {
        seq![]
    } else {
        let a = service.actions@[n - 1];
        action_entries(service, lifecycle, n - 1) + if action_listed(service, a, lifecycle) {
            seq![EntryView::Item(action_item_id(service.id@, a.id@), a.label@)]
        } else {
            seq![]
        }
    }
}

/// The listed actions, after a separator, if there are any.
pub open spec fn actions_section(service: ServiceConfig, lifecycle: ServiceLifecycle) -> Seq<EntryView> {
    let items = action_entries(service, lifecycle, service.actions@.len() as int);
    if items.len() == 0 {
        seq![]
    } else {
        seq![EntryView::Separator] + items
    }
}

/// All entries of a service's submenu.
pub open spec fn service_menu_entries(service: ServiceConfig, lifecycle: ServiceLifecycle) -> Seq<
    EntryView,
> {
    lifecycle_entries(service.id@, lifecycle) + log_entries(service.id@) + react_native_entries(
        service,
        lifecycle,
    ) + actions_section(service, lifecycle)
}

/// A service's submenu begins with the operations its lifecycle allows: Stop
/// and Restart while it runs, starts or restarts; Start and Restart after a
/// failure; Start alone otherwise; then a separator before the log items.
pub proof fn law_menu_operations_follow_lifecycle(service: ServiceConfig, lifecycle: ServiceLifecycle)
    ensures
        (lifecycle == ServiceLifecycle::Running || lifecycle == ServiceLifecycle::Starting
            || lifecycle == ServiceLifecycle::Restarting) ==> service_menu_entries(service, lifecycle)[0]
            == EntryView::Item("service:stop:"@ + service.id@, "Stop"@) && service_menu_entries(
            service,
            lifecycle,
        )[1] == EntryView::Item("service:restart:"@ + service.id@, "Restart"@)
            && service_menu_entries(service, lifecycle)[2] == EntryView::Separator,
        lifecycle == ServiceLifecycle::Failed ==> service_menu_entries(service, lifecycle)[0]
            == EntryView::Item("service:start:"@ + service.id@, "Start"@) && service_menu_entries(
            service,
            lifecycle,
        )[1] == EntryView::Item("service:restart:"@ + service.id@, "Restart"@)
            && service_menu_entries(service, lifecycle)[2] == EntryView::Separator,
        (lifecycle == ServiceLifecycle::Stopped || lifecycle == ServiceLifecycle::Stopping
            || lifecycle == ServiceLifecycle::Unknown) ==> service_menu_entries(service, lifecycle)[0]
            == EntryView::Item("service:start:"@ + service.id@, "Start"@) && service_menu_entries(
            service,
            lifecycle,
        )[1] == EntryView::Separator,
{
    reveal_strlit("service:");
    reveal_strlit(":");
    reveal_strlit("stop");
    reveal_strlit("start");
    reveal_strlit("restart");
    reveal_strlit("service:stop:");
    reveal_strlit("service:start:");
    reveal_strlit("service:restart:");
    let id = service.id@;
    assert("service:"@ + "stop"@ + ":"@ + id =~= "service:stop:"@ + id);
    assert("service:"@ + "start"@ + ":"@ + id =~= "service:start:"@ + id);
    assert("service:"@ + "restart"@ + ":"@ + id =~= "service:restart:"@ + id);
}

fn item(id: String, label: &str) -> (r: MenuEntry)
    ensures
        r.view() == EntryView::Item(id@, label@),
{
    MenuEntry::Item { id, label: String::from_str(label) }
}

fn service_item(operation: &str, service_id: &str, label: &str) -> (r: MenuEntry)
    ensures
        r.view() == EntryView::Item(service_item_id(operation@, service_id@), label@),
{
    let mut id = concat("service:", operation);
    id.append(":");
    id.append(service_id);
    item(id, label)
}

fn react_native_item(operation: &str, service_id: &str, label: &str) -> (r: MenuEntry)
    ensures
        r.view() == EntryView::Item(react_native_item_id(operation@, service_id@), label@),
{
    let mut id = concat("react-native:", operation);
    id.append(":");
    id.append(service_id);
    item(id, label)
}

fn push_entry(entries: &mut Vec<MenuEntry>, e: MenuEntry)
    ensures
        entries_view(final(entries)@) == entries_view(old(entries)@).push(e.view()),
{
    entries.push(e);
    assert(entries_view(entries@) =~= entries_view(old(entries)@).push(e.view()));
}

fn is_listed(service: &ServiceConfig, action: &ActionConfig, lifecycle: ServiceLifecycle) -> (r: bool)
    ensures
        r == action_listed(*service, *action, lifecycle),
{
    let replaced = service.service_type == ServiceType::ReactNative && (text_eq(
        action.id.as_str(),
        REACT_NATIVE_RELOAD_ACTION_ID,
    ) || text_eq(action.id.as_str(), REACT_NATIVE_OPEN_DEV_MENU_ACTION_ID));
    !replaced && action_is_available(action.when, lifecycle)
}

/// The submenu of `service` in `state`.
pub fn service_menu(service: &ServiceConfig, state: &RuntimeServiceState) -> (r: ServiceMenu)
    ensures
        r.id@ == "service-menu:"@ + service.id@,
        r.title@ == menu_title(*service, *state),
        r.lifecycle == state.lifecycle,
        entries_view(r.entries@) == service_menu_entries(*service, state.lifecycle),
{
    let id = service.id.as_str();
    let lifecycle = state.lifecycle;
    let mut title = concat(service.name.as_str(), " - ");
    title.append(lifecycle_name(lifecycle));
    match &state.detail {
        Some(d) => {
            title.append(" · ");
            let d = title_case(d.as_str());
            title.append(d.as_str());
        },
        None => {},
    }
    let mut entries: Vec<MenuEntry> = Vec::new();
    assert(entries_view(entries@) =~= Seq::<EntryView>::empty());
    match lifecycle {
        ServiceLifecycle::Running | ServiceLifecycle::Starting | ServiceLifecycle::Restarting => {
            push_entry(&mut entries, service_item("stop", id, "Stop"));
            push_entry(&mut entries, service_item("restart", id, "Restart"));
        },
        ServiceLifecycle::Failed => {
            push_entry(&mut entries, service_item("start", id, "Start"));
            push_entry(&mut entries, service_item("restart", id, "Restart"));
        },
        _ => {
            push_entry(&mut entries, service_item("start", id, "Start"));
        },
    }
    assert(entries_view(entries@) =~= lifecycle_entries(service.id@, lifecycle));
    push_entry(&mut entries, MenuEntry::Separator);
    push_entry(&mut entries, service_item("open-log", id, "Open Log"));
    push_entry(&mut entries, service_item("open-log-terminal", id, "Open Log in Terminal"));
    assert(entries_view(entries@) =~= lifecycle_entries(service.id@, lifecycle) + log_entries(
        service.id@,
    ));
    if service.service_type == ServiceType::ReactNative && lifecycle == ServiceLifecycle::Running {
        push_entry(&mut entries, MenuEntry::Separator);
        push_entry(&mut entries, react_native_item("reload", id, "Reload app"));
        push_entry(&mut entries, react_native_item("open-dev-menu", id, "Open dev menu"));
    }
    let ghost head = lifecycle_entries(service.id@, lifecycle) + log_entries(service.id@)
        + react_native_entries(*service, lifecycle);
    assert(entries_view(entries@) =~= head);

    let mut items: Vec<MenuEntry> = Vec::new();
    assert(entries_view(items@) =~= action_entries(*service, lifecycle, 0));
    let mut k: usize = 0;
    while k < service.actions.len()
        invariant
            id@ == service.id@,
            k <= service.actions.len(),
            entries_view(items@) == action_entries(*service, lifecycle, k as int),
        decreases service.actions.len() - k,
    {
        let action = &service.actions[k];
        if is_listed(service, action, lifecycle) {
            let mut aid = concat("action:", id);
            aid.append(":");
            aid.append(action.id.as_str());
            assert(aid@ =~= action_item_id(service.id@, action.id@));
            push_entry(&mut items, MenuEntry::Item { id: aid, label: action.label.clone() });
        }
        k = k + 1;
        assert(entries_view(items@) =~= action_entries(*service, lifecycle, k as int));
    }
    if items.len() > 0 {
        push_entry(&mut entries, MenuEntry::Separator);
        let mut k: usize = 0;
        let ghost base = entries_view(entries@);
        while k < items.len()
            invariant
                k <= items.len(),
                entries_view(entries@) == base + entries_view(items@).take(k as int),
            decreases items.len() - k,
        {
            push_entry(&mut entries, items[k].clone_entry());
            k = k + 1;
            assert(entries_view(entries@) =~= base + entries_view(items@).take(k as int));
        }
        assert(entries_view(items@).take(items.len() as int) =~= entries_view(items@));
        assert(entries_view(entries@) =~= head + actions_section(*service, lifecycle));
    } else {
        assert(entries_view(entries@) =~= head + actions_section(*service, lifecycle));
    }
    ServiceMenu { id: concat("service-menu:", id), title, lifecycle, entries }
}

impl MenuEntry {
    /// An entry with the same text.
    pub fn clone_entry(&self) -> (r: MenuEntry)
        ensures
            r.view() == self.view(),
    {
        match self {
            MenuEntry::Item { id, label } => MenuEntry::Item { id: id.clone(), label: label.clone() },
            MenuEntry::Separator => MenuEntry::Separator,
        }
    }
}


/// The id of the tray's Settings submenu.
pub const SETTINGS_MENU_ID: &'static str = "app:settings";

/// The id of the Quit item.
pub const QUIT_ITEM_ID: &'static str = "app:quit";

/// The entries of the Settings submenu.
pub open spec fn settings_entries_text() -> Seq<EntryView> {
    seq![
        EntryView::Item("app:reload-config"@, "Reload Config"@),
        EntryView::Item("app:open-config"@, "Open Config File"@),
        EntryView::Item("app:open-logs"@, "Open Logs Directory"@),
    ]
}

/// The entries of the Settings submenu.
pub fn settings_entries() -> (r: Vec<MenuEntry>)
    ensures
        entries_view(r@) == settings_entries_text(),
{
    let mut r: Vec<MenuEntry> = Vec::new();
    assert(entries_view(r@) =~= Seq::<EntryView>::empty());
    push_entry(&mut r, item(String::from_str("app:reload-config"), "Reload Config"));
    push_entry(&mut r, item(String::from_str("app:open-config"), "Open Config File"));
    push_entry(&mut r, item(String::from_str("app:open-logs"), "Open Logs Directory"));
    assert(entries_view(r@) =~= settings_entries_text());
    r
}

/// An entry of the tray's top-level menu.
pub enum TopEntry {
    /// The submenu of the configured service at this index.
    Service(usize),
    Separator,
    /// The Settings submenu, whose entries are `settings_entries`.
    Settings { id: String, label: String },
    Item { id: String, label: String },
}

/// A top-level entry as text.
pub ghost enum TopView {
    Service(int),
    Separator,
    Settings(Seq<char>, Seq<char>),
    Item(Seq<char>, Seq<char>),
}

impl TopEntry {
    pub open spec fn view(&self) -> TopView {
        match self {
            TopEntry::Service(i) => TopView::Service(*i as int),
            TopEntry::Separator => TopView::Separator,
            TopEntry::Settings { id, label } => TopView::Settings(id@, label@),
            TopEntry::Item { id, label } => TopView::Item(id@, label@),
        }
    }
}

/// The top-level entries as text.
pub open spec fn top_view(entries: Seq<TopEntry>) -> Seq<TopView> {
    entries.map_values(|e: TopEntry| e.view())
}

/// The tray menu for `n` configured services: their submenus in
/// configuration order, a separator, Settings, a separator and Quit.
pub open spec fn top_menu_text(n: nat) -> Seq<TopView> {
    Seq::new(n, |i: int| TopView::Service(i)) + seq![
        TopView::Separator,
        TopView::Settings(SETTINGS_MENU_ID@, "Settings"@),
        TopView::Separator,
        TopView::Item(QUIT_ITEM_ID@, "Quit"@),
    ]
}

/// The tray menu for `services`.
pub fn top_menu(services: &Vec<ServiceConfig>) -> (r: Vec<TopEntry>)
    ensures
        top_view(r@) == top_menu_text(services@.len()),
{
    let mut r: Vec<TopEntry> = Vec::new();
    let mut i: usize = 0;
    while i < services.len()
        invariant
            i <= services.len(),
            r@.len() == i,
            top_view(r@) =~= Seq::new(i as nat, |k: int| TopView::Service(k)),
        decreases services.len() - i,
    {
        let ghost prev = r@;
        r.push(TopEntry::Service(i));
        assert(r@ == prev.push(TopEntry::Service(i)));
        assert(r@[i as int].view() == TopView::Service(i as int));
        assert forall|k: int| 0 <= k < i implies r@[k].view() == TopView::Service(k) by {
            assert(r@[k] == prev[k]);
            assert(top_view(prev)[k] == prev[k].view());
            assert(top_view(prev)[k] == TopView::Service(k));
        }
        i = i + 1;
        assert(top_view(r@) =~= Seq::new(i as nat, |k: int| TopView::Service(k)));
    }
    r.push(TopEntry::Separator);
    r.push(TopEntry::Settings { id: String::from_str(SETTINGS_MENU_ID), label: String::from_str("Settings") });
    r.push(TopEntry::Separator);
    r.push(TopEntry::Item { id: String::from_str(QUIT_ITEM_ID), label: String::from_str("Quit") });
    assert(top_view(r@) =~= top_menu_text(services@.len()));
    r
}

// ---------------------------------------------------------------------------
// Menu events
// ---------------------------------------------------------------------------

/// An operation on a service offered in its submenu.
#[derive(Debug, Clone, Copy, PartialEq, Eq, Structural)]
pub enum ServiceOperation {
    Start,
    Stop,
    Restart,
    OpenLog,
    OpenLogTerminal,
}

/// The name of an operation in item ids.
pub open spec fn operation_name(operation: ServiceOperation) -> Seq<char> {
    match operation {
        ServiceOperation::Start => "start"@,
        ServiceOperation::Stop => "stop"@,
        ServiceOperation::Restart => "restart"@,
        ServiceOperation::OpenLog => "open-log"@,
        ServiceOperation::OpenLogTerminal => "open-log-terminal"@,
    }
}

/// The operation with the name `name`, if any.
pub open spec fn operation_named(name: Seq<char>) -> Option<ServiceOperation> {
    if name == "start"@ {
        Some(ServiceOperation::Start)
    } else if name == "stop"@ {
        Some(ServiceOperation::Stop)
    } else if name == "restart"@ {
        Some(ServiceOperation::Restart)
    } else if name == "open-log"@ {
        Some(ServiceOperation::OpenLog)
    } else if name == "open-log-terminal"@ {
        Some(ServiceOperation::OpenLogTerminal)
    } else {
        None
    }
}

/// What a clicked menu item asks for.
#[derive(Debug, Clone, PartialEq)]
pub enum MenuCommand {
    Quit,
    ReloadConfig,
    OpenConfig,
    OpenLogs,
    Service { operation: ServiceOperation, service_id: String },
    Action { service_id: String, action_id: String },
    ReactNative { service_id: String, input: String },
}

/// A menu item id that names nothing DevDock offers.
#[derive(Debug, Clone, PartialEq)]
pub enum MenuError {
    InvalidServiceEvent,
    UnknownServiceOperation { operation: String },
    InvalidActionEvent,
    InvalidReactNativeEvent,
    UnknownReactNativeOperation { operation: String },
    UnknownEvent { id: String },
}

/// A command as text.
pub ghost enum CommandView {
    Quit,
    ReloadConfig,
    OpenConfig,
    OpenLogs,
    Service(ServiceOperation, Seq<char>),
    Action(Seq<char>, Seq<char>),
    ReactNative(Seq<char>, Seq<char>),
}

/// A menu error as text.
pub ghost enum MenuErrorView {
    InvalidServiceEvent,
    UnknownServiceOperation(Seq<char>),
    InvalidActionEvent,
    InvalidReactNativeEvent,
    UnknownReactNativeOperation(Seq<char>),
    UnknownEvent(Seq<char>),
}

impl MenuCommand {
    pub open spec fn view(&self) -> CommandView {
        match self {
            MenuCommand::Quit => CommandView::Quit,
            MenuCommand::ReloadConfig => CommandView::ReloadConfig,
            MenuCommand::OpenConfig => CommandView::OpenConfig,
            MenuCommand::OpenLogs => CommandView::OpenLogs,
            MenuCommand::Service { operation, service_id } => CommandView::Service(
                *operation,
                service_id@,
            ),
            MenuCommand::Action { service_id, action_id } => CommandView::Action(
                service_id@,
                action_id@,
            ),
            MenuCommand::ReactNative { service_id, input } => CommandView::ReactNative(
                service_id@,
                input@,
            ),
        }
    }
}

impl MenuError {
    pub open spec fn view(&self) -> MenuErrorView {
        match self {
            MenuError::InvalidServiceEvent => MenuErrorView::InvalidServiceEvent,
            MenuError::UnknownServiceOperation { operation } => MenuErrorView::UnknownServiceOperation(
                operation@,
            ),
            MenuError::InvalidActionEvent => MenuErrorView::InvalidActionEvent,
            MenuError::InvalidReactNativeEvent => MenuErrorView::InvalidReactNativeEvent,
            MenuError::UnknownReactNativeOperation { operation } =>
                MenuErrorView::UnknownReactNativeOperation(operation@),
            MenuError::UnknownEvent { id } => MenuErrorView::UnknownEvent(id@),
        }
    }
}

/// A parse result as text.
pub open spec fn parsed_view(r: Result<MenuCommand, MenuError>) -> Result<CommandView, MenuErrorView> {
    match r {
        Ok(c) => Ok(c.view()),
        Err(e) => Err(e.view()),
    }
}

/// What the menu item id `id` asks for: the fixed `app:` items; then
/// `service:<operation>:<service id>`, `action:<service id>:<action id>` and
/// `react-native:<operation>:<service id>`, each split at the first `:`
/// after its prefix.
pub open spec fn parse_event(id: Seq<char>) -> Result<CommandView, MenuErrorView> {
    if id == "app:quit"@ {
        Ok(CommandView::Quit)
    } else if id == "app:reload-config"@ {
        Ok(CommandView::ReloadConfig)
    } else if id == "app:open-config"@ {
        Ok(CommandView::OpenConfig)
    } else if id == "app:open-logs"@ {
        Ok(CommandView::OpenLogs)
    } else if has_prefix(id, "service:"@) {
        match split_once_spec(id.skip(8), ':') {
            None => Err(MenuErrorView::InvalidServiceEvent),
            Some((op, sid)) => match operation_named(op) {
                Some(o) => Ok(CommandView::Service(o, sid)),
                None => Err(MenuErrorView::UnknownServiceOperation(op)),
            },
        }
    } else if has_prefix(id, "action:"@) {
        match split_once_spec(id.skip(7), ':') {
            None => Err(MenuErrorView::InvalidActionEvent),
            Some((sid, aid)) => Ok(CommandView::Action(sid, aid)),
        }
    } else if has_prefix(id, "react-native:"@) {
        match split_once_spec(id.skip(13), ':') {
            None => Err(MenuErrorView::InvalidReactNativeEvent),
            Some((op, sid)) => if op == "reload"@ {
                Ok(CommandView::ReactNative(sid, "r"@))
            } else if op == "open-dev-menu"@ {
                Ok(CommandView::ReactNative(sid, "d"@))
            } else {
                Err(MenuErrorView::UnknownReactNativeOperation(op))
            },
        }
    } else {
        Err(MenuErrorView::UnknownEvent(id))
    }
}

fn operation_from_name(name: &str) -> (r: Option<ServiceOperation>)
    ensures
        r == operation_named(name@),
{
    if text_eq(name, "start") {
        Some(ServiceOperation::Start)
    } else if text_eq(name, "stop") {
        Some(ServiceOperation::Stop)
    } else if text_eq(name, "restart") {
        Some(ServiceOperation::Restart)
    } else if text_eq(name, "open-log") {
        Some(ServiceOperation::OpenLog)
    } else if text_eq(name, "open-log-terminal") {
        Some(ServiceOperation::OpenLogTerminal)
    } else {
        None
    }
}

/// Decodes the id of a clicked menu item.
pub fn parse_menu_event(id: &str) -> (r: Result<MenuCommand, MenuError>)
    ensures
        parsed_view(r) == parse_event(id@),
{
    proof {
        reveal_strlit("service:");
        reveal_strlit("action:");
        reveal_strlit("react-native:");
    }
    if text_eq(id, "app:quit") {
        return Ok(MenuCommand::Quit);
    }
    if text_eq(id, "app:reload-config") {
        return Ok(MenuCommand::ReloadConfig);
    }
    if text_eq(id, "app:open-config") {
        return Ok(MenuCommand::OpenConfig);
    }
    if text_eq(id, "app:open-logs") {
        return Ok(MenuCommand::OpenLogs);
    }
    if let Some(rest) = strip_prefix(id, "service:") {
        return match split_once(rest.as_str(), ':') {
            None => Err(MenuError::InvalidServiceEvent),
            Some((op, sid)) => match operation_from_name(op.as_str()) {
                Some(operation) => Ok(MenuCommand::Service { operation, service_id: sid }),
                None => Err(MenuError::UnknownServiceOperation { operation: op }),
            },
        };
    }
    if let Some(rest) = strip_prefix(id, "action:") {
        return match split_once(rest.as_str(), ':') {
            None => Err(MenuError::InvalidActionEvent),
            Some((sid, aid)) => Ok(MenuCommand::Action { service_id: sid, action_id: aid }),
        };
    }
    if let Some(rest) = strip_prefix(id, "react-native:") {
        return match split_once(rest.as_str(), ':') {
            None => Err(MenuError::InvalidReactNativeEvent),
            Some((op, sid)) => if text_eq(op.as_str(), REACT_NATIVE_RELOAD_ACTION_ID) {
                Ok(MenuCommand::ReactNative { service_id: sid, input: String::from_str("r") })
            } else if text_eq(op.as_str(), REACT_NATIVE_OPEN_DEV_MENU_ACTION_ID) {
                Ok(MenuCommand::ReactNative { service_id: sid, input: String::from_str("d") })
            } else {
                Err(MenuError::UnknownReactNativeOperation { operation: op })
            },
        };
    }
    Err(MenuError::UnknownEvent { id: String::from_str(id) })
}


/// The Settings items and the Quit item dispatch the application commands.
pub proof fn law_app_items_dispatch()
    ensures
        parse_event(QUIT_ITEM_ID@) == Ok::<CommandView, MenuErrorView>(CommandView::Quit),
        parse_event(settings_entries_text()[0]->Item_0) == Ok::<CommandView, MenuErrorView>(
            CommandView::ReloadConfig,
        ),
        parse_event(settings_entries_text()[1]->Item_0) == Ok::<CommandView, MenuErrorView>(
            CommandView::OpenConfig,
        ),
        parse_event(settings_entries_text()[2]->Item_0) == Ok::<CommandView, MenuErrorView>(
            CommandView::OpenLogs,
        ),
{
    reveal_strlit("app:quit");
    reveal_strlit("app:reload-config");
    reveal_strlit("app:open-config");
    reveal_strlit("app:open-logs");
}

proof fn lemma_split_at_colon(a: Seq<char>, b: Seq<char>)
    requires
        !a.contains(':'),
    ensures
        split_once_spec(a + ":"@ + b, ':') == Some((a, b)),
{
    reveal_strlit(":");
    let s = a + ":"@ + b;
    assert(crate::text::first_index(s, ':', a.len() as int)) by {
        assert forall|j: int| 0 <= j < a.len() implies s[j] != ':' by {
            if s[j] == ':' {
                assert(a[j] == ':');
                assert(a.contains(':'));
            }
        }
    }
    let k = choose|k: int| crate::text::first_index(s, ':', k);
    crate::text::lemma_first_index_unique(s, ':', k, a.len() as int);
    assert(s.take(a.len() as int) =~= a);
    assert(s.skip(a.len() as int + 1) =~= b);
}

proof fn lemma_not_app_item(id: Seq<char>, prefix: Seq<char>)
    requires
        has_prefix(id, prefix),
        prefix.len() > 1,
        prefix[1] != 'p',
    ensures
        id != "app:quit"@,
        id != "app:reload-config"@,
        id != "app:open-config"@,
        id != "app:open-logs"@,
{
    reveal_strlit("app:quit");
    reveal_strlit("app:reload-config");
    reveal_strlit("app:open-config");
    reveal_strlit("app:open-logs");
    assert(id[1] == prefix[1]) by {
        assert(id.subrange(0, prefix.len() as int)[1] == prefix[1]);
    }
}

/// The item of a service operation dispatches that operation on that service.
pub proof fn law_service_item_dispatches(operation: ServiceOperation, service_id: Seq<char>)
    ensures
        parse_event(service_item_id(operation_name(operation), service_id)) == Ok::<
            CommandView,
            MenuErrorView,
        >(CommandView::Service(operation, service_id)),
{
    reveal_strlit("service:");
    reveal_strlit("action:");
    reveal_strlit(":");
    reveal_strlit("start");
    reveal_strlit("stop");
    reveal_strlit("restart");
    reveal_strlit("open-log");
    reveal_strlit("open-log-terminal");
    let name = operation_name(operation);
    let id = service_item_id(name, service_id);
    assert(id =~= "service:"@ + (name + ":"@ + service_id));
    assert(id.subrange(0, 8) =~= "service:"@);
    lemma_not_app_item(id, "service:"@);
    assert(id.skip(8) =~= name + ":"@ + service_id);
    assert(!name.contains(':')) by {
        if name.contains(':') {
            let j = choose|j: int| 0 <= j < name.len() && name[j] == ':';
        }
    }
    lemma_split_at_colon(name, service_id);
    assert(operation_named(name) == Some(operation));
}

/// The item of a configured action dispatches that action of that service,
/// provided the service id holds no `:`.
pub proof fn law_action_item_dispatches(service_id: Seq<char>, action_id: Seq<char>)
    requires
        !service_id.contains(':'),
    ensures
        parse_event(action_item_id(service_id, action_id)) == Ok::<CommandView, MenuErrorView>(
            CommandView::Action(service_id, action_id),
        ),
{
    reveal_strlit("service:");
    reveal_strlit("action:");
    let id = action_item_id(service_id, action_id);
    assert(id =~= "action:"@ + (service_id + ":"@ + action_id));
    assert(id.subrange(0, 7) =~= "action:"@);
    lemma_not_app_item(id, "action:"@);
    assert(!has_prefix(id, "service:"@)) by {
        assert(id[0] == 'a');
    }
    assert(id.skip(7) =~= service_id + ":"@ + action_id);
    lemma_split_at_colon(service_id, action_id);
}

/// The react-native items send `r` and `d` to that service.
pub proof fn law_react_native_items_dispatch(service_id: Seq<char>)
    ensures
        parse_event(react_native_item_id("reload"@, service_id)) == Ok::<CommandView, MenuErrorView>(
            CommandView::ReactNative(service_id, "r"@),
        ),
        parse_event(react_native_item_id("open-dev-menu"@, service_id)) == Ok::<
            CommandView,
            MenuErrorView,
        >(CommandView::ReactNative(service_id, "d"@)),
{
    reveal_strlit("service:");
    reveal_strlit("action:");
    reveal_strlit("react-native:");
    reveal_strlit("reload");
    reveal_strlit("open-dev-menu");
    let id1 = react_native_item_id("reload"@, service_id);
    let id2 = react_native_item_id("open-dev-menu"@, service_id);
    assert(id1 =~= "react-native:"@ + ("reload"@ + ":"@ + service_id));
    assert(id2 =~= "react-native:"@ + ("open-dev-menu"@ + ":"@ + service_id));
    assert(id1.subrange(0, 13) =~= "react-native:"@);
    assert(id2.subrange(0, 13) =~= "react-native:"@);
    lemma_not_app_item(id1, "react-native:"@);
    lemma_not_app_item(id2, "react-native:"@);
    assert(!has_prefix(id1, "service:"@)) by {
        assert(id1[0] == 'r');
    }
    assert(!has_prefix(id1, "action:"@)) by {
        assert(id1[0] == 'r');
    }
    assert(!has_prefix(id2, "service:"@)) by {
        assert(id2[0] == 'r');
    }
    assert(!has_prefix(id2, "action:"@)) by {
        assert(id2[0] == 'r');
    }
    assert(id1.skip(13) =~= "reload"@ + ":"@ + service_id);
    assert(id2.skip(13) =~= "open-dev-menu"@ + ":"@ + service_id);
    assert(!"reload"@.contains(':')) by {
        if "reload"@.contains(':') {
            let j = choose|j: int| 0 <= j < "reload"@.len() && "reload"@[j] == ':';
        }
    }
    assert(!"open-dev-menu"@.contains(':')) by {
        if "open-dev-menu"@.contains(':') {
            let j = choose|j: int| 0 <= j < "open-dev-menu"@.len() && "open-dev-menu"@[j] == ':';
        }
    }
    lemma_split_at_colon("reload"@, service_id);
    lemma_split_at_colon("open-dev-menu"@, service_id);
}


/// The menu item id `id` names an operation on the service `service_id`.
pub open spec fn dispatches_to(id: Seq<char>, service_id: Seq<char>) -> bool {
    match parse_event(id) {
        Ok(CommandView::Service(_, s)) => s == service_id,
        Ok(CommandView::Action(s, _)) => s == service_id,
        Ok(CommandView::ReactNative(s, _)) => s == service_id,
        _ => false,
    }
}

/// `e` is a separator, or an item that dispatches an operation on `service_id`.
pub open spec fn entry_dispatches(e: EntryView, service_id: Seq<char>) -> bool {
    match e {
        EntryView::Item(id, _) => dispatches_to(id, service_id),
        EntryView::Separator => true,
    }
}

/// `e` is an item that dispatches an operation on `service_id`.
pub open spec fn item_dispatches(e: EntryView, service_id: Seq<char>) -> bool {
    match e {
        EntryView::Item(id, _) => dispatches_to(id, service_id),
        EntryView::Separator => false,
    }
}

proof fn lemma_action_entries_dispatch(service: ServiceConfig, lifecycle: ServiceLifecycle, n: int)
    requires
        !service.id@.contains(':'),
        n <= service.actions@.len(),
    ensures
        forall|i: int|
            0 <= i < action_entries(service, lifecycle, n).len() ==> item_dispatches(
                #[trigger] action_entries(service, lifecycle, n)[i],
                service.id@,
            ),
    decreases n,
{
    if n > 0 {
        lemma_action_entries_dispatch(service, lifecycle, n - 1);
        let a = service.actions@[n - 1];
        law_action_item_dispatches(service.id@, a.id@);
        let prev = action_entries(service, lifecycle, n - 1);
        let all = action_entries(service, lifecycle, n);
        assert forall|i: int| 0 <= i < all.len() implies item_dispatches(
            #[trigger] all[i],
            service.id@,
        ) by {
            if i < prev.len() {
                assert(all[i] == prev[i]);
            }
        }
    }
}

/// Every entry of `es` is a separator or dispatches an operation on `service_id`.
pub open spec fn all_dispatch(es: Seq<EntryView>, service_id: Seq<char>) -> bool {
    forall|i: int| 0 <= i < es.len() ==> entry_dispatches(#[trigger] es[i], service_id)
}

proof fn lemma_concat_dispatch(a: Seq<EntryView>, b: Seq<EntryView>, service_id: Seq<char>)
    requires
        all_dispatch(a, service_id),
        all_dispatch(b, service_id),
    ensures
        all_dispatch(a + b, service_id),
{
    assert forall|i: int| 0 <= i < (a + b).len() implies entry_dispatches(
        #[trigger] (a + b)[i],
        service_id,
    ) by {
        if i < a.len() {
            assert((a + b)[i] == a[i]);
        } else {
            assert((a + b)[i] == b[i - a.len()]);
        }
    }
}

#[verifier::spinoff_prover]
#[verifier::rlimit(40)]
proof fn lemma_fixed_entries_dispatch(service: ServiceConfig, lifecycle: ServiceLifecycle)
    ensures
        all_dispatch(lifecycle_entries(service.id@, lifecycle), service.id@),
        all_dispatch(log_entries(service.id@), service.id@),
        all_dispatch(react_native_entries(service, lifecycle), service.id@),
{
    let id = service.id@;
    law_service_item_dispatches(ServiceOperation::Start, id);
    law_service_item_dispatches(ServiceOperation::Stop, id);
    law_service_item_dispatches(ServiceOperation::Restart, id);
    law_service_item_dispatches(ServiceOperation::OpenLog, id);
    law_service_item_dispatches(ServiceOperation::OpenLogTerminal, id);
    law_react_native_items_dispatch(id);
}

proof fn lemma_actions_section_dispatch(service: ServiceConfig, lifecycle: ServiceLifecycle)
    requires
        !service.id@.contains(':'),
    ensures
        all_dispatch(actions_section(service, lifecycle), service.id@),
{
    let acts = action_entries(service, lifecycle, service.actions@.len() as int);
    lemma_action_entries_dispatch(service, lifecycle, service.actions@.len() as int);
    if acts.len() > 0 {
        let d = seq![EntryView::Separator] + acts;
        assert forall|i: int| 0 <= i < d.len() implies entry_dispatches(#[trigger] d[i], service.id@) by {
            if i > 0 {
                assert(d[i] == acts[i - 1]);
            }
        }
    }
}

/// Every item of a service's submenu dispatches an operation on that
/// service, provided the service id holds no `:`.
pub proof fn law_menu_items_dispatch(service: ServiceConfig, lifecycle: ServiceLifecycle)
    requires
        !service.id@.contains(':'),
    ensures
        all_dispatch(service_menu_entries(service, lifecycle), service.id@),
{
    let id = service.id@;
    lemma_fixed_entries_dispatch(service, lifecycle);
    lemma_actions_section_dispatch(service, lifecycle);
    let a = lifecycle_entries(id, lifecycle);
    let b = log_entries(id);
    let c = react_native_entries(service, lifecycle);
    let d = actions_section(service, lifecycle);
    lemma_concat_dispatch(a, b, id);
    lemma_concat_dispatch(a + b, c, id);
    lemma_concat_dispatch(a + b + c, d, id);
}

// ---------------------------------------------------------------------------
// Icons
// ---------------------------------------------------------------------------

/// Channel `c` of pixel (`x`, `y`) in a 16-pixel-wide RGBA buffer.
pub open spec fn byte_at16(rgba: Seq<u8>, x: int, y: int, c: int) -> u8 {
    rgba[y * 64 + x * 4 + c]
}

/// Channel `c` of pixel (`x`, `y`) in a 32-pixel-wide RGBA buffer.
pub open spec fn byte_at32(rgba: Seq<u8>, x: int, y: int, c: int) -> u8 {
    rgba[y * 128 + x * 4 + c]
}

/// The status icon's pixel (`x`, `y`): a dot of the lifecycle's colour
/// (squared distance from (7, 7) at most 16) in a grey ring (at most 25),
/// transparent outside.
pub open spec fn status_icon_pixel(lifecycle: ServiceLifecycle, x: int, y: int) -> Seq<u8> {
    let dx = x - 7;
    let dy = y - 7;
    let d = dx * dx + dy * dy;
    if d <= 25 {
        if d > 16 {
            seq![148u8, 163u8, 184u8, 255u8]
        } else {
            status_rgba(lifecycle)@
        }
    } else {
        seq![0u8, 0u8, 0u8, 0u8]
    }
}

fn put_pixel16(rgba: &mut Vec<u8>, x: usize, y: usize, p: [u8; 4])
    requires
        old(rgba)@.len() == 1024,
        x < 16,
        y < 16,
    ensures
        final(rgba)@.len() == 1024,
        forall|c: int| 0 <= c < 4 ==> byte_at16(final(rgba)@, x as int, y as int, c) == p@[c],
        forall|x2: int, y2: int, c: int|
            0 <= x2 < 16 && 0 <= y2 < 16 && 0 <= c < 4 && (x2 != x || y2 != y) ==> #[trigger] byte_at16(
                final(rgba)@,
                x2,
                y2,
                c,
            ) == byte_at16(old(rgba)@, x2, y2, c),
{
    let o = y * 64 + x * 4;
    rgba.set(o, p[0]);
    rgba.set(o + 1, p[1]);
    rgba.set(o + 2, p[2]);
    rgba.set(o + 3, p[3]);
}

/// The 16×16 RGBA status icon of a lifecycle.
pub fn create_status_icon(lifecycle: ServiceLifecycle) -> (r: Vec<u8>)
    ensures
        r@.len() == 1024,
        forall|x: int, y: int, c: int|
            0 <= x < 16 && 0 <= y < 16 && 0 <= c < 4 ==> #[trigger] byte_at16(r@, x, y, c)
                == status_icon_pixel(lifecycle, x, y)[c],
{
    let color = status_color(lifecycle);
    let mut rgba: Vec<u8> = vec![0u8; 1024];
    let mut y: usize = 0;
    while y < 16
        invariant
            y <= 16,
            color == status_rgba(lifecycle),
            rgba@.len() == 1024,
            forall|x2: int, y2: int, c: int|
                0 <= x2 < 16 && 0 <= y2 < y && 0 <= c < 4 ==> #[trigger] byte_at16(rgba@, x2, y2, c)
                    == status_icon_pixel(lifecycle, x2, y2)[c],
            forall|x2: int, y2: int, c: int|
                0 <= x2 < 16 && y <= y2 < 16 && 0 <= c < 4 ==> #[trigger] byte_at16(rgba@, x2, y2, c)
                    == 0,
        decreases 16 - y,
    {
        let mut x: usize = 0;
        while x < 16
            invariant
                x <= 16,
                y < 16,
                color == status_rgba(lifecycle),
                rgba@.len() == 1024,
                forall|x2: int, y2: int, c: int|
                    0 <= x2 < 16 && 0 <= y2 < y && 0 <= c < 4 ==> #[trigger] byte_at16(
                        rgba@,
                        x2,
                        y2,
                        c,
                    ) == status_icon_pixel(lifecycle, x2, y2)[c],
                forall|x2: int, c: int|
                    0 <= x2 < x && 0 <= c < 4 ==> #[trigger] byte_at16(rgba@, x2, y as int, c)
                        == status_icon_pixel(lifecycle, x2, y as int)[c],
                forall|x2: int, c: int|
                    x <= x2 < 16 && 0 <= c < 4 ==> #[trigger] byte_at16(rgba@, x2, y as int, c)
                        == 0,
                forall|x2: int, y2: int, c: int|
                    0 <= x2 < 16 && y < y2 < 16 && 0 <= c < 4 ==> #[trigger] byte_at16(
                        rgba@,
                        x2,
                        y2,
                        c,
                    ) == 0,
            decreases 16 - x,
        {
            let dx: i32 = x as i32 - 7;
            let dy: i32 = y as i32 - 7;
            assert(dx * dx <= 64 && dy * dy <= 64 && dx * dx >= 0 && dy * dy >= 0) by (nonlinear_arith)
                requires
                    -7 <= dx <= 8,
                    -7 <= dy <= 8,
            ;
            let distance = dx * dx + dy * dy;
            if distance <= 25 {
                let pixel = if distance > 16 {
                    [148u8, 163u8, 184u8, 255u8]
                } else {
                    color
                };
                assert(pixel@ =~= status_icon_pixel(lifecycle, x as int, y as int));
                put_pixel16(&mut rgba, x, y, pixel);
            } else {
                assert(seq![0u8, 0u8, 0u8, 0u8] =~= status_icon_pixel(lifecycle, x as int, y as int));
            }
            x = x + 1;
        }
        y = y + 1;
    }
    rgba
}

/// The tray icon's pixel (`x`, `y`): a white "D" on a blue square with
/// transparent corners.
pub open spec fn app_icon_pixel(x: int, y: int) -> Seq<u8> {
    let rounded_corner = !(4 <= x <= 27) && !(4 <= y <= 27);
    let is_d = (x == 9 && 8 <= y < 24) || (8 <= x < 22 && (y == 8 || y == 23)) || (x == 22 && 10
        <= y < 22);
    if is_d {
        seq![255u8, 255u8, 255u8, 255u8]
    } else if rounded_corner {
        seq![0u8, 0u8, 0u8, 0u8]
    } else {
        seq![37u8, 99u8, 235u8, 255u8]
    }
}

/// The 32×32 RGBA tray icon.
pub fn create_icon() -> (r: Vec<u8>)
    ensures
        r@.len() == 4096,
        forall|x: int, y: int, c: int|
            0 <= x < 32 && 0 <= y < 32 && 0 <= c < 4 ==> #[trigger] byte_at32(r@, x, y, c)
                == app_icon_pixel(x, y)[c],
{
    let mut rgba: Vec<u8> = vec![0u8; 4096];
    let mut y: usize = 0;
    while y < 32
        invariant
            y <= 32,
            rgba@.len() == 4096,
            forall|x2: int, y2: int, c: int|
                0 <= x2 < 32 && 0 <= y2 < y && 0 <= c < 4 ==> #[trigger] byte_at32(rgba@, x2, y2, c)
                    == app_icon_pixel(x2, y2)[c],
        decreases 32 - y,
    {
        let mut x: usize = 0;
        while x < 32
            invariant
                x <= 32,
                y < 32,
                rgba@.len() == 4096,
                forall|x2: int, y2: int, c: int|
                    0 <= x2 < 32 && 0 <= y2 < y && 0 <= c < 4 ==> #[trigger] byte_at32(
                        rgba@,
                        x2,
                        y2,
                        c,
                    ) == app_icon_pixel(x2, y2)[c],
                forall|x2: int, c: int|
                    0 <= x2 < x && 0 <= c < 4 ==> #[trigger] byte_at32(rgba@, x2, y as int, c)
                        == app_icon_pixel(x2, y as int)[c],
            decreases 32 - x,
        {
            let rounded_corner = !(4 <= x && x <= 27) && !(4 <= y && y <= 27);
            let is_d = (x == 9 && 8 <= y && y < 24) || (8 <= x && x < 22 && (y == 8 || y == 23)) || (
            x == 22 && 10 <= y && y < 22);
            let color: [u8; 4] = if is_d {
                [255, 255, 255, 255]
            } else if rounded_corner {
                [0, 0, 0, 0]
            } else {
                [37, 99, 235, 255]
            };
            assert(color@ =~= app_icon_pixel(x as int, y as int));
            let o = y * 128 + x * 4;
            let ghost before = rgba@;
            rgba.set(o, color[0]);
            rgba.set(o + 1, color[1]);
            rgba.set(o + 2, color[2]);
            rgba.set(o + 3, color[3]);
            assert forall|x2: int, y2: int, c: int|
                0 <= x2 < 32 && 0 <= y2 < 32 && 0 <= c < 4 && (x2 != x || y2 != y) implies #[trigger] byte_at32(
                rgba@,
                x2,
                y2,
                c,
            ) == byte_at32(before, x2, y2, c) by {}
            x = x + 1;
        }
        y = y + 1;
    }
    rgba
}


/// The text of a menu error.
pub open spec fn menu_error_text(e: MenuError) -> Seq<char> {
    match e {
        MenuError::InvalidServiceEvent => "invalid service menu event"@,
        MenuError::UnknownServiceOperation { operation } => "unknown service operation '"@
            + operation@ + "'"@,
        MenuError::InvalidActionEvent => "invalid action menu event"@,
        MenuError::InvalidReactNativeEvent => "invalid react-native menu event"@,
        MenuError::UnknownReactNativeOperation { operation } => "unknown react-native operation '"@
            + operation@ + "'"@,
        MenuError::UnknownEvent { id } => "unknown tray menu event '"@ + id@ + "'"@,
    }
}

impl MenuError {
    /// The message shown for this error.
    pub fn message(&self) -> (r: String)
        ensures
            r@ == menu_error_text(*self),
    {
        match self {
            MenuError::InvalidServiceEvent => String::from_str("invalid service menu event"),
            MenuError::UnknownServiceOperation { operation } => crate::text::concat3(
                "unknown service operation '",
                operation.as_str(),
                "'",
            ),
            MenuError::InvalidActionEvent => String::from_str("invalid action menu event"),
            MenuError::InvalidReactNativeEvent => String::from_str("invalid react-native menu event"),
            MenuError::UnknownReactNativeOperation { operation } => crate::text::concat3(
                "unknown react-native operation '",
                operation.as_str(),
                "'",
            ),
            MenuError::UnknownEvent { id } => crate::text::concat3(
                "unknown tray menu event '",
                id.as_str(),
                "'",
            ),
        }
    }
}

} // verus!
