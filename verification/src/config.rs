//! The configuration model (`devdock.config.json`), its defaults, its
//! validation rules and the expansion of path placeholders.
use vstd::prelude::*;

use crate::paths::{join, parent_of, path_join, path_parent};
use crate::text::{blank, concat, concat3, contains_seq, decimal, has_prefix, is_blank, push_decimal, replace, replace_all};

verus! {

/// The whole configuration file.
#[derive(Debug, Clone, PartialEq)]
pub struct DevDockConfig {
    pub version: u32,
    pub app: AppConfig,
    pub groups: Vec<GroupConfig>,
    pub services: Vec<ServiceConfig>,
}

/// Application-wide settings.
#[derive(Debug, Clone, PartialEq)]
pub struct AppConfig {
    pub name: String,
    pub log_dir: String,
    pub terminal: TerminalConfig,
}

/// How a log file is tailed in a terminal.
#[derive(Debug, Clone, PartialEq)]
pub struct TerminalConfig {
    pub program: String,
    pub shell: String,
    pub tail_command: String,
}

/// A menu group of services.
#[derive(Debug, Clone, PartialEq)]
pub struct GroupConfig {
    pub id: String,
    pub name: String,
}

/// One supervised service.
///
/// `env` holds the environment as (name, value) pairs, read in order; that
/// the names are distinct is `service_wf`, which expansion and resolution
/// keep.
#[derive(Debug, Clone, PartialEq)]
pub struct ServiceConfig {
    pub id: String,
    pub name: String,
    pub service_type: ServiceType,
    pub group: String,
    pub cwd: Option<String>,
    pub command: Option<String>,
    pub args: Vec<String>,
    pub env: Vec<(String, String)>,
    pub process: ProcessOptions,
    pub windows_service: Option<WindowsServiceOptions>,
    pub log: Option<LogOptions>,
    pub status: Option<StatusOptions>,
    pub actions: Vec<ActionConfig>,
}

/// The kind of a service.
#[derive(Debug, Clone, Copy, PartialEq, Eq, Structural)]
pub enum ServiceType {
    Process,
    ReactNative,
    WindowsService,
}

/// Options of process-like services.
#[derive(Debug, Clone, PartialEq)]
pub struct ProcessOptions {
    pub kill_tree: bool,
    pub restart_delay_ms: u64,
    pub start_on_launch: bool,
    pub keep_stdin: Option<bool>,
}

/// Options of a `windows-service` service.
#[derive(Debug, Clone, PartialEq)]
pub struct WindowsServiceOptions {
    pub service_name: String,
}

/// Where and how a service's output is logged.
#[derive(Debug, Clone, PartialEq)]
pub struct LogOptions {
    pub file: Option<String>,
    pub rotate: bool,
    pub max_size_mb: Option<u64>,
    pub max_files: Option<u32>,
}

/// Output patterns that set a service's detail status.
///
/// `patterns` maps a detail name to the substrings that select it, as
/// (detail, substrings) pairs tried in order; that the details are distinct
/// is part of `service_wf`.
#[derive(Debug, Clone, PartialEq)]
pub struct StatusOptions {
    pub mode: Option<String>,
    pub patterns: Vec<(String, Vec<String>)>,
}

/// A configured extra action of a service.
#[derive(Debug, Clone, PartialEq)]
pub struct ActionConfig {
    pub id: String,
    pub label: String,
    pub when: ActionWhen,
    pub kind: ActionKind,
    pub input: Option<String>,
    pub command: Option<String>,
    pub args: Vec<String>,
}

/// What an action does.
#[derive(Debug, Clone, Copy, PartialEq, Eq, Structural)]
pub enum ActionKind {
    Stdin,
    Restart,
}

/// In which lifecycle an action is offered.
#[derive(Debug, Clone, Copy, PartialEq, Eq, Structural)]
pub enum ActionWhen {
    Running,
    Failed,
    Stopped,
    Any,
}

/// A validated configuration with its placeholders expanded.
#[derive(Debug, Clone, PartialEq)]
pub struct LoadedConfig {
    pub config: DevDockConfig,
    pub config_path: String,
    pub log_dir: String,
}

/// A configuration that breaks a rule, or a configuration path without a directory.
#[derive(Debug, Clone, PartialEq)]
pub enum ConfigError {
    UnsupportedVersion { version: u32 },
    GroupIdRequired { index: usize },
    DuplicateGroupId { index: usize, id: String },
    ServiceIdRequired { index: usize },
    DuplicateServiceId { index: usize, id: String },
    UnknownGroup { index: usize, group: String },
    CommandRequired { index: usize },
    WindowsServiceNameRequired { index: usize },
    StdinActionRequiresInput { index: usize, action_index: usize },
    StdinActionRequiresStdinSupport { index: usize, action_index: usize },
    ConfigPathHasNoParent,
    AppDataUnavailable,
}

/// The text of a configuration error.
pub open spec fn config_error_text(e: ConfigError) -> Seq<char> {
    match e {
        ConfigError::UnsupportedVersion { version } => "unsupported config version "@ + decimal(
            version as nat,
        ) + "; expected 1"@,
        ConfigError::GroupIdRequired { index } => "groups["@ + decimal(index as nat)
            + "].id is required"@,
        ConfigError::DuplicateGroupId { index, id } => "groups["@ + decimal(index as nat)
            + "].id duplicates '"@ + id@ + "'"@,
        ConfigError::ServiceIdRequired { index } => "services["@ + decimal(index as nat)
            + "].id is required"@,
        ConfigError::DuplicateServiceId { index, id } => "services["@ + decimal(index as nat)
            + "].id duplicates '"@ + id@ + "'"@,
        ConfigError::UnknownGroup { index, group } => "services["@ + decimal(index as nat)
            + "].group '"@ + group@ + "' does not exist"@,
        ConfigError::CommandRequired { index } => "services["@ + decimal(index as nat)
            + "].command is required for type process"@,
        ConfigError::WindowsServiceNameRequired { index } => "services["@ + decimal(index as nat)
            + "].windowsService.serviceName is required for type windows-service"@,
        ConfigError::StdinActionRequiresInput { index, action_index } => "services["@ + decimal(
            index as nat,
        ) + "].actions["@ + decimal(action_index as nat) + "].kind=stdin requires input"@,
        ConfigError::StdinActionRequiresStdinSupport { index, action_index } => "services["@
            + decimal(index as nat) + "].actions["@ + decimal(action_index as nat)
            + "].kind=stdin requires process stdin support"@,
        ConfigError::ConfigPathHasNoParent => "config path has no parent directory"@,
        ConfigError::AppDataUnavailable => "cannot determine the Windows AppData directory"@,
    }
}

fn indexed(prefix: &str, index: usize, suffix: &str) -> (r: String)
    ensures
        r@ == prefix@ + decimal(index as nat) + suffix@,
{
    let mut r = String::from_str(prefix);
    push_decimal(&mut r, index as u64);
    r.append(suffix);
    r
}

impl ConfigError {
    /// The message shown for this error.
    pub fn message(&self) -> (r: String)
        ensures
            r@ == config_error_text(*self),
    {
        match self {
            ConfigError::UnsupportedVersion { version } => {
                let mut r = String::from_str("unsupported config version ");
                push_decimal(&mut r, *version as u64);
                r.append("; expected 1");
                r
            },
            ConfigError::GroupIdRequired { index } => indexed("groups[", *index, "].id is required"),
            ConfigError::DuplicateGroupId { index, id } => {
                let mut r = indexed("groups[", *index, "].id duplicates '");
                r.append(id.as_str());
                r.append("'");
                r
            },
            ConfigError::ServiceIdRequired { index } => indexed(
                "services[",
                *index,
                "].id is required",
            ),
            ConfigError::DuplicateServiceId { index, id } => {
                let mut r = indexed("services[", *index, "].id duplicates '");
                r.append(id.as_str());
                r.append("'");
                r
            },
            ConfigError::UnknownGroup { index, group } => {
                let mut r = indexed("services[", *index, "].group '");
                r.append(group.as_str());
                r.append("' does not exist");
                r
            },
            ConfigError::CommandRequired { index } => indexed(
                "services[",
                *index,
                "].command is required for type process",
            ),
            ConfigError::WindowsServiceNameRequired { index } => indexed(
                "services[",
                *index,
                "].windowsService.serviceName is required for type windows-service",
            ),
            ConfigError::StdinActionRequiresInput { index, action_index } => {
                let mut r = indexed("services[", *index, "].actions[");
                push_decimal(&mut r, *action_index as u64);
                r.append("].kind=stdin requires input");
                r
            },
            ConfigError::StdinActionRequiresStdinSupport { index, action_index } => {
                let mut r = indexed("services[", *index, "].actions[");
                push_decimal(&mut r, *action_index as u64);
                r.append("].kind=stdin requires process stdin support");
                r
            },
            ConfigError::ConfigPathHasNoParent => String::from_str(
                "config path has no parent directory",
            ),
            ConfigError::AppDataUnavailable => String::from_str(
                "cannot determine the Windows AppData directory",
            ),
        }
    }
}

// ---------------------------------------------------------------------------
// Validation rules
// ---------------------------------------------------------------------------

/// Whether the service's process keeps its stdin open: the explicit
/// `keepStdin` setting, else only for `react-native` services.
pub open spec fn keeps_stdin(service: ServiceConfig) -> bool {
    match service.process.keep_stdin {
        Some(b) => b,
        None => service.service_type == ServiceType::ReactNative,
    }
}

/// Some group has the id `id`.
pub open spec fn group_id_exists(groups: Seq<GroupConfig>, id: Seq<char>) -> bool {
    exists|j: int| 0 <= j < groups.len() && (#[trigger] groups[j]).id@ == id
}

/// The rule that group `i` breaks, given that the groups before it passed.
pub open spec fn group_error(groups: Seq<GroupConfig>, i: int) -> Option<ConfigError> {
    if is_blank(groups[i].id@) {
        Some(ConfigError::GroupIdRequired { index: i as usize })
    } else if exists|j: int| 0 <= j < i && (#[trigger] groups[j]).id@ == groups[i].id@ {
        Some(ConfigError::DuplicateGroupId { index: i as usize, id: groups[i].id })
    } else {
        None
    }
}

/// The first rule broken by the groups from `i` on.
pub open spec fn first_group_error(groups: Seq<GroupConfig>, i: int) -> Option<ConfigError>
    decreases groups.len() - i,
{
    if i < 0 || i >= groups.len() {
        None
    } else {
        match group_error(groups, i) {
            Some(e) => Some(e),
            None => first_group_error(groups, i + 1),
        }
    }
}

/// The rule that action `a` of service `index` breaks.
pub open spec fn action_error(service: ServiceConfig, index: int, a: int) -> Option<ConfigError> {
    let action = service.actions@[a];
    if action.kind == ActionKind::Stdin && action.input is None {
        Some(ConfigError::StdinActionRequiresInput { index: index as usize, action_index: a as usize })
    } else if action.kind == ActionKind::Stdin && !keeps_stdin(service) {
        Some(
            ConfigError::StdinActionRequiresStdinSupport {
                index: index as usize,
                action_index: a as usize,
            },
        )
    } else {
        None
    }
}

/// The first rule broken by the actions of service `index` from `a` on.
pub open spec fn first_action_error(service: ServiceConfig, index: int, a: int) -> Option<
    ConfigError,
>
    decreases service.actions@.len() - a,
{
    if a < 0 || a >= service.actions@.len() {
        None
    } else {
        match action_error(service, index, a) {
            Some(e) => Some(e),
            None => first_action_error(service, index, a + 1),
        }
    }
}

/// The rule that the type-specific settings of service `index` break.
pub open spec fn type_error(service: ServiceConfig, index: int) -> Option<ConfigError> {
    match service.service_type {
        ServiceType::Process | ServiceType::ReactNative => match service.command {
            None => Some(ConfigError::CommandRequired { index: index as usize }),
            Some(c) => if c@.len() == 0 {
                Some(ConfigError::CommandRequired { index: index as usize })
            } else {
                None
            },
        },
        ServiceType::WindowsService => match service.windows_service {
            None => Some(ConfigError::WindowsServiceNameRequired { index: index as usize }),
            Some(o) => if is_blank(o.service_name@) {
                Some(ConfigError::WindowsServiceNameRequired { index: index as usize })
            } else {
                None
            },
        },
    }
}

/// The rule that service `i` breaks, given that everything before it passed.
pub open spec fn service_error(config: DevDockConfig, i: int) -> Option<ConfigError> {
    let services = config.services@;
    let s = services[i];
    if is_blank(s.id@) {
        Some(ConfigError::ServiceIdRequired { index: i as usize })
    } else if exists|j: int| 0 <= j < i && (#[trigger] services[j]).id@ == s.id@ {
        Some(ConfigError::DuplicateServiceId { index: i as usize, id: s.id })
    } else if !group_id_exists(config.groups@, s.group@) {
        Some(ConfigError::UnknownGroup { index: i as usize, group: s.group })
    } else if type_error(s, i) is Some {
        type_error(s, i)
    } else {
        first_action_error(s, i, 0)
    }
}

/// The first rule broken by the services from `i` on.
pub open spec fn first_service_error(config: DevDockConfig, i: int) -> Option<ConfigError>
    decreases config.services@.len() - i,
{
    if i < 0 || i >= config.services@.len() {
        None
    } else {
        match service_error(config, i) {
            Some(e) => Some(e),
            None => first_service_error(config, i + 1),
        }
    }
}

/// The first rule that `config` breaks, in the order the rules are checked:
/// the version, then each group in order, then each service in order.
pub open spec fn validation_error(config: DevDockConfig) -> Option<ConfigError> {
    if config.version != 1 {
        Some(ConfigError::UnsupportedVersion { version: config.version })
    } else {
        match first_group_error(config.groups@, 0) {
            Some(e) => Some(e),
            None => first_service_error(config, 0),
        }
    }
}

/// What `validate` returns for `config`.
pub open spec fn validation_result(config: DevDockConfig) -> Result<(), ConfigError> {
    match validation_error(config) {
        None => Ok(()),
        Some(e) => Err(e),
    }
}

/// Whether the service's process keeps its stdin open.
pub fn service_keeps_stdin(service: &ServiceConfig) -> (r: bool)
    ensures
        r == keeps_stdin(*service),
{
    match service.process.keep_stdin {
        Some(b) => b,
        None => service.service_type == ServiceType::ReactNative,
    }
}

fn has_group(groups: &Vec<GroupConfig>, id: &String) -> (r: bool)
    ensures
        r == group_id_exists(groups@, id@),
{
    let mut j: usize = 0;
    while j < groups.len()
        invariant
            j <= groups.len(),
            forall|k: int| 0 <= k < j ==> (#[trigger] groups@[k]).id@ != id@,
        decreases groups.len() - j,
    {
        if groups[j].id == *id {
            return true;
        }
        j = j + 1;
    }
    false
}

fn find_group_error(groups: &Vec<GroupConfig>, i: usize) -> (r: Option<ConfigError>)
    requires
        i < groups.len(),
    ensures
        r == group_error(groups@, i as int),
{
    if blank(groups[i].id.as_str()) {
        return Some(ConfigError::GroupIdRequired { index: i });
    }
    let mut j: usize = 0;
    while j < i
        invariant
            i < groups.len(),
            j <= i,
            !is_blank(groups@[i as int].id@),
            forall|k: int| 0 <= k < j ==> (#[trigger] groups@[k]).id@ != groups@[i as int].id@,
        decreases i - j,
    {
        if groups[j].id == groups[i].id {
            assert(groups@[j as int].id@ == groups@[i as int].id@);
            return Some(ConfigError::DuplicateGroupId { index: i, id: groups[i].id.clone() });
        }
        j = j + 1;
    }
    None
}

fn find_type_error(service: &ServiceConfig, index: usize) -> (r: Option<ConfigError>)
    ensures
        r == type_error(*service, index as int),
{
    match service.service_type {
        ServiceType::Process | ServiceType::ReactNative => match &service.command {
            None => Some(ConfigError::CommandRequired { index }),
            Some(c) => if c.as_str().is_empty() {
                Some(ConfigError::CommandRequired { index })
            } else {
                None
            },
        },
        ServiceType::WindowsService => match &service.windows_service {
            None => Some(ConfigError::WindowsServiceNameRequired { index }),
            Some(o) => if blank(o.service_name.as_str()) {
                Some(ConfigError::WindowsServiceNameRequired { index })
            } else {
                None
            },
        },
    }
}

fn find_action_error(service: &ServiceConfig, index: usize) -> (r: Option<ConfigError>)
    ensures
        r == first_action_error(*service, index as int, 0),
{
    let mut a: usize = 0;
    while a < service.actions.len()
        invariant
            a <= service.actions.len(),
            first_action_error(*service, index as int, 0) == first_action_error(
                *service,
                index as int,
                a as int,
            ),
        decreases service.actions.len() - a,
    {
        let action = &service.actions[a];
        if action.kind == ActionKind::Stdin {
            if action.input.is_none() {
                return Some(ConfigError::StdinActionRequiresInput { index, action_index: a });
            }
            if !service_keeps_stdin(service) {
                return Some(
                    ConfigError::StdinActionRequiresStdinSupport { index, action_index: a },
                );
            }
        }
        a = a + 1;
    }
    None
}

fn find_service_error(config: &DevDockConfig, i: usize) -> (r: Option<ConfigError>)
    requires
        i < config.services.len(),
    ensures
        r == service_error(*config, i as int),
{
    let services = &config.services;
    let service = &services[i];
    if blank(service.id.as_str()) {
        return Some(ConfigError::ServiceIdRequired { index: i });
    }
    let mut j: usize = 0;
    while j < i
        invariant
            services == &config.services,
            i < services.len(),
            j <= i,
            !is_blank(services@[i as int].id@),
            forall|k: int| 0 <= k < j ==> (#[trigger] services@[k]).id@ != services@[i as int].id@,
        decreases i - j,
    {
        if services[j].id == services[i].id {
            assert(services@[j as int].id@ == services@[i as int].id@);
            return Some(ConfigError::DuplicateServiceId { index: i, id: services[i].id.clone() });
        }
        j = j + 1;
    }
    if !has_group(&config.groups, &service.group) {
        return Some(ConfigError::UnknownGroup { index: i, group: service.group.clone() });
    }
    let t = find_type_error(service, i);
    if t.is_some() {
        return t;
    }
    find_action_error(service, i)
}

/// Checks the configuration rules and reports the first one broken.
pub fn validate(config: &DevDockConfig) -> (r: Result<(), ConfigError>)
    ensures
        r == validation_result(*config),
{
    if config.version != 1 {
        return Err(ConfigError::UnsupportedVersion { version: config.version });
    }
    let mut i: usize = 0;
    while i < config.groups.len()
        invariant
            config.version == 1,
            i <= config.groups.len(),
            first_group_error(config.groups@, 0) == first_group_error(config.groups@, i as int),
        decreases config.groups.len() - i,
    {
        match find_group_error(&config.groups, i) {
            Some(e) => {
                assert(first_group_error(config.groups@, i as int) == Some(e));
                return Err(e);
            },
            None => {},
        }
        i = i + 1;
    }
    assert(first_group_error(config.groups@, i as int) is None);
    let mut i: usize = 0;
    while i < config.services.len()
        invariant
            config.version == 1,
            first_group_error(config.groups@, 0) is None,
            i <= config.services.len(),
            first_service_error(*config, 0) == first_service_error(*config, i as int),
        decreases config.services.len() - i,
    {
        match find_service_error(config, i) {
            Some(e) => {
                assert(first_service_error(*config, i as int) == Some(e));
                return Err(e);
            },
            None => {},
        }
        i = i + 1;
    }
    assert(first_service_error(*config, i as int) is None);
    Ok(())
}


// ---------------------------------------------------------------------------
// What a valid configuration guarantees
// ---------------------------------------------------------------------------

proof fn lemma_no_group_error_from(groups: Seq<GroupConfig>, i: int, k: int)
    requires
        0 <= i <= k < groups.len(),
        first_group_error(groups, i) is None,
    ensures
        group_error(groups, k) is None,
    decreases k - i,
{
    if i < k {
        lemma_no_group_error_from(groups, i + 1, k);
    }
}

proof fn lemma_no_action_error_from(service: ServiceConfig, index: int, a: int, k: int)
    requires
        0 <= a <= k < service.actions@.len(),
        first_action_error(service, index, a) is None,
    ensures
        action_error(service, index, k) is None,
    decreases k - a,
{
    if a < k {
        lemma_no_action_error_from(service, index, a + 1, k);
    }
}

proof fn lemma_no_service_error_from(config: DevDockConfig, i: int, k: int)
    requires
        0 <= i <= k < config.services@.len(),
        first_service_error(config, i) is None,
    ensures
        service_error(config, k) is None,
    decreases k - i,
{
    if i < k {
        lemma_no_service_error_from(config, i + 1, k);
    }
}

/// The rules of a valid configuration: version 1; non-blank, distinct group
/// ids; non-blank, distinct service ids; services only in existing groups; a
/// command for every process-like service and a name for every Windows
/// service; and stdin actions only with an input, on services that keep
/// stdin.
pub open spec fn follows_rules(config: DevDockConfig) -> bool {
    &&& config.version == 1
    &&& forall|i: int| 0 <= i < config.groups@.len() ==> !is_blank((#[trigger] config.groups@[i]).id@)
    &&& forall|i: int, j: int|
        0 <= i < j < config.groups@.len() ==> (#[trigger] config.groups@[i]).id@ != (
        #[trigger] config.groups@[j]).id@
    &&& forall|i: int|
        0 <= i < config.services@.len() ==> !is_blank((#[trigger] config.services@[i]).id@)
    &&& forall|i: int, j: int|
        0 <= i < j < config.services@.len() ==> (#[trigger] config.services@[i]).id@ != (
        #[trigger] config.services@[j]).id@
    &&& forall|i: int|
        0 <= i < config.services@.len() ==> group_id_exists(
            config.groups@,
            (#[trigger] config.services@[i]).group@,
        )
    &&& forall|i: int|
        0 <= i < config.services@.len() ==> type_error(#[trigger] config.services@[i], i) is None
    &&& forall|i: int, a: int|
        0 <= i < config.services@.len() && 0 <= a < config.services@[i].actions@.len()
            && (#[trigger] config.services@[i].actions@[a]).kind == ActionKind::Stdin
            ==> config.services@[i].actions@[a].input is Some && keeps_stdin(config.services@[i])
}

proof fn lemma_groups_pass_from(groups: Seq<GroupConfig>, i: int)
    requires
        0 <= i,
        forall|k: int| i <= k < groups.len() ==> group_error(groups, k) is None,
    ensures
        first_group_error(groups, i) is None,
    decreases groups.len() - i,
{
    if i < groups.len() {
        lemma_groups_pass_from(groups, i + 1);
    }
}

proof fn lemma_actions_pass_from(service: ServiceConfig, index: int, a: int)
    requires
        0 <= a,
        forall|k: int| a <= k < service.actions@.len() ==> action_error(service, index, k) is None,
    ensures
        first_action_error(service, index, a) is None,
    decreases service.actions@.len() - a,
{
    if a < service.actions@.len() {
        lemma_actions_pass_from(service, index, a + 1);
    }
}

proof fn lemma_services_pass_from(config: DevDockConfig, i: int)
    requires
        0 <= i,
        forall|k: int| i <= k < config.services@.len() ==> service_error(config, k) is None,
    ensures
        first_service_error(config, i) is None,
    decreases config.services@.len() - i,
{
    if i < config.services@.len() {
        lemma_services_pass_from(config, i + 1);
    }
}

proof fn lemma_group_error_kinds(groups: Seq<GroupConfig>, i: int)
    ensures
        first_group_error(groups, i) matches Some(e) ==> (e is GroupIdRequired
            || e is DuplicateGroupId),
    decreases groups.len() - i,
{
    if 0 <= i < groups.len() && group_error(groups, i) is None {
        lemma_group_error_kinds(groups, i + 1);
    }
}

proof fn lemma_action_error_kinds(service: ServiceConfig, index: int, a: int)
    ensures
        first_action_error(service, index, a) matches Some(e) ==> (e is StdinActionRequiresInput
            || e is StdinActionRequiresStdinSupport),
    decreases service.actions@.len() - a,
{
    if 0 <= a < service.actions@.len() && action_error(service, index, a) is None {
        lemma_action_error_kinds(service, index, a + 1);
    }
}

proof fn lemma_service_error_source(config: DevDockConfig, i: int)
    ensures
        first_service_error(config, i) matches Some(e) ==> exists|m: int|
            0 <= i <= m < config.services@.len() && #[trigger] service_error(config, m) == Some(e),
    decreases config.services@.len() - i,
{
    if 0 <= i < config.services@.len() {
        if service_error(config, i) is None {
            lemma_service_error_source(config, i + 1);
        }
    }
}

/// Validation reports an unknown group only for a real one: when it reports
/// `UnknownGroup`, the index is that of a configured service, the group is
/// that service's group, and no configured group, at any position, has that
/// id.
pub proof fn law_unknown_group_is_absent(config: DevDockConfig)
    ensures
        validation_error(config) matches Some(ConfigError::UnknownGroup { index, group }) ==> (
        index < config.services@.len() && group == config.services@[index as int].group
            && forall|j: int|
            0 <= j < config.groups@.len() ==> (#[trigger] config.groups@[j]).id@ != group@),
{
    if config.version == 1 {
        lemma_group_error_kinds(config.groups@, 0);
        if first_group_error(config.groups@, 0) is None {
            lemma_service_error_source(config, 0);
            if let Some(e) = first_service_error(config, 0) {
                let m = choose|m: int|
                    0 <= 0 <= m < config.services@.len() && #[trigger] service_error(config, m)
                        == Some(e);
                lemma_action_error_kinds(config.services@[m], m, 0);
                assert(config.services@.len() <= usize::MAX) by {
                    assert(config.services@.len() == config.services.len());
                }
            }
        }
    }
}

/// `validate` accepts a configuration exactly when it follows the rules of
/// `follows_rules`.
pub proof fn law_valid_config(config: DevDockConfig)
    ensures
        validation_error(config) is None <==> follows_rules(config),
{
    if validation_error(config) is None {
        assert forall|i: int| 0 <= i < config.groups@.len() implies !is_blank(
            (#[trigger] config.groups@[i]).id@,
        ) by {
            lemma_no_group_error_from(config.groups@, 0, i);
        }
        assert forall|i: int, j: int| 0 <= i < j < config.groups@.len() implies (
        #[trigger] config.groups@[i]).id@ != (#[trigger] config.groups@[j]).id@ by {
            lemma_no_group_error_from(config.groups@, 0, j);
        }
        assert forall|i: int| 0 <= i < config.services@.len() implies !is_blank(
            (#[trigger] config.services@[i]).id@,
        ) && group_id_exists(config.groups@, config.services@[i].group@) && type_error(
            config.services@[i],
            i,
        ) is None && first_action_error(config.services@[i], i, 0) is None by {
            lemma_no_service_error_from(config, 0, i);
        }
        assert forall|i: int, j: int| 0 <= i < j < config.services@.len() implies (
        #[trigger] config.services@[i]).id@ != (#[trigger] config.services@[j]).id@ by {
            lemma_no_service_error_from(config, 0, j);
        }
        assert forall|i: int, a: int|
            0 <= i < config.services@.len() && 0 <= a < config.services@[i].actions@.len() && (
            #[trigger] config.services@[i].actions@[a]).kind == ActionKind::Stdin implies config.services@[i].actions@[a].input is Some
            && keeps_stdin(config.services@[i]) by {
            lemma_no_service_error_from(config, 0, i);
            lemma_no_action_error_from(config.services@[i], i, 0, a);
        }
    }
    if follows_rules(config) {
        let groups = config.groups@;
        assert forall|k: int| 0 <= k < groups.len() implies group_error(groups, k) is None by {
            assert(!is_blank(groups[k].id@));
            if exists|j: int| 0 <= j < k && (#[trigger] groups[j]).id@ == groups[k].id@ {
                let j = choose|j: int| 0 <= j < k && (#[trigger] groups[j]).id@ == groups[k].id@;
                assert(groups[j].id@ != groups[k].id@);
            }
        }
        lemma_groups_pass_from(groups, 0);
        let services = config.services@;
        assert forall|k: int| 0 <= k < services.len() implies service_error(config, k) is None by {
            let s = services[k];
            assert(!is_blank(s.id@));
            if exists|j: int| 0 <= j < k && (#[trigger] services[j]).id@ == s.id@ {
                let j = choose|j: int| 0 <= j < k && (#[trigger] services[j]).id@ == s.id@;
                assert(services[j].id@ != services[k].id@);
            }
            assert(group_id_exists(config.groups@, s.group@));
            assert(type_error(s, k) is None);
            assert forall|a: int| 0 <= a < s.actions@.len() implies action_error(s, k, a) is None by {
                if s.actions@[a].kind == ActionKind::Stdin {
                    assert(config.services@[k].actions@[a].input is Some && keeps_stdin(
                        config.services@[k],
                    ));
                }
            }
            lemma_actions_pass_from(s, k, 0);
        }
        lemma_services_pass_from(config, 0);
    }
}

// ---------------------------------------------------------------------------
// Defaults of omitted settings
// ---------------------------------------------------------------------------

/// The default of `killTree` and `rotate`.
pub fn default_true() -> (r: bool)
    ensures
        r,
{
    true
}

/// The default of `restartDelayMs`.
pub fn default_restart_delay() -> (r: u64)
    ensures
        r == 1000,
{
    1000
}

/// The default of `maxSizeMb`.
pub fn default_log_max_size_mb() -> (r: Option<u64>)
    ensures
        r == Some(10u64),
{
    Some(10)
}

/// The default of `maxFiles`.
pub fn default_log_max_files() -> (r: Option<u32>)
    ensures
        r == Some(1u32),
{
    Some(1)
}

/// The default application name.
pub fn default_app_name() -> (r: String)
    ensures
        r@ == "DevDock"@,
{
    String::from_str("DevDock")
}

/// The default of `logDir`.
pub fn default_log_dir_template() -> (r: String)
    ensures
        r@ == "${APP_DATA}/DevDock/logs"@,
{
    String::from_str("${APP_DATA}/DevDock/logs")
}

/// The default terminal program.
pub fn default_terminal_program() -> (r: String)
    ensures
        r@ == "wt.exe"@,
{
    String::from_str("wt.exe")
}

/// The default shell inside the terminal.
pub fn default_terminal_shell() -> (r: String)
    ensures
        r@ == "powershell"@,
{
    String::from_str("powershell")
}

/// The default of `tailCommand`.
pub fn default_tail_command() -> (r: String)
    ensures
        r@ == "Get-Content -Path '{logFile}' -Wait"@,
{
    String::from_str("Get-Content -Path '{logFile}' -Wait")
}

impl Default for TerminalConfig {
    fn default() -> (r: Self)
        ensures
            r.program@ == "wt.exe"@,
            r.shell@ == "powershell"@,
            r.tail_command@ == "Get-Content -Path '{logFile}' -Wait"@,
    {
        TerminalConfig {
            program: default_terminal_program(),
            shell: default_terminal_shell(),
            tail_command: default_tail_command(),
        }
    }
}

impl Default for AppConfig {
    fn default() -> (r: Self)
        ensures
            r.name@ == "DevDock"@,
            r.log_dir@ == "${APP_DATA}/DevDock/logs"@,
            r.terminal.program@ == "wt.exe"@,
            r.terminal.shell@ == "powershell"@,
            r.terminal.tail_command@ == "Get-Content -Path '{logFile}' -Wait"@,
    {
        AppConfig {
            name: default_app_name(),
            log_dir: default_log_dir_template(),
            terminal: TerminalConfig::default(),
        }
    }
}

impl Default for ProcessOptions {
    fn default() -> (r: Self)
        ensures
            r == (ProcessOptions {
                kill_tree: true,
                restart_delay_ms: 1000,
                start_on_launch: false,
                keep_stdin: None,
            }),
    {
        ProcessOptions {
            kill_tree: default_true(),
            restart_delay_ms: default_restart_delay(),
            start_on_launch: false,
            keep_stdin: None,
        }
    }
}

/// The log options of a service that configures none.
pub open spec fn default_log_options() -> LogOptions {
    LogOptions { file: None, rotate: true, max_size_mb: Some(10u64), max_files: Some(1u32) }
}

impl Default for LogOptions {
    fn default() -> (r: Self)
        ensures
            r == default_log_options(),
    {
        LogOptions {
            file: None,
            rotate: default_true(),
            max_size_mb: default_log_max_size_mb(),
            max_files: default_log_max_files(),
        }
    }
}

/// The configuration written when none exists yet.
pub const EXAMPLE_CONFIG: &'static str = r#"{
  "version": 1,
  "app": {
    "name": "DevDock",
    "logDir": "${APP_DATA}/DevDock/logs",
    "terminal": {
      "program": "wt.exe",
      "shell": "powershell",
      "tailCommand": "Get-Content -Path '{logFile}' -Wait"
    }
  },
  "groups": [
    { "id": "examples", "name": "Examples" }
  ],
  "services": [
    {
      "id": "example-server",
      "name": "Example Server",
      "type": "process",
      "group": "examples",
      "command": "powershell",
      "args": ["-NoProfile", "-Command", "while ($true) { Write-Output ('DevDock example ' + (Get-Date)); Start-Sleep 2 }"],
      "process": {
        "killTree": true,
        "restartDelayMs": 1000,
        "startOnLaunch": false
      },
      "log": {
        "file": "${LOG_DIR}/example-server.log",
        "rotate": true,
        "maxSizeMb": 10,
        "maxFiles": 1
      },
      "actions": []
    }
  ]
}
"#;

// ---------------------------------------------------------------------------
// Log file location
// ---------------------------------------------------------------------------

/// `<log_dir>\<id>.log`, the log file of a service that names none.
pub open spec fn default_log_file(id: Seq<char>, log_dir: Seq<char>) -> Seq<char> {
    path_join(log_dir, id + ".log"@)
}

/// The log file of `service`: its configured file, else the default one in `log_dir`.
pub open spec fn log_path_of(service: ServiceConfig, log_dir: Seq<char>) -> Seq<char> {
    match service.log {
        Some(l) => match l.file {
            Some(f) => f@,
            None => default_log_file(service.id@, log_dir),
        },
        None => default_log_file(service.id@, log_dir),
    }
}

fn default_log_file_exec(id: &str, log_dir: &str) -> (r: String)
    ensures
        r@ == default_log_file(id@, log_dir@),
{
    let name = concat(id, ".log");
    join(log_dir, name.as_str())
}

/// The log file of a service.
pub fn service_log_path(service: &ServiceConfig, log_dir: &str) -> (r: String)
    ensures
        r@ == log_path_of(*service, log_dir@),
{
    match &service.log {
        Some(l) => match &l.file {
            Some(f) => f.clone(),
            None => default_log_file_exec(service.id.as_str(), log_dir),
        },
        None => default_log_file_exec(service.id.as_str(), log_dir),
    }
}

// ---------------------------------------------------------------------------
// Placeholder expansion
// ---------------------------------------------------------------------------

/// `${APP_DATA}` and then `${CONFIG_DIR}` replaced in `v`.
pub open spec fn expand_basic_text(v: Seq<char>, app_data: Seq<char>, config_dir: Seq<char>) -> Seq<
    char,
> {
    replace_all(replace_all(v, "${APP_DATA}"@, app_data), "${CONFIG_DIR}"@, config_dir)
}

/// `${APP_DATA}`, `${CONFIG_DIR}` and then `${LOG_DIR}` replaced in `v`.
pub open spec fn expand_all_text(
    v: Seq<char>,
    app_data: Seq<char>,
    config_dir: Seq<char>,
    log_dir: Seq<char>,
) -> Seq<char> {
    replace_all(expand_basic_text(v, app_data, config_dir), "${LOG_DIR}"@, log_dir)
}

/// Expands `${APP_DATA}` and `${CONFIG_DIR}`.
pub fn expand_basic(value: &str, app_data: &str, config_dir: &str) -> (r: String)
    ensures
        r@ == expand_basic_text(value@, app_data@, config_dir@),
{
    proof {
        reveal_strlit("${APP_DATA}");
        reveal_strlit("${CONFIG_DIR}");
    }
    let a = replace(value, "${APP_DATA}", app_data);
    replace(a.as_str(), "${CONFIG_DIR}", config_dir)
}

/// Expands `${APP_DATA}`, `${CONFIG_DIR}` and `${LOG_DIR}`.
pub fn expand_all(value: &str, app_data: &str, config_dir: &str, log_dir: &str) -> (r: String)
    ensures
        r@ == expand_all_text(value@, app_data@, config_dir@, log_dir@),
{
    proof {
        reveal_strlit("${LOG_DIR}");
    }
    let b = expand_basic(value, app_data, config_dir);
    replace(b.as_str(), "${LOG_DIR}", log_dir)
}

/// `after` is `before` with its text expanded.
pub open spec fn option_expanded(
    before: Option<String>,
    after: Option<String>,
    a: Seq<char>,
    c: Seq<char>,
    l: Seq<char>,
) -> bool {
    match before {
        None => after is None,
        Some(b) => after matches Some(x) && x@ == expand_all_text(b@, a, c, l),
    }
}

/// Each of `after` is the matching one of `before` with its text expanded.
pub open spec fn strings_expanded(
    before: Seq<String>,
    after: Seq<String>,
    a: Seq<char>,
    c: Seq<char>,
    l: Seq<char>,
) -> bool {
    &&& after.len() == before.len()
    &&& forall|i: int|
        0 <= i < before.len() ==> (#[trigger] after[i])@ == expand_all_text(before[i]@, a, c, l)
}

/// The same variable names, with each value expanded.
pub open spec fn env_expanded(
    before: Seq<(String, String)>,
    after: Seq<(String, String)>,
    a: Seq<char>,
    c: Seq<char>,
    l: Seq<char>,
) -> bool {
    &&& after.len() == before.len()
    &&& forall|i: int|
        0 <= i < before.len() ==> (#[trigger] after[i]).0@ == before[i].0@ && after[i].1@
            == expand_all_text(before[i].1@, a, c, l)
}

/// The log options that `before` ends up with: the configured ones, else the
/// defaults; a file always (the configured one expanded, else the default
/// one); a size limit and a file count always.
pub open spec fn log_expanded(
    before: ServiceConfig,
    after: Option<LogOptions>,
    a: Seq<char>,
    c: Seq<char>,
    l: Seq<char>,
) -> bool {
    let lb = match before.log {
        Some(x) => x,
        None => default_log_options(),
    };
    &&& after matches Some(la)
    &&& la.rotate == lb.rotate
    &&& la.max_size_mb == match lb.max_size_mb {
        Some(m) => Some(m),
        None => Some(10u64),
    }
    &&& la.max_files == match lb.max_files {
        Some(m) => Some(m),
        None => Some(1u32),
    }
    &&& la.file matches Some(f)
    &&& f@ == match lb.file {
        Some(v) => expand_all_text(v@, a, c, l),
        None => default_log_file(before.id@, l),
    }
}

/// `after` is `before` with its placeholders expanded and its log options completed.
pub open spec fn service_expanded(
    before: ServiceConfig,
    after: ServiceConfig,
    a: Seq<char>,
    c: Seq<char>,
    l: Seq<char>,
) -> bool {
    &&& after.id == before.id
    &&& after.name == before.name
    &&& after.service_type == before.service_type
    &&& after.group == before.group
    &&& after.process == before.process
    &&& after.windows_service == before.windows_service
    &&& after.status == before.status
    &&& after.actions == before.actions
    &&& option_expanded(before.cwd, after.cwd, a, c, l)
    &&& option_expanded(before.command, after.command, a, c, l)
    &&& strings_expanded(before.args@, after.args@, a, c, l)
    &&& env_expanded(before.env@, after.env@, a, c, l)
    &&& log_expanded(before, after.log, a, c, l)
}

/// `v` holds none of the placeholders `${APP_DATA}`, `${CONFIG_DIR}` and
/// `${LOG_DIR}`.
pub open spec fn placeholder_free(v: Seq<char>) -> bool {
    &&& !contains_seq(v, "${APP_DATA}"@)
    &&& !contains_seq(v, "${CONFIG_DIR}"@)
    &&& !contains_seq(v, "${LOG_DIR}"@)
}

/// No text of `service` that expansion touches holds a placeholder.
pub open spec fn service_placeholder_free(service: ServiceConfig) -> bool {
    &&& (service.cwd matches Some(v) ==> placeholder_free(v@))
    &&& (service.command matches Some(v) ==> placeholder_free(v@))
    &&& forall|i: int| 0 <= i < service.args@.len() ==> placeholder_free((#[trigger] service.args@[i])@)
    &&& forall|i: int| 0 <= i < service.env@.len() ==> placeholder_free((#[trigger] service.env@[i]).1@)
    &&& (service.log matches Some(l) ==> (l.file matches Some(f) ==> placeholder_free(f@)))
}

/// The text of an optional string.
pub open spec fn option_text(v: Option<String>) -> Option<Seq<char>> {
    match v {
        Some(x) => Some(x@),
        None => None,
    }
}

/// `a` and `b` agree field by field, strings compared as text.
pub open spec fn same_service_text(a: ServiceConfig, b: ServiceConfig) -> bool {
    &&& a.id == b.id
    &&& a.name == b.name
    &&& a.service_type == b.service_type
    &&& a.group == b.group
    &&& a.process == b.process
    &&& a.windows_service == b.windows_service
    &&& a.status == b.status
    &&& a.actions == b.actions
    &&& option_text(a.cwd) == option_text(b.cwd)
    &&& option_text(a.command) == option_text(b.command)
    &&& a.args@.len() == b.args@.len()
    &&& forall|i: int| 0 <= i < a.args@.len() ==> (#[trigger] a.args@[i])@ == b.args@[i]@
    &&& a.env@.len() == b.env@.len()
    &&& forall|i: int|
        0 <= i < a.env@.len() ==> (#[trigger] a.env@[i]).0@ == b.env@[i].0@ && a.env@[i].1@
            == b.env@[i].1@
    &&& match (a.log, b.log) {
        (Some(x), Some(y)) => x.rotate == y.rotate && x.max_size_mb == y.max_size_mb
            && x.max_files == y.max_files && option_text(x.file) == option_text(y.file),
        (None, None) => true,
        _ => false,
    }
}

/// Expanding text without placeholders leaves it as it is.
pub proof fn lemma_expand_placeholder_free(v: Seq<char>, a: Seq<char>, c: Seq<char>, l: Seq<char>)
    requires
        placeholder_free(v),
    ensures
        expand_all_text(v, a, c, l) == v,
{
    reveal_strlit("${APP_DATA}");
    reveal_strlit("${CONFIG_DIR}");
    reveal_strlit("${LOG_DIR}");
    lemma_replace_absent(v, "${APP_DATA}"@, a);
    lemma_replace_absent(v, "${CONFIG_DIR}"@, c);
    lemma_replace_absent(v, "${LOG_DIR}"@, l);
}

/// Expansion settles: expanding again, with the same directories, a service
/// that an expansion produced and that holds no placeholder changes nothing.
pub proof fn law_expansion_settles(
    s0: ServiceConfig,
    s1: ServiceConfig,
    s2: ServiceConfig,
    a: Seq<char>,
    c: Seq<char>,
    l: Seq<char>,
)
    requires
        service_expanded(s0, s1, a, c, l),
        service_placeholder_free(s1),
        service_expanded(s1, s2, a, c, l),
    ensures
        same_service_text(s2, s1),
{
    if let Some(v) = s1.cwd {
        lemma_expand_placeholder_free(v@, a, c, l);
    }
    if let Some(v) = s1.command {
        lemma_expand_placeholder_free(v@, a, c, l);
    }
    assert forall|i: int| 0 <= i < s2.args@.len() implies (#[trigger] s2.args@[i])@
        == s1.args@[i]@ by {
        lemma_expand_placeholder_free(s1.args@[i]@, a, c, l);
    }
    assert forall|i: int| 0 <= i < s2.env@.len() implies (#[trigger] s2.env@[i]).0@
        == s1.env@[i].0@ && s2.env@[i].1@ == s1.env@[i].1@ by {
        lemma_expand_placeholder_free(s1.env@[i].1@, a, c, l);
    }
    let f = s1.log.unwrap().file.unwrap();
    lemma_expand_placeholder_free(f@, a, c, l);
}

/// No two of `pairs` have the same name: what a JSON object gives, whose
/// names are its keys.
pub open spec fn distinct_names<V>(pairs: Seq<(String, V)>) -> bool {
    forall|i: int, j: int|
        0 <= i < j < pairs.len() ==> (#[trigger] pairs[i]).0@ != (#[trigger] pairs[j]).0@
}

/// The invariant of a service read from a configuration file: its
/// environment variables, and the details of its status patterns, are named
/// once each.
pub open spec fn service_wf(service: ServiceConfig) -> bool {
    &&& distinct_names(service.env@)
    &&& match service.status {
        Some(s) => distinct_names(s.patterns@),
        None => true,
    }
}

/// Every service of `config` satisfies `service_wf`.
pub open spec fn config_wf(config: DevDockConfig) -> bool {
    forall|i: int| 0 <= i < config.services@.len() ==> service_wf(#[trigger] config.services@[i])
}

/// Expanding a service keeps its environment variables and status details
/// named once each.
pub proof fn law_expansion_keeps_names_distinct(
    before: ServiceConfig,
    after: ServiceConfig,
    a: Seq<char>,
    c: Seq<char>,
    l: Seq<char>,
)
    requires
        service_wf(before),
        service_expanded(before, after, a, c, l),
    ensures
        service_wf(after),
{
    assert forall|i: int, j: int| 0 <= i < j < after.env@.len() implies (#[trigger] after.env@[i]).0@
        != (#[trigger] after.env@[j]).0@ by {
        assert(after.env@[i].0@ == before.env@[i].0@);
        assert(after.env@[j].0@ == before.env@[j].0@);
        assert(before.env@[i].0@ != before.env@[j].0@);
    }
}

/// Resolving a configuration keeps every service's environment variables and
/// status details named once each.
pub proof fn law_resolution_keeps_names_distinct(
    before: DevDockConfig,
    after: LoadedConfig,
    config_path: Seq<char>,
    app_data: Seq<char>,
    config_dir: Seq<char>,
)
    requires
        config_wf(before),
        config_resolved(before, after, config_path, app_data, config_dir),
    ensures
        config_wf(after.config),
{
    let log_dir = expand_basic_text(before.app.log_dir@, app_data, config_dir);
    assert forall|i: int| 0 <= i < after.config.services@.len() implies service_wf(
        #[trigger] after.config.services@[i],
    ) by {
        assert(service_wf(before.services@[i]));
        law_expansion_keeps_names_distinct(
            before.services@[i],
            after.config.services@[i],
            app_data,
            config_dir,
            log_dir,
        );
    }
}

/// Replacing a pattern that does not occur changes nothing.
pub proof fn lemma_replace_absent(s: Seq<char>, p: Seq<char>, r: Seq<char>)
    requires
        p.len() > 0,
        !contains_seq(s, p),
    ensures
        replace_all(s, p, r) == s,
    decreases s.len(),
{
    if s.len() > 0 {
        assert(!has_prefix(s, p)) by {
            if has_prefix(s, p) {
                assert(crate::text::occurs_at(s, p, 0));
            }
        }
        assert(!contains_seq(s.skip(1), p)) by {
            if contains_seq(s.skip(1), p) {
                let i = choose|i: int| crate::text::occurs_at(s.skip(1), p, i);
                assert(s.subrange(i + 1, i + 1 + p.len()) =~= s.skip(1).subrange(i, i + p.len()));
                assert(crate::text::occurs_at(s, p, i + 1));
            }
        }
        lemma_replace_absent(s.skip(1), p, r);
        assert(s =~= seq![s[0]] + s.skip(1));
    }
}

/// Text without any placeholder is left as it is by the expansion.
pub proof fn law_plain_text_unchanged(v: Seq<char>, a: Seq<char>, c: Seq<char>, l: Seq<char>)
    requires
        !contains_seq(v, "${APP_DATA}"@),
        !contains_seq(v, "${CONFIG_DIR}"@),
        !contains_seq(v, "${LOG_DIR}"@),
    ensures
        expand_basic_text(v, a, c) == v,
        expand_all_text(v, a, c, l) == v,
{
    reveal_strlit("${APP_DATA}");
    reveal_strlit("${CONFIG_DIR}");
    reveal_strlit("${LOG_DIR}");
    lemma_replace_absent(v, "${APP_DATA}"@, a);
    lemma_replace_absent(v, "${CONFIG_DIR}"@, c);
    lemma_replace_absent(v, "${LOG_DIR}"@, l);
}

/// After expansion, a service's log path is its configured file expanded,
/// or the default file in the log directory if it configured none.
pub proof fn law_expanded_log_path(
    before: ServiceConfig,
    after: ServiceConfig,
    a: Seq<char>,
    c: Seq<char>,
    l: Seq<char>,
)
    requires
        service_expanded(before, after, a, c, l),
    ensures
        log_path_of(after, l) == match before.log {
            Some(x) => match x.file {
                Some(f) => expand_all_text(f@, a, c, l),
                None => default_log_file(before.id@, l),
            },
            None => default_log_file(before.id@, l),
        },
{
}

fn expand_option(v: &Option<String>, a: &str, c: &str, l: &str) -> (r: Option<String>)
    ensures
        option_expanded(*v, r, a@, c@, l@),
{
    match v {
        Some(x) => Some(expand_all(x.as_str(), a, c, l)),
        None => None,
    }
}

/// Expands the placeholders in a service's `cwd`, `command`, `args`, `env`
/// values and log file, and completes its log options.
pub fn expand_service(service: &mut ServiceConfig, app_data: &str, config_dir: &str, log_dir: &str)
    ensures
        service_expanded(*old(service), *final(service), app_data@, config_dir@, log_dir@),
        service_wf(*old(service)) ==> service_wf(*final(service)),
{
    let ghost before = *service;
    service.cwd = expand_option(&service.cwd, app_data, config_dir, log_dir);
    service.command = expand_option(&service.command, app_data, config_dir, log_dir);

    let mut args: Vec<String> = Vec::new();
    let mut i: usize = 0;
    while i < service.args.len()
        invariant
            service.args == before.args,
            i <= service.args.len(),
            args@.len() == i,
            forall|k: int|
                0 <= k < i ==> (#[trigger] args@[k])@ == expand_all_text(
                    service.args@[k]@,
                    app_data@,
                    config_dir@,
                    log_dir@,
                ),
        decreases service.args.len() - i,
    {
        args.push(expand_all(service.args[i].as_str(), app_data, config_dir, log_dir));
        i = i + 1;
    }
    service.args = args;

    let mut env: Vec<(String, String)> = Vec::new();
    let mut i: usize = 0;
    while i < service.env.len()
        invariant
            service.env == before.env,
            i <= service.env.len(),
            env@.len() == i,
            forall|k: int|
                0 <= k < i ==> (#[trigger] env@[k]).0@ == service.env@[k].0@ && env@[k].1@
                    == expand_all_text(service.env@[k].1@, app_data@, config_dir@, log_dir@),
        decreases service.env.len() - i,
    {
        let key = service.env[i].0.clone();
        let value = expand_all(service.env[i].1.as_str(), app_data, config_dir, log_dir);
        env.push((key, value));
        i = i + 1;
    }
    service.env = env;

    let default_file = default_log_file_exec(service.id.as_str(), log_dir);
    let log = match &service.log {
        Some(l) => LogOptions {
            file: l.file.clone(),
            rotate: l.rotate,
            max_size_mb: l.max_size_mb,
            max_files: l.max_files,
        },
        None => LogOptions::default(),
    };
    let file = match &log.file {
        Some(v) => expand_all(v.as_str(), app_data, config_dir, log_dir),
        None => default_file,
    };
    let max_size_mb = match log.max_size_mb {
        Some(m) => Some(m),
        None => Some(10),
    };
    let max_files = match log.max_files {
        Some(m) => Some(m),
        None => Some(1),
    };
    service.log = Some(LogOptions { file: Some(file), rotate: log.rotate, max_size_mb, max_files });
    proof {
        if service_wf(before) {
            law_expansion_keeps_names_distinct(before, *service, app_data@, config_dir@, log_dir@);
        }
    }
}


// ---------------------------------------------------------------------------
// Loading
// ---------------------------------------------------------------------------

/// `after` is `before` resolved against the configuration file at
/// `config_path`, whose directory is `config_dir`, and the AppData directory
/// `app_data`: the log directory expanded, and every service expanded against it.
pub open spec fn config_resolved(
    before: DevDockConfig,
    after: LoadedConfig,
    config_path: Seq<char>,
    app_data: Seq<char>,
    config_dir: Seq<char>,
) -> bool {
    let log_dir = expand_basic_text(before.app.log_dir@, app_data, config_dir);
    &&& after.config_path@ == config_path
    &&& after.log_dir@ == log_dir
    &&& after.config.version == before.version
    &&& after.config.app.name == before.app.name
    &&& after.config.app.terminal == before.app.terminal
    &&& after.config.app.log_dir@ == log_dir
    &&& after.config.groups == before.groups
    &&& after.config.services@.len() == before.services@.len()
    &&& forall|i: int|
        0 <= i < before.services@.len() ==> service_expanded(
            before.services@[i],
            #[trigger] after.config.services@[i],
            app_data,
            config_dir,
            log_dir,
        )
}

/// Resolves a configuration read from `config_path` against the AppData
/// directory `app_data`: `${APP_DATA}` and `${CONFIG_DIR}` (the directory of
/// `config_path`) in the log directory, and those and `${LOG_DIR}` in every
/// service.
pub fn resolve_config(config: DevDockConfig, config_path: String, app_data: &str) -> (r: Result<
    LoadedConfig,
    ConfigError,
>)
    ensures
        match path_parent(config_path@) {
            None => r == Err::<LoadedConfig, ConfigError>(ConfigError::ConfigPathHasNoParent),
            Some(dir) => r matches Ok(l) && config_resolved(config, l, config_path@, app_data@, dir),
        },
{
    let config_dir = match parent_of(config_path.as_str()) {
        Some(d) => d,
        None => {
            return Err(ConfigError::ConfigPathHasNoParent);
        },
    };
    let ghost before = config;
    let mut config = config;
    let log_dir = expand_basic(config.app.log_dir.as_str(), app_data, config_dir.as_str());
    config.app.log_dir = log_dir.clone();

    let mut rest = config.services;
    let mut services: Vec<ServiceConfig> = Vec::new();
    while rest.len() > 0
        invariant
            services@.len() + rest@.len() == before.services@.len(),
            rest@ == before.services@.skip(services@.len() as int),
            forall|k: int|
                0 <= k < services@.len() ==> service_expanded(
                    before.services@[k],
                    #[trigger] services@[k],
                    app_data@,
                    config_dir@,
                    log_dir@,
                ),
        decreases rest@.len(),
    {
        let ghost n = services@.len() as int;
        let mut service = rest.remove(0);
        assert(service == before.services@[n]);
        expand_service(&mut service, app_data, config_dir.as_str(), log_dir.as_str());
        services.push(service);
        assert(rest@ =~= before.services@.skip(n + 1));
    }
    config.services = services;
    Ok(LoadedConfig { config, config_path, log_dir })
}

/// Validates a configuration read from `config_path` and resolves it against
/// the current user's AppData directory.
pub fn load_from_path(config: DevDockConfig, config_path: String) -> (r: Result<
    LoadedConfig,
    ConfigError,
>)
    ensures
        match r {
            Ok(l) => validation_error(config) is None && (path_parent(config_path@) matches Some(
                dir,
            ) && exists|a: Seq<char>| config_resolved(config, l, config_path@, a, dir)),
            Err(e) => validation_error(config) == Some(e) || (validation_error(config) is None
                && (e == ConfigError::AppDataUnavailable || (e == ConfigError::ConfigPathHasNoParent
                && path_parent(config_path@) is None))),
        },
{
    match validate(&config) {
        Err(e) => {
            return Err(e);
        },
        Ok(()) => {},
    }
    let app_data = match crate::paths::app_data_dir() {
        Ok(a) => a,
        Err(_) => {
            return Err(ConfigError::AppDataUnavailable);
        },
    };
    resolve_config(config, config_path, app_data.as_str())
}

} // verus!
