//! Service lifecycle states, the per-service state table, and the decisions
//! behind the registry's operations.
use vstd::prelude::*;

use crate::config::{ActionConfig, ActionKind, ActionWhen, ServiceConfig, ServiceType};
use crate::table::Table;
use crate::text::{concat, concat3, text_eq};

verus! {

/// Where a service is in its life.
#[derive(Debug, Clone, Copy, PartialEq, Eq, Structural)]
pub enum ServiceLifecycle {
    Stopped,
    Starting,
    Running,
    Stopping,
    Restarting,
    Failed,
    Unknown,
}

/// What DevDock knows of a service at run time.
#[derive(Debug, Clone, PartialEq)]
pub struct RuntimeServiceState {
    pub lifecycle: ServiceLifecycle,
    pub detail: Option<String>,
    pub pid: Option<u32>,
    pub last_error: Option<String>,
}

/// A state with only a lifecycle.
pub open spec fn bare_state(lifecycle: ServiceLifecycle) -> RuntimeServiceState {
    RuntimeServiceState { lifecycle, detail: None, pid: None, last_error: None }
}

fn clone_text(s: &Option<String>) -> (r: Option<String>)
    ensures
        r == *s,
{
    match s {
        Some(t) => Some(t.clone()),
        None => None,
    }
}

impl RuntimeServiceState {
    /// A state with only a lifecycle.
    pub fn new(lifecycle: ServiceLifecycle) -> (r: Self)
        ensures
            r == bare_state(lifecycle),
    {
        RuntimeServiceState { lifecycle, detail: None, pid: None, last_error: None }
    }

    /// An equal copy of this state.
    pub fn duplicate(&self) -> (r: Self)
        ensures
            r == *self,
    {
        RuntimeServiceState {
            lifecycle: self.lifecycle,
            detail: clone_text(&self.detail),
            pid: self.pid,
            last_error: clone_text(&self.last_error),
        }
    }
}

impl Default for RuntimeServiceState {
    fn default() -> (r: Self)
        ensures
            r == bare_state(ServiceLifecycle::Stopped),
    {
        Self::new(ServiceLifecycle::Stopped)
    }
}

/// An action configured for `when` is offered while the service is in `lifecycle`.
pub open spec fn available(when: ActionWhen, lifecycle: ServiceLifecycle) -> bool {
    match when {
        ActionWhen::Any => true,
        ActionWhen::Running => lifecycle == ServiceLifecycle::Running,
        ActionWhen::Failed => lifecycle == ServiceLifecycle::Failed,
        ActionWhen::Stopped => lifecycle == ServiceLifecycle::Stopped,
    }
}

/// Whether an action configured for `when` is offered in `lifecycle`.
pub fn action_is_available(when: ActionWhen, lifecycle: ServiceLifecycle) -> (r: bool)
    ensures
        r == available(when, lifecycle),
{
    match when {
        ActionWhen::Any => true,
        ActionWhen::Running => lifecycle == ServiceLifecycle::Running,
        ActionWhen::Failed => lifecycle == ServiceLifecycle::Failed,
        ActionWhen::Stopped => lifecycle == ServiceLifecycle::Stopped,
    }
}

// ---------------------------------------------------------------------------
// The state table
// ---------------------------------------------------------------------------

/// An action is offered in exactly the lifecycle its `when` names: a
/// running-action only while running, a failed-action only after a failure,
/// a stopped-action only while stopped, and an any-action always.
pub proof fn law_action_availability(lifecycle: ServiceLifecycle)
    ensures
        available(ActionWhen::Running, lifecycle) <==> lifecycle == ServiceLifecycle::Running,
        available(ActionWhen::Failed, lifecycle) <==> lifecycle == ServiceLifecycle::Failed,
        available(ActionWhen::Stopped, lifecycle) <==> lifecycle == ServiceLifecycle::Stopped,
        available(ActionWhen::Any, lifecycle),
{
}


/// Some service in `services` has the id `id`.
pub open spec fn configured(services: Seq<ServiceConfig>, id: Seq<char>) -> bool {
    exists|i: int| 0 <= i < services.len() && (#[trigger] services[i]).id@ == id
}

/// The first service with id `id`.
pub fn find_service(services: &Vec<ServiceConfig>, id: &str) -> (r: Option<usize>)
    ensures
        match r {
            Some(i) => i < services@.len() && services@[i as int].id@ == id@ && forall|j: int|
                0 <= j < i ==> (#[trigger] services@[j]).id@ != id@,
            None => !configured(services@, id@),
        },
{
    let mut j: usize = 0;
    while j < services.len()
        invariant
            j <= services.len(),
            forall|q: int| 0 <= q < j ==> (#[trigger] services@[q]).id@ != id@,
        decreases services.len() - j,
    {
        if text_eq(services[j].id.as_str(), id) {
            return Some(j);
        }
        j = j + 1;
    }
    None
}

/// The states of a fresh registry: every configured service, stopped.
pub fn initial_states(services: &Vec<ServiceConfig>) -> (r: Table<RuntimeServiceState>)
    ensures
        r.wf(),
        forall|k: Seq<char>| r@.contains_key(k) <==> configured(services@, k),
        forall|k: Seq<char>|
            #[trigger] r@.contains_key(k) ==> r@[k] == bare_state(ServiceLifecycle::Stopped),
{
    let mut t: Table<RuntimeServiceState> = Table::new();
    let mut i: usize = 0;
    while i < services.len()
        invariant
            i <= services.len(),
            t.wf(),
            forall|k: Seq<char>| t@.contains_key(k) <==> configured(services@.take(i as int), k),
            forall|k: Seq<char>|
                #[trigger] t@.contains_key(k) ==> t@[k] == bare_state(ServiceLifecycle::Stopped),
        decreases services.len() - i,
    {
        t.insert(services[i].id.clone(), RuntimeServiceState::default());
        i = i + 1;
        assert forall|k: Seq<char>| t@.contains_key(k) <==> configured(
            services@.take(i as int),
            k,
        ) by {
            if configured(services@.take(i as int), k) {
                let j = choose|j: int|
                    0 <= j < i && (#[trigger] services@.take(i as int)[j]).id@ == k;
                if j < i - 1 {
                    assert(services@.take(i - 1)[j] == services@.take(i as int)[j]);
                }
            }
            if t@.contains_key(k) && k != services@[i - 1].id@ {
                let j = choose|j: int|
                    0 <= j < i - 1 && (#[trigger] services@.take(i - 1)[j]).id@ == k;
                assert(services@.take(i as int)[j] == services@.take(i - 1)[j]);
            }
            if k == services@[i - 1].id@ {
                assert(services@.take(i as int)[i - 1] == services@[i - 1]);
            }
        }
    }
    assert(services@.take(services.len() as int) =~= services@);
    t
}

/// The states after the configuration is replaced by one with `services`:
/// the services that remain keep their state, new ones start stopped, and
/// removed ones are forgotten.
pub fn reload_states(states: &mut Table<RuntimeServiceState>, services: &Vec<ServiceConfig>)
    requires
        old(states).wf(),
    ensures
        final(states).wf(),
        forall|k: Seq<char>| final(states)@.contains_key(k) <==> configured(services@, k),
        forall|k: Seq<char>|
            #[trigger] final(states)@.contains_key(k) ==> final(states)@[k] == if old(
                states,
            )@.contains_key(k) {
                old(states)@[k]
            } else {
                bare_state(ServiceLifecycle::Stopped)
            },
{
    let mut t: Table<RuntimeServiceState> = Table::new();
    let mut i: usize = 0;
    while i < services.len()
        invariant
            i <= services.len(),
            t.wf(),
            states.wf(),
            states@ == old(states)@,
            forall|k: Seq<char>| t@.contains_key(k) <==> configured(services@.take(i as int), k),
            forall|k: Seq<char>|
                #[trigger] t@.contains_key(k) ==> t@[k] == if states@.contains_key(k) {
                    states@[k]
                } else {
                    bare_state(ServiceLifecycle::Stopped)
                },
        decreases services.len() - i,
    {
        let id = &services[i].id;
        let value = match states.get(id.as_str()) {
            Some(s) => s.duplicate(),
            None => RuntimeServiceState::default(),
        };
        t.insert(id.clone(), value);
        i = i + 1;
        assert forall|k: Seq<char>| t@.contains_key(k) <==> configured(
            services@.take(i as int),
            k,
        ) by {
            if configured(services@.take(i as int), k) {
                let j = choose|j: int|
                    0 <= j < i && (#[trigger] services@.take(i as int)[j]).id@ == k;
                if j < i - 1 {
                    assert(services@.take(i - 1)[j] == services@.take(i as int)[j]);
                }
            }
            if t@.contains_key(k) && k != services@[i - 1].id@ {
                let j = choose|j: int|
                    0 <= j < i - 1 && (#[trigger] services@.take(i - 1)[j]).id@ == k;
                assert(services@.take(i as int)[j] == services@.take(i - 1)[j]);
            }
            if k == services@[i - 1].id@ {
                assert(services@.take(i as int)[i - 1] == services@[i - 1]);
            }
        }
    }
    assert(services@.take(services.len() as int) =~= services@);
    *states = t;
}

/// `state` with its lifecycle replaced, or a bare state if there is none.
pub open spec fn with_lifecycle(state: Option<RuntimeServiceState>, lifecycle: ServiceLifecycle) -> RuntimeServiceState {
    match state {
        Some(s) => RuntimeServiceState { lifecycle, ..s },
        None => bare_state(lifecycle),
    }
}

/// Sets the lifecycle of `id`, keeping the rest of its state.
pub fn set_lifecycle(states: &mut Table<RuntimeServiceState>, id: &str, lifecycle: ServiceLifecycle)
    requires
        old(states).wf(),
    ensures
        final(states).wf(),
        final(states)@ == old(states)@.insert(
            id@,
            with_lifecycle(old(states)@.get(id@), lifecycle),
        ),
{
    let value = match states.get(id) {
        Some(s) => {
            let mut v = s.duplicate();
            v.lifecycle = lifecycle;
            v
        },
        None => RuntimeServiceState::new(lifecycle),
    };
    states.insert(String::from_str(id), value);
}

/// Records that an operation on `id` failed with `message`: the service is
/// failed, with detail `error`.
pub fn record_error(states: &mut Table<RuntimeServiceState>, id: &str, message: String)
    requires
        old(states).wf(),
    ensures
        final(states).wf(),
        final(states)@.dom() == old(states)@.dom().insert(id@),
        forall|k: Seq<char>| k != id@ && #[trigger] old(states)@.contains_key(k) ==> final(states)@[k] == old(states)@[k],
        final(states)@[id@].lifecycle == ServiceLifecycle::Failed,
        final(states)@[id@].detail matches Some(d) && d@ == "error"@,
        final(states)@[id@].pid is None,
        final(states)@[id@].last_error == Some(message),
{
    let state = RuntimeServiceState {
        lifecycle: ServiceLifecycle::Failed,
        detail: Some(String::from_str("error")),
        pid: None,
        last_error: Some(message),
    };
    states.insert(String::from_str(id), state);
}

/// The state of `id`, or `Unknown` if there is none.
pub fn state_or_unknown(states: &Table<RuntimeServiceState>, id: &str) -> (r: RuntimeServiceState)
    requires
        states.wf(),
    ensures
        r == match states@.get(id@) {
            Some(s) => s,
            None => bare_state(ServiceLifecycle::Unknown),
        },
{
    match states.get(id) {
        Some(s) => s.duplicate(),
        None => RuntimeServiceState::new(ServiceLifecycle::Unknown),
    }
}

/// Records what querying a Windows service found: a lifecycle, which
/// replaces the service's state, or an error `message`, which is reported as
/// a failed state and not recorded.
pub fn record_windows_query(
    states: &mut Table<RuntimeServiceState>,
    id: &str,
    query: Result<ServiceLifecycle, String>,
) -> (r: RuntimeServiceState)
    requires
        old(states).wf(),
    ensures
        final(states).wf(),
        match query {
            Ok(l) => r == bare_state(l) && final(states)@ == old(states)@.insert(id@, bare_state(l)),
            Err(m) => final(states)@ == old(states)@ && r.lifecycle == ServiceLifecycle::Failed
                && (r.detail matches Some(d) && d@ == "error"@) && r.pid is None && r.last_error
                == Some(m),
        },
{
    match query {
        Ok(l) => {
            states.insert(String::from_str(id), RuntimeServiceState::new(l));
            RuntimeServiceState::new(l)
        },
        Err(m) => RuntimeServiceState {
            lifecycle: ServiceLifecycle::Failed,
            detail: Some(String::from_str("error")),
            pid: None,
            last_error: Some(m),
        },
    }
}


// ---------------------------------------------------------------------------
// Decisions of the registry's operations
// ---------------------------------------------------------------------------

/// Why an operation on a service is refused.
#[derive(Debug, Clone, PartialEq)]
pub enum ServiceError {
    ServiceNotFound { id: String },
    ActionNotFound { action_id: String },
    ActionNotAvailable { action_id: String, lifecycle: ServiceLifecycle },
    StdinActionWithoutInput,
    NotReactNative { id: String },
    ReactNativeCommandNotAvailable { lifecycle: ServiceLifecycle },
    WindowsServiceNameMissing,
}

/// What running an action comes down to.
#[derive(Debug, Clone, PartialEq)]
pub enum ActionPlan {
    /// Write `input` to the service's stdin.
    WriteStdin { input: String },
    /// Restart the service, with `command` and `args` in place of its own
    /// command line when the action names a command.
    Restart { command: Option<String>, args: Vec<String> },
}

/// Action `k` is the first of `actions` with id `id`.
pub open spec fn first_action(actions: Seq<ActionConfig>, id: Seq<char>, k: int) -> bool {
    0 <= k < actions.len() && actions[k].id@ == id && forall|j: int|
        0 <= j < k ==> (#[trigger] actions[j]).id@ != id
}

/// The action of `service` with id `id`, if any.
pub open spec fn action_named(service: ServiceConfig, id: Seq<char>) -> Option<ActionConfig> {
    if exists|k: int| first_action(service.actions@, id, k) {
        Some(service.actions@[choose|k: int| first_action(service.actions@, id, k)])
    } else {
        None
    }
}

proof fn lemma_first_action_unique(actions: Seq<ActionConfig>, id: Seq<char>, a: int, b: int)
    requires
        first_action(actions, id, a),
        first_action(actions, id, b),
    ensures
        a == b,
{
    if a < b {
        assert(actions[a].id@ != id);
    } else if b < a {
        assert(actions[b].id@ != id);
    }
}

fn find_action<'a>(service: &'a ServiceConfig, id: &str) -> (r: Option<&'a ActionConfig>)
    ensures
        match r {
            Some(a) => action_named(*service, id@) == Some(*a),
            None => action_named(*service, id@) is None,
        },
{
    let mut k: usize = 0;
    while k < service.actions.len()
        invariant
            k <= service.actions.len(),
            forall|j: int| 0 <= j < k ==> (#[trigger] service.actions@[j]).id@ != id@,
        decreases service.actions.len() - k,
    {
        if text_eq(service.actions[k].id.as_str(), id) {
            assert(first_action(service.actions@, id@, k as int));
            proof {
                let c = choose|c: int| first_action(service.actions@, id@, c);
                lemma_first_action_unique(service.actions@, id@, c, k as int);
            }
            return Some(&service.actions[k]);
        }
        k = k + 1;
    }
    None
}

/// Checks that `service` has an action `action_id`, before anything else is
/// looked up for it.
pub fn require_action(service: &ServiceConfig, action_id: &str) -> (r: Result<(), ServiceError>)
    ensures
        action_named(*service, action_id@) is Some ==> r is Ok,
        action_named(*service, action_id@) is None ==> (r matches Err(
            ServiceError::ActionNotFound { action_id: a },
        ) && a@ == action_id@),
{
    match find_action(service, action_id) {
        Some(_) => Ok(()),
        None => Err(ServiceError::ActionNotFound { action_id: String::from_str(action_id) }),
    }
}

/// Decides what running the action `action_id` of `service` does while the
/// service is in `lifecycle`: the action must exist and be offered in that
/// lifecycle; a stdin action writes its input, a restart action restarts.
pub fn plan_action(service: &ServiceConfig, action_id: &str, lifecycle: ServiceLifecycle) -> (r:
    Result<ActionPlan, ServiceError>)
    ensures
        match action_named(*service, action_id@) {
            None => r matches Err(ServiceError::ActionNotFound { action_id: a }) && a@ == action_id@,
            Some(action) => if !available(action.when, lifecycle) {
                r matches Err(ServiceError::ActionNotAvailable { action_id: a, lifecycle: l })
                    && a@ == action_id@ && l == lifecycle
            } else {
                match action.kind {
                    ActionKind::Stdin => match action.input {
                        Some(i) => r matches Ok(ActionPlan::WriteStdin { input }) && input == i,
                        None => r matches Err(ServiceError::StdinActionWithoutInput),
                    },
                    ActionKind::Restart => r matches Ok(ActionPlan::Restart { command, args })
                        && command == action.command && args@ == action.args@,
                }
            },
        },
{
    let action = match find_action(service, action_id) {
        Some(a) => a,
        None => {
            return Err(ServiceError::ActionNotFound { action_id: String::from_str(action_id) });
        },
    };
    if !action_is_available(action.when, lifecycle) {
        return Err(
            ServiceError::ActionNotAvailable { action_id: String::from_str(action_id), lifecycle },
        );
    }
    match action.kind {
        ActionKind::Stdin => match &action.input {
            Some(i) => Ok(ActionPlan::WriteStdin { input: i.clone() }),
            None => Err(ServiceError::StdinActionWithoutInput),
        },
        ActionKind::Restart => {
            let command = match &action.command {
                Some(c) => Some(c.clone()),
                None => None,
            };
            let mut args: Vec<String> = Vec::new();
            let mut k: usize = 0;
            while k < action.args.len()
                invariant
                    k <= action.args.len(),
                    args@ == action.args@.take(k as int),
                decreases action.args.len() - k,
            {
                args.push(action.args[k].clone());
                k = k + 1;
                assert(args@ =~= action.args@.take(k as int));
            }
            assert(action.args@.take(action.args.len() as int) =~= action.args@);
            Ok(ActionPlan::Restart { command, args })
        },
    }
}

/// Checks that a react-native command may be sent to `service` in
/// `lifecycle`: it must be a react-native service, and running.
pub fn require_react_native_running(service: &ServiceConfig, lifecycle: ServiceLifecycle) -> (r:
    Result<(), ServiceError>)
    ensures
        service.service_type != ServiceType::ReactNative ==> (r matches Err(
            ServiceError::NotReactNative { id },
        ) && id == service.id),
        service.service_type == ServiceType::ReactNative && lifecycle != ServiceLifecycle::Running
            ==> r == Err::<(), ServiceError>(
            ServiceError::ReactNativeCommandNotAvailable { lifecycle },
        ),
        service.service_type == ServiceType::ReactNative && lifecycle == ServiceLifecycle::Running
            ==> r is Ok,
{
    if service.service_type != ServiceType::ReactNative {
        return Err(ServiceError::NotReactNative { id: service.id.clone() });
    }
    if lifecycle != ServiceLifecycle::Running {
        return Err(ServiceError::ReactNativeCommandNotAvailable { lifecycle });
    }
    Ok(())
}

/// The `sc.exe` name of a Windows service.
pub fn windows_service_name(service: &ServiceConfig) -> (r: Result<String, ServiceError>)
    ensures
        match service.windows_service {
            Some(o) => r == Ok::<String, ServiceError>(o.service_name),
            None => r == Err::<String, ServiceError>(ServiceError::WindowsServiceNameMissing),
        },
{
    match &service.windows_service {
        Some(o) => Ok(o.service_name.clone()),
        None => Err(ServiceError::WindowsServiceNameMissing),
    }
}

/// Starting or stopping a service.
#[derive(Debug, Clone, Copy, PartialEq, Eq, Structural)]
pub enum Switch {
    Start,
    Stop,
}

/// How a service is started or stopped.
#[derive(Debug, Clone, PartialEq)]
pub enum SwitchPlan {
    /// By the process manager.
    Process,
    /// Through `sc.exe` on the Windows service `name`: the lifecycle is
    /// `during` while the command runs and `after` once it has succeeded.
    WindowsService { name: String, during: ServiceLifecycle, after: ServiceLifecycle },
}

/// Decides how `service` is started or stopped: a process or react-native
/// service by the process manager; a Windows service through `sc.exe`, as
/// starting then running, or stopping then stopped, and only if it names its
/// Windows service.
pub fn plan_switch(service: &ServiceConfig, switch: Switch) -> (r: Result<SwitchPlan, ServiceError>)
    ensures
        match service.service_type {
            ServiceType::WindowsService => match service.windows_service {
                None => r == Err::<SwitchPlan, ServiceError>(
                    ServiceError::WindowsServiceNameMissing,
                ),
                Some(o) => r == Ok::<SwitchPlan, ServiceError>(
                    SwitchPlan::WindowsService {
                        name: o.service_name,
                        during: if switch == Switch::Start {
                            ServiceLifecycle::Starting
                        } else {
                            ServiceLifecycle::Stopping
                        },
                        after: if switch == Switch::Start {
                            ServiceLifecycle::Running
                        } else {
                            ServiceLifecycle::Stopped
                        },
                    },
                ),
            },
            _ => r == Ok::<SwitchPlan, ServiceError>(SwitchPlan::Process),
        },
{
    if service.service_type != ServiceType::WindowsService {
        return Ok(SwitchPlan::Process);
    }
    let name = windows_service_name(service)?;
    match switch {
        Switch::Start => Ok(
            SwitchPlan::WindowsService {
                name,
                during: ServiceLifecycle::Starting,
                after: ServiceLifecycle::Running,
            },
        ),
        Switch::Stop => Ok(
            SwitchPlan::WindowsService {
                name,
                during: ServiceLifecycle::Stopping,
                after: ServiceLifecycle::Stopped,
            },
        ),
    }
}

/// The service with id `id`, or the error that it does not exist.
pub fn require_service(services: &Vec<ServiceConfig>, id: &str) -> (r: Result<usize, ServiceError>)
    ensures
        match r {
            Ok(i) => i < services@.len() && services@[i as int].id@ == id@ && forall|j: int|
                0 <= j < i ==> (#[trigger] services@[j]).id@ != id@,
            Err(e) => !configured(services@, id@) && (e matches ServiceError::ServiceNotFound { id: x }
                && x@ == id@),
        },
{
    match find_service(services, id) {
        Some(i) => Ok(i),
        None => Err(ServiceError::ServiceNotFound { id: String::from_str(id) }),
    }
}

/// The ids of the first `n` services that start with DevDock, in order.
pub open spec fn launch_ids(services: Seq<ServiceConfig>, n: int) -> Seq<Seq<char>>
    decreases n,
{
    if n <= 0 {
        seq![]
    } else {
        launch_ids(services, n - 1) + if services[n - 1].process.start_on_launch {
            seq![services[n - 1].id@]
        } else {
            seq![]
        }
    }
}

/// The ids of the services that start with DevDock, in configuration order.
pub fn launch_services(services: &Vec<ServiceConfig>) -> (r: Vec<String>)
    ensures
        r@.map_values(|s: String| s@) == launch_ids(services@, services@.len() as int),
{
    let mut r: Vec<String> = Vec::new();
    let mut i: usize = 0;
    assert(r@.map_values(|s: String| s@) =~= launch_ids(services@, 0));
    while i < services.len()
        invariant
            i <= services.len(),
            r@.map_values(|s: String| s@) == launch_ids(services@, i as int),
        decreases services.len() - i,
    {
        if services[i].process.start_on_launch {
            r.push(services[i].id.clone());
        }
        i = i + 1;
        assert(r@.map_values(|s: String| s@) =~= launch_ids(services@, i as int));
    }
    r
}


// ---------------------------------------------------------------------------
// Messages
// ---------------------------------------------------------------------------

/// The name of a lifecycle as its `Debug` form writes it.
pub open spec fn lifecycle_name_text(lifecycle: ServiceLifecycle) -> Seq<char> {
    match lifecycle {
        ServiceLifecycle::Stopped => "Stopped"@,
        ServiceLifecycle::Starting => "Starting"@,
        ServiceLifecycle::Running => "Running"@,
        ServiceLifecycle::Stopping => "Stopping"@,
        ServiceLifecycle::Restarting => "Restarting"@,
        ServiceLifecycle::Failed => "Failed"@,
        ServiceLifecycle::Unknown => "Unknown"@,
    }
}

/// The name of a lifecycle as its `Debug` form writes it.
pub fn lifecycle_name(lifecycle: ServiceLifecycle) -> (r: &'static str)
    ensures
        r@ == lifecycle_name_text(lifecycle),
{
    match lifecycle {
        ServiceLifecycle::Stopped => "Stopped",
        ServiceLifecycle::Starting => "Starting",
        ServiceLifecycle::Running => "Running",
        ServiceLifecycle::Stopping => "Stopping",
        ServiceLifecycle::Restarting => "Restarting",
        ServiceLifecycle::Failed => "Failed",
        ServiceLifecycle::Unknown => "Unknown",
    }
}

/// The text of a refused operation.
pub open spec fn service_error_text(e: ServiceError) -> Seq<char> {
    match e {
        ServiceError::ServiceNotFound { id } => "service '"@ + id@ + "' does not exist"@,
        ServiceError::ActionNotFound { action_id } => "action '"@ + action_id@
            + "' does not exist"@,
        ServiceError::ActionNotAvailable { action_id, lifecycle } => "action '"@ + action_id@
            + "' is not available while service is "@ + lifecycle_name_text(lifecycle),
        ServiceError::StdinActionWithoutInput => "stdin action has no input"@,
        ServiceError::NotReactNative { id } => "service '"@ + id@
            + "' is not a react-native service"@,
        ServiceError::ReactNativeCommandNotAvailable { lifecycle } =>
            "react-native command is not available while service is "@ + lifecycle_name_text(
            lifecycle,
        ),
        ServiceError::WindowsServiceNameMissing => "windowsService.serviceName is missing"@,
    }
}

impl ServiceError {
    /// The message shown for this error.
    pub fn message(&self) -> (r: String)
        ensures
            r@ == service_error_text(*self),
    {
        match self {
            ServiceError::ServiceNotFound { id } => concat3(
                "service '",
                id.as_str(),
                "' does not exist",
            ),
            ServiceError::ActionNotFound { action_id } => concat3(
                "action '",
                action_id.as_str(),
                "' does not exist",
            ),
            ServiceError::ActionNotAvailable { action_id, lifecycle } => {
                let mut r = concat3(
                    "action '",
                    action_id.as_str(),
                    "' is not available while service is ",
                );
                r.append(lifecycle_name(*lifecycle));
                r
            },
            ServiceError::StdinActionWithoutInput => String::from_str("stdin action has no input"),
            ServiceError::NotReactNative { id } => concat3(
                "service '",
                id.as_str(),
                "' is not a react-native service",
            ),
            ServiceError::ReactNativeCommandNotAvailable { lifecycle } => concat(
                "react-native command is not available while service is ",
                lifecycle_name(*lifecycle),
            ),
            ServiceError::WindowsServiceNameMissing => String::from_str(
                "windowsService.serviceName is missing",
            ),
        }
    }
}

} // verus!
