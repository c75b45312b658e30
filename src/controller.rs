use vstd::prelude::*;
use crate::finalizer::FinalizerEvent;
use crate::resource::{desired_deployment, desired_service, DeploymentResource, ServiceResource};

verus! {

/// Seconds before an `Echo` object is looked at again after a successful
/// apply, and before any object is retried after a failure.
pub const ECHO_REQUEUE_SECS: u64 = 300;

/// Seconds before an `HttpEcho` object is looked at again after a successful
/// apply.
pub const HTTP_ECHO_REQUEUE_SECS: u64 = 10;

/// One call into the resource store, for the object being reconciled and its
/// children, which share its name and namespace.
#[derive(PartialEq, Eq, Structural, Clone, Copy, Debug)]
pub enum Command {
    /// Merge the lifecycle marker into the object's finalizers.
    AddMarker,
    /// Look the deployment up.
    FetchDeployment,
    /// Create the session's deployment.
    CreateDeployment,
    /// Replace the deployment in full by the session's deployment.
    ReplaceDeployment,
    /// Delete the deployment.
    DeleteDeployment,
    /// Look the service up.
    FetchService,
    /// Create the session's service.
    CreateService,
    /// Delete the service.
    DeleteService,
    /// Take the lifecycle marker off the object.
    RemoveMarker,
}

impl Command {
    pub open spec fn touches_marker(self) -> bool {
        self == Command::AddMarker || self == Command::RemoveMarker
    }

    pub open spec fn is_fetch(self) -> bool {
        self == Command::FetchDeployment || self == Command::FetchService
    }
}

/// What the scheduler does with a key once a reconciliation has ended.
#[derive(PartialEq, Eq, Structural, Clone, Copy, Debug)]
pub enum Action {
    /// Look at the key again after this many seconds.
    Requeue { secs: u64 },
    /// Wait for the next change notification.
    AwaitChange,
}

/// Where a session stands: a store call to make, or the end.
#[derive(PartialEq, Eq, Structural, Clone, Copy, Debug)]
pub enum Step {
    Issue(Command),
    Finish(Action),
}

/// The step after `cmd` has succeeded; `found` tells, after a fetch, whether
/// the object was there. A fetch-then-decide protocol: a present deployment is
/// replaced, an absent one created; a present service is left alone; on
/// cleanup each child is deleted only if present, the deployment first, and
/// the marker goes last.
pub open spec fn next_step(event: FinalizerEvent, cmd: Command, found: bool, requeue_secs: u64) -> Step {
    match event {
        FinalizerEvent::Apply => match cmd {
            Command::AddMarker => Step::Issue(Command::FetchDeployment),
            Command::FetchDeployment => if found {
                Step::Issue(Command::ReplaceDeployment)
            } else {
                Step::Issue(Command::CreateDeployment)
            },
            Command::FetchService => if found {
                Step::Finish(Action::Requeue { secs: requeue_secs })
            } else {
                Step::Issue(Command::CreateService)
            },
            Command::CreateService => Step::Finish(Action::Requeue { secs: requeue_secs }),
            _ => Step::Issue(Command::FetchService),
        },
        FinalizerEvent::Cleanup => match cmd {
            Command::FetchDeployment => if found {
                Step::Issue(Command::DeleteDeployment)
            } else {
                Step::Issue(Command::FetchService)
            },
            Command::FetchService => if found {
                Step::Issue(Command::DeleteService)
            } else {
                Step::Issue(Command::RemoveMarker)
            },
            Command::RemoveMarker => Step::Finish(Action::AwaitChange),
            Command::DeleteService => Step::Issue(Command::RemoveMarker),
            _ => Step::Issue(Command::FetchService),
        },
    }
}

/// Whether `cmd` belongs to the protocol of `event`.
pub open spec fn in_flow(event: FinalizerEvent, cmd: Command) -> bool {
    match event {
        FinalizerEvent::Apply => match cmd {
            Command::AddMarker | Command::FetchDeployment | Command::CreateDeployment
            | Command::ReplaceDeployment | Command::FetchService | Command::CreateService => true,
            _ => false,
        },
        FinalizerEvent::Cleanup => match cmd {
            Command::FetchDeployment | Command::DeleteDeployment | Command::FetchService
            | Command::DeleteService | Command::RemoveMarker => true,
            _ => false,
        },
    }
}

/// How many store calls at most remain from a step.
pub open spec fn rank(step: Step) -> nat {
    match step {
        Step::Issue(cmd) => match cmd {
            Command::AddMarker => 6,
            Command::FetchDeployment => 5,
            Command::CreateDeployment | Command::ReplaceDeployment | Command::DeleteDeployment => 4,
            Command::FetchService => 3,
            Command::CreateService | Command::DeleteService => 2,
            Command::RemoveMarker => 1,
        },
        Step::Finish(_) => 0,
    }
}

/// One reconciliation of one object: which event it serves, the step it is
/// at, and the children that an apply converges to.
#[derive(Debug)]
pub struct Session {
    pub event: FinalizerEvent,
    pub next: Step,
    pub deployment: DeploymentResource,
    pub service: ServiceResource,
    pub requeue_secs: u64,
}

impl Session {
    /// A session is well formed when its next call belongs to its event.
    pub open spec fn wf(&self) -> bool {
        match self.next {
            Step::Issue(cmd) => in_flow(self.event, cmd),
            Step::Finish(_) => true,
        }
    }

    /// The session that converges the children of `name`/`namespace` to the
    /// spec: marker first, then the deployment, then the service.
    pub fn apply(
        image: &str,
        port: i32,
        name: &str,
        replicas: i32,
        text: &str,
        namespace: &str,
        requeue_secs: u64,
    ) -> (r: Session)
        ensures
            r.wf(),
            r.event == FinalizerEvent::Apply,
            r.next == Step::Issue(Command::AddMarker),
            r.deployment@ == desired_deployment(image@, port, name@, replicas, text@, namespace@),
            r.service@ == desired_service(name@, port, namespace@),
            r.requeue_secs == requeue_secs,
    {
        Session {
            event: FinalizerEvent::Apply,
            next: Step::Issue(Command::AddMarker),
            deployment: DeploymentResource::derive(image, port, name, replicas, text, namespace),
            service: ServiceResource::derive(name, port, namespace),
            requeue_secs,
        }
    }

    /// The session that tears down the children of `name`/`namespace`, then
    /// releases the object. Its children serve only to name what is deleted.
    pub fn cleanup(name: &str, namespace: &str) -> (r: Session)
        ensures
            r.wf(),
            r.event == FinalizerEvent::Cleanup,
            r.next == Step::Issue(Command::FetchDeployment),
            r.deployment@.name == name@,
            r.deployment@.namespace == namespace@,
            r.service@.name == name@,
            r.service@.namespace == namespace@,
    {
        Session {
            event: FinalizerEvent::Cleanup,
            next: Step::Issue(Command::FetchDeployment),
            deployment: DeploymentResource::derive("", 0, name, 0, "", namespace),
            service: ServiceResource::derive(name, 0, namespace),
            requeue_secs: 0,
        }
    }

    /// Moves past the call the session has issued, which succeeded; `found`
    /// is what a fetch saw and is ignored after any other call.
    pub fn advance(&mut self, found: bool)
        requires
            old(self).wf(),
            old(self).next is Issue,
        ensures
            final(self).wf(),
            final(self).next == next_step(
                old(self).event,
                old(self).next->Issue_0,
                found,
                old(self).requeue_secs,
            ),
            rank(final(self).next) < rank(old(self).next),
            final(self).event == old(self).event,
            final(self).deployment == old(self).deployment,
            final(self).service == old(self).service,
            final(self).requeue_secs == old(self).requeue_secs,
    {
        let cmd = match self.next {
            Step::Issue(cmd) => cmd,
            Step::Finish(_) => { return; },
        };
        let secs = self.requeue_secs;
        self.next = match self.event {
            FinalizerEvent::Apply => match cmd {
                Command::AddMarker => Step::Issue(Command::FetchDeployment),
                Command::FetchDeployment => if found {
                    Step::Issue(Command::ReplaceDeployment)
                } else {
                    Step::Issue(Command::CreateDeployment)
                },
                Command::FetchService => if found {
                    Step::Finish(Action::Requeue { secs })
                } else {
                    Step::Issue(Command::CreateService)
                },
                Command::CreateService => Step::Finish(Action::Requeue { secs }),
                _ => Step::Issue(Command::FetchService),
            },
            FinalizerEvent::Cleanup => match cmd {
                Command::FetchDeployment => if found {
                    Step::Issue(Command::DeleteDeployment)
                } else {
                    Step::Issue(Command::FetchService)
                },
                Command::FetchService => if found {
                    Step::Issue(Command::DeleteService)
                } else {
                    Step::Issue(Command::RemoveMarker)
                },
                Command::RemoveMarker => Step::Finish(Action::AwaitChange),
                Command::DeleteService => Step::Issue(Command::RemoveMarker),
                _ => Step::Issue(Command::FetchService),
            },
        };
    }
}

/// The action after a failed reconciliation: retry after a fixed backoff,
/// whatever the error.
pub fn on_error() -> (r: Action)
    ensures
        r == (Action::Requeue { secs: ECHO_REQUEUE_SECS }),
{
    Action::Requeue { secs: ECHO_REQUEUE_SECS }
}

/// The scheduler's next action for a key once a reconciliation has ended:
/// what the session decided on success, the fixed backoff on any failure.
pub fn next_action<E>(result: &Result<Action, E>) -> (r: Action)
    ensures
        r == match result {
            Ok(a) => *a,
            Err(_) => Action::Requeue { secs: ECHO_REQUEUE_SECS },
        },
{
    match result {
        Ok(a) => *a,
        Err(_) => on_error(),
    }
}

} // verus!
