use vstd::prelude::*;
use crate::controller::{rank, ECHO_REQUEUE_SECS, Action, Command, Session, Step};
use crate::crd::Echo;
use crate::error::Error;
use crate::finalizer::{self, classify_spec, echo_finalizer, finalizer_names, FinalizerEvent};
use crate::resource::{desired_deployment, desired_service, DeploymentResource, DeploymentView, ServiceResource, ServiceView};

verus! {

/// What the store holds for one key: the owner's finalizer names and the
/// two children.
pub struct KeyState {
    pub finalizers: Set<Seq<char>>,
    pub deployment: Option<DeploymentView>,
    pub service: Option<ServiceView>,
}

/// A child exists only while the owner carries the marker.
pub open spec fn guarded(v: KeyState) -> bool {
    (v.deployment is Some || v.service is Some) ==> v.finalizers.contains(echo_finalizer())
}

/// `v` with the marker added.
pub open spec fn marked(v: KeyState) -> KeyState {
    KeyState { finalizers: v.finalizers.insert(echo_finalizer()), ..v }
}

/// The store after a successful apply from `v`: marker present, deployment
/// replaced by `d`, service kept if there was one and `s` otherwise.
pub open spec fn applied(v: KeyState, d: DeploymentView, s: ServiceView) -> KeyState {
    KeyState {
        finalizers: v.finalizers.insert(echo_finalizer()),
        deployment: Some(d),
        service: if v.service is Some { v.service } else { Some(s) },
    }
}

/// The store after a successful cleanup from `v`: both children gone, then
/// the marker.
pub open spec fn cleaned(v: KeyState) -> KeyState {
    KeyState { finalizers: v.finalizers.remove(echo_finalizer()), deployment: None, service: None }
}

/// The store after a successful session of `event` from `v`.
pub open spec fn outcome(event: FinalizerEvent, v: KeyState, d: DeploymentView, s: ServiceView) -> KeyState {
    match event {
        FinalizerEvent::Apply => applied(v, d, s),
        FinalizerEvent::Cleanup => cleaned(v),
    }
}

/// The store when a session of `event`, started on `o`, has reached `step`.
pub open spec fn stage_state(
    event: FinalizerEvent,
    step: Step,
    o: KeyState,
    d: DeploymentView,
    s: ServiceView,
) -> KeyState {
    match event {
        FinalizerEvent::Apply => match step {
            Step::Issue(Command::AddMarker) => o,
            Step::Issue(Command::FetchDeployment) | Step::Issue(Command::CreateDeployment)
            | Step::Issue(Command::ReplaceDeployment) => marked(o),
            Step::Issue(_) => KeyState { deployment: Some(d), ..marked(o) },
            Step::Finish(_) => applied(o, d, s),
        },
        FinalizerEvent::Cleanup => match step {
            Step::Issue(Command::FetchDeployment) | Step::Issue(Command::DeleteDeployment) => o,
            Step::Issue(Command::FetchService) | Step::Issue(Command::DeleteService) => KeyState {
                deployment: None,
                ..o
            },
            Step::Issue(_) => KeyState { deployment: None, service: None, ..o },
            Step::Finish(_) => cleaned(o),
        },
    }
}

/// What a step knows of the store from the fetch that led to it.
pub open spec fn consistent(step: Step, v: KeyState) -> bool {
    match step {
        Step::Issue(Command::CreateDeployment) => v.deployment is None,
        Step::Issue(Command::ReplaceDeployment) | Step::Issue(Command::DeleteDeployment) => v.deployment is Some,
        Step::Issue(Command::CreateService) => v.service is None,
        Step::Issue(Command::DeleteService) => v.service is Some,
        _ => true,
    }
}

/// Whether the store can carry `cmd` out on `v`: no creation over an
/// existing child, no replacement or deletion of a missing one.
pub open spec fn admits(v: KeyState, cmd: Command) -> bool {
    match cmd {
        Command::CreateDeployment => v.deployment is None,
        Command::ReplaceDeployment | Command::DeleteDeployment => v.deployment is Some,
        Command::CreateService => v.service is None,
        Command::DeleteService => v.service is Some,
        _ => true,
    }
}

/// The store after `cmd` has been carried out on `v`, for the children `d`, `s`.
pub open spec fn effect(v: KeyState, cmd: Command, d: DeploymentView, s: ServiceView) -> KeyState {
    match cmd {
        Command::AddMarker => marked(v),
        Command::RemoveMarker => KeyState { finalizers: v.finalizers.remove(echo_finalizer()), ..v },
        Command::CreateDeployment | Command::ReplaceDeployment => KeyState { deployment: Some(d), ..v },
        Command::DeleteDeployment => KeyState { deployment: None, ..v },
        Command::CreateService => KeyState { service: Some(s), ..v },
        Command::DeleteService => KeyState { service: None, ..v },
        _ => v,
    }
}

/// What a fetch of `cmd` sees on `v`.
pub open spec fn seen(v: KeyState, cmd: Command) -> bool {
    match cmd {
        Command::FetchDeployment => v.deployment is Some,
        Command::FetchService => v.service is Some,
        _ => true,
    }
}

/// An in-memory store for one key: the owning object and its two children.
/// `fail_on` names a call that the store refuses, to exercise failures.
#[derive(Debug)]
pub struct MemoryStore {
    pub object: Echo,
    pub deployment: Option<DeploymentResource>,
    pub service: Option<ServiceResource>,
    pub fail_on: Option<Command>,
}

impl View for MemoryStore {
    type V = KeyState;

    open spec fn view(&self) -> KeyState {
        KeyState {
            finalizers: finalizer_names(self.object.finalizers@),
            deployment: match self.deployment {
                Some(d) => Some(d@),
                None => None,
            },
            service: match self.service {
                Some(s) => Some(s@),
                None => None,
            },
        }
    }
}

impl MemoryStore {
    /// A store that holds `object` and no children, and refuses nothing.
    pub fn new(object: Echo) -> (r: MemoryStore)
        ensures
            r.object == object,
            r.deployment is None,
            r.service is None,
            r.fail_on is None,
    {
        MemoryStore { object, deployment: None, service: None, fail_on: None }
    }

    /// Carries `cmd` out for `session`; on success returns what a fetch saw.
    pub fn perform(&mut self, cmd: Command, session: &Session) -> (r: Result<bool, Error>)
        ensures
            final(self).fail_on == old(self).fail_on,
            final(self).object.deletion_requested == old(self).object.deletion_requested,
            (old(self).fail_on != Some(cmd) && admits(old(self)@, cmd)) <==> r is Ok,
            r matches Ok(found) ==> final(self)@ == effect(
                old(self)@,
                cmd,
                session.deployment@,
                session.service@,
            ) && found == seen(old(self)@, cmd),
            r matches Err(e) ==> final(self)@ == old(self)@ && e.failed_command() == Some(cmd),
    {
        let refused = match self.fail_on {
            Some(c) => c == cmd,
            None => false,
        };
        if refused {
            return Err(Error::from_store(cmd, String::from_str("refused by the store")));
        }
        match cmd {
            Command::AddMarker => {
                finalizer::add(&mut self.object.finalizers);
                Ok(true)
            },
            Command::RemoveMarker => {
                finalizer::clean(&mut self.object.finalizers);
                Ok(true)
            },
            Command::FetchDeployment => Ok(self.deployment.is_some()),
            Command::FetchService => Ok(self.service.is_some()),
            Command::CreateDeployment => {
                if self.deployment.is_some() {
                    return Err(Error::from_store(cmd, String::from_str("already exists")));
                }
                self.deployment = Some(session.deployment.duplicate());
                Ok(true)
            },
            Command::ReplaceDeployment => {
                if self.deployment.is_none() {
                    return Err(Error::from_store(cmd, String::from_str("not found")));
                }
                self.deployment = Some(session.deployment.duplicate());
                Ok(true)
            },
            Command::DeleteDeployment => {
                if self.deployment.is_none() {
                    return Err(Error::from_store(cmd, String::from_str("not found")));
                }
                self.deployment = None;
                Ok(true)
            },
            Command::CreateService => {
                if self.service.is_some() {
                    return Err(Error::from_store(cmd, String::from_str("already exists")));
                }
                self.service = Some(session.service.duplicate());
                Ok(true)
            },
            Command::DeleteService => {
                if self.service.is_none() {
                    return Err(Error::from_store(cmd, String::from_str("not found")));
                }
                self.service = None;
                Ok(true)
            },
        }
    }

    /// Runs `session` to its end against this store, one call after the
    /// other, and stops at the first call that fails.
    pub fn run(&mut self, session: &mut Session) -> (r: Result<Action, Error>)
        requires
            old(session).wf(),
            old(session).next == (if old(session).event == FinalizerEvent::Apply {
                Step::Issue(Command::AddMarker)
            } else {
                Step::Issue(Command::FetchDeployment)
            }),
        ensures
            guarded(old(self)@) ==> guarded(final(self)@),
            old(self).fail_on is None ==> r is Ok,
            r matches Ok(a) ==> final(self)@ == outcome(
                old(session).event,
                old(self)@,
                old(session).deployment@,
                old(session).service@,
            ) && a == (if old(session).event == FinalizerEvent::Apply {
                Action::Requeue { secs: old(session).requeue_secs }
            } else {
                Action::AwaitChange
            }),
            r matches Err(e) ==> old(self).fail_on is Some && e.failed_command() == old(self).fail_on,
            final(self).fail_on == old(self).fail_on,
            final(self).object.deletion_requested == old(self).object.deletion_requested,
    {
        let ghost o = self@;
        let ghost d = session.deployment@;
        let ghost s = session.service@;
        let ghost event = session.event;
        loop
            invariant
                session.wf(),
                session.event == event,
                session.deployment@ == d,
                session.service@ == s,
                session.requeue_secs == old(session).requeue_secs,
                self@ == stage_state(event, session.next, o, d, s),
                consistent(session.next, self@),
                session.next matches Step::Finish(a) ==> a == (if event == FinalizerEvent::Apply {
                    Action::Requeue { secs: old(session).requeue_secs }
                } else {
                    Action::AwaitChange
                }),
                self.fail_on == old(self).fail_on,
                self.object.deletion_requested == old(self).object.deletion_requested,
                guarded(o) ==> guarded(self@),
                o == old(self)@,
                d == old(session).deployment@,
                s == old(session).service@,
                event == old(session).event,
            decreases rank(session.next),
        {
            let cmd = match session.next {
                Step::Issue(cmd) => cmd,
                Step::Finish(a) => {
                    return Ok(a);
                },
            };
            match self.perform(cmd, session) {
                Ok(found) => {
                    session.advance(found);
                    assert(self@ =~= stage_state(event, session.next, o, d, s));
                },
                Err(e) => {
                    return Err(e);
                },
            }
        }
    }

    /// Handles one notification for the stored object: classifies it and
    /// runs the session that its event calls for; `None` when the object
    /// needs nothing.
    pub fn reconcile(&mut self, image: &str, port: i32) -> (r: Option<Result<Action, Error>>)
        ensures
            guarded(old(self)@) ==> guarded(final(self)@),
            final(self).fail_on == old(self).fail_on,
            final(self).object.deletion_requested == old(self).object.deletion_requested,
            r is None <==> classify_spec(
                old(self).object.deletion_requested,
                old(self).object.finalizers@,
            ) is None,
            r is None ==> final(self)@ == old(self)@,
            old(self).fail_on is None ==> (r matches Some(res) ==> res is Ok),
            r matches Some(Err(e)) ==> old(self).fail_on is Some && e.failed_command()
                == old(self).fail_on,
            r matches Some(Ok(a)) ==> (if !old(self).object.deletion_requested {
                a == (Action::Requeue { secs: ECHO_REQUEUE_SECS }) && final(self)@ == applied(
                    old(self)@,
                    desired_deployment(
                        image@,
                        port,
                        old(self).object.name@,
                        old(self).object.spec.replicas,
                        old(self).object.spec.text@,
                        old(self).object.namespace@,
                    ),
                    desired_service(old(self).object.name@, port, old(self).object.namespace@),
                )
            } else {
                a == Action::AwaitChange && final(self)@ == cleaned(old(self)@)
            }),
    {
        match self.object.session(image, port) {
            Some(mut session) => Some(self.run(&mut session)),
            None => None,
        }
    }
}

} // verus!
