use vstd::prelude::*;
use crate::controller::{Command, Session, Step, HTTP_ECHO_REQUEUE_SECS};
use crate::finalizer::{classify, classify_spec, FinalizerEvent};
use crate::resource::{desired_deployment, desired_service};

verus! {

/// Desired state of an `HttpEcho` object, as written by its author.
#[derive(Debug, Clone)]
pub struct HttpEchoSpec {
    pub replicas: i32,
    pub text: String,
}

/// an `HttpEcho` object as observed in the store.
#[derive(Debug, Clone)]
pub struct HttpEcho {
    pub name: String,
    pub namespace: String,
    pub spec: HttpEchoSpec,
    pub finalizers: Vec<String>,
    /// The store has recorded the intent to delete the object.
    pub deletion_requested: bool,
}

impl HttpEcho {
    /// The lifecycle event that the object calls for, if any.
    pub fn event(&self) -> (r: Option<FinalizerEvent>)
        ensures
            r == classify_spec(self.deletion_requested, self.finalizers@),
    {
        classify(self.deletion_requested, &self.finalizers)
    }

    /// The apply session: add the marker, create or replace the deployment
    /// with `image` on `port`, create the service if absent, then requeue.
    pub fn reconcile(&self, image: &str, port: i32) -> (r: Session)
        ensures
            r.wf(),
            r.event == FinalizerEvent::Apply,
            r.next == Step::Issue(Command::AddMarker),
            r.deployment@ == desired_deployment(
                image@,
                port,
                self.name@,
                self.spec.replicas,
                self.spec.text@,
                self.namespace@,
            ),
            r.service@ == desired_service(self.name@, port, self.namespace@),
            r.requeue_secs == HTTP_ECHO_REQUEUE_SECS,
    {
        Session::apply(
            image,
            port,
            self.name.as_str(),
            self.spec.replicas,
            self.spec.text.as_str(),
            self.namespace.as_str(),
            HTTP_ECHO_REQUEUE_SECS,
        )
    }

    /// The cleanup session: delete the deployment, then the service, then
    /// remove the marker.
    pub fn cleanup(&self) -> (r: Session)
        ensures
            r.wf(),
            r.event == FinalizerEvent::Cleanup,
            r.next == Step::Issue(Command::FetchDeployment),
    {
        Session::cleanup(self.name.as_str(), self.namespace.as_str())
    }

    /// Classifies the object and opens the session for its event; none once
    /// the object has been fully cleaned up.
    pub fn session(&self, image: &str, port: i32) -> (r: Option<Session>)
        ensures
            r is None <==> classify_spec(self.deletion_requested, self.finalizers@) is None,
            r matches Some(s) ==> s.wf() && Some(s.event) == classify_spec(
                self.deletion_requested,
                self.finalizers@,
            ) && s.next == (if s.event == FinalizerEvent::Apply {
                Step::Issue(Command::AddMarker)
            } else {
                Step::Issue(Command::FetchDeployment)
            }),
            r matches Some(s) ==> (s.event == FinalizerEvent::Apply ==> s.deployment@
                == desired_deployment(
                image@,
                port,
                self.name@,
                self.spec.replicas,
                self.spec.text@,
                self.namespace@,
            ) && s.service@ == desired_service(self.name@, port, self.namespace@)
                && s.requeue_secs == HTTP_ECHO_REQUEUE_SECS),
    {
        match self.event() {
            Some(FinalizerEvent::Apply) => Some(self.reconcile(image, port)),
            Some(FinalizerEvent::Cleanup) => Some(self.cleanup()),
            None => None,
        }
    }
}

} // verus!
