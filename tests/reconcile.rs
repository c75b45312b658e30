use http_echo::controller::{next_action, on_error, Action, Command, Session, Step};
use http_echo::crd::{Echo, EchoSpec};
use http_echo::error::Error;
use http_echo::finalizer::{self, classify, contains_marker, make_echo_finalizer, FinalizerEvent};
use http_echo::http_echo::{HttpEcho, HttpEchoSpec};
use http_echo::resource::{make_text_arg, DeploymentResource, ObjectKey, ServiceResource};
use http_echo::scheduler::WorkQueue;
use http_echo::store::MemoryStore;

const IMAGE: &str = "hashicorp/http-echo";
const PORT: i32 = 5678;

fn echo(name: &str, namespace: &str, replicas: i32, text: &str) -> Echo {
    Echo {
        name: name.to_string(),
        namespace: namespace.to_string(),
        spec: EchoSpec { replicas, text: text.to_string() },
        finalizers: Vec::new(),
        deletion_requested: false,
    }
}

fn marker() -> String {
    "echo.test.com".to_string()
}

#[test]
fn create_scenario() {
    let mut store = MemoryStore::new(echo("e1", "ns1", 2, "hi"));
    let r = store.reconcile(IMAGE, PORT);
    assert_eq!(r, Some(Ok(Action::Requeue { secs: 300 })));
    let d = store.deployment.clone().unwrap();
    assert_eq!(d.name, "e1");
    assert_eq!(d.namespace, "ns1");
    assert_eq!(d.replicas, 2);
    assert_eq!(d.image, IMAGE);
    assert_eq!(d.port, 5678);
    assert_eq!(d.text_arg, "--text=\"hi\"");
    assert_eq!(d.label_key, "test.com/app");
    assert_eq!(d.label_value, "e1");
    let s = store.service.clone().unwrap();
    assert_eq!(s.name, "e1");
    assert_eq!(s.namespace, "ns1");
    assert_eq!(s.service_type, "NodePort");
    assert_eq!(s.port, 5678);
    assert_eq!(s.target_port, 5678);
    assert_eq!(s.selector_key, "test.com/app");
    assert_eq!(s.selector_value, "e1");
    assert_eq!(store.object.finalizers, vec![marker()]);
}

#[test]
fn update_scenario() {
    let mut store = MemoryStore::new(echo("e1", "ns1", 2, "hi"));
    store.reconcile(IMAGE, PORT);
    let service_before = store.service.clone();
    store.object.spec.replicas = 5;
    let r = store.reconcile(IMAGE, PORT);
    assert_eq!(r, Some(Ok(Action::Requeue { secs: 300 })));
    assert_eq!(store.deployment.as_ref().unwrap().replicas, 5);
    assert_eq!(store.service, service_before);
}

#[test]
fn service_is_never_replaced() {
    let mut store = MemoryStore::new(echo("e1", "ns1", 2, "hi"));
    store.reconcile(IMAGE, PORT);
    store.reconcile(IMAGE, 8080);
    assert_eq!(store.deployment.as_ref().unwrap().port, 8080);
    assert_eq!(store.service.as_ref().unwrap().port, 5678);
}

#[test]
fn delete_scenario() {
    let mut store = MemoryStore::new(echo("e1", "ns1", 2, "hi"));
    store.reconcile(IMAGE, PORT);
    store.object.deletion_requested = true;
    let r = store.reconcile(IMAGE, PORT);
    assert_eq!(r, Some(Ok(Action::AwaitChange)));
    assert!(store.deployment.is_none());
    assert!(store.service.is_none());
    assert!(store.object.finalizers.is_empty());
    assert_eq!(store.reconcile(IMAGE, PORT), None);
}

#[test]
fn cleanup_deletes_deployment_before_service() {
    let mut store = MemoryStore::new(echo("e1", "ns1", 2, "hi"));
    store.reconcile(IMAGE, PORT);
    store.object.deletion_requested = true;
    store.fail_on = Some(Command::DeleteService);
    let r = store.reconcile(IMAGE, PORT);
    assert!(matches!(r, Some(Err(Error::Store { op: Command::DeleteService, .. }))));
    assert!(store.deployment.is_none());
    assert!(store.service.is_some());
    assert_eq!(store.object.finalizers, vec![marker()]);
}

#[test]
fn store_failure_scenario() {
    let mut store = MemoryStore::new(echo("e1", "ns1", 2, "hi"));
    store.fail_on = Some(Command::CreateDeployment);
    let r = store.reconcile(IMAGE, PORT).unwrap();
    assert!(matches!(r, Err(Error::Store { op: Command::CreateDeployment, .. })));
    assert_eq!(next_action(&r), Action::Requeue { secs: 300 });
    assert_eq!(store.object.finalizers, vec![marker()]);
    assert!(store.deployment.is_none());
    store.fail_on = None;
    let r = store.reconcile(IMAGE, PORT);
    assert_eq!(r, Some(Ok(Action::Requeue { secs: 300 })));
    assert_eq!(store.deployment.as_ref().unwrap().replicas, 2);
    assert!(store.service.is_some());
}

#[test]
fn marker_failure_is_a_lifecycle_error() {
    let mut store = MemoryStore::new(echo("e1", "ns1", 2, "hi"));
    store.fail_on = Some(Command::AddMarker);
    let r = store.reconcile(IMAGE, PORT);
    assert!(matches!(r, Some(Err(Error::Lifecycle { op: Command::AddMarker, .. }))));
    assert!(store.deployment.is_none());
    assert!(store.service.is_none());
    assert!(store.object.finalizers.is_empty());
}

#[test]
fn marker_stays_until_cleanup_succeeds() {
    let mut store = MemoryStore::new(echo("e1", "ns1", 2, "hi"));
    store.reconcile(IMAGE, PORT);
    store.object.deletion_requested = true;
    store.fail_on = Some(Command::RemoveMarker);
    let r = store.reconcile(IMAGE, PORT);
    assert!(matches!(r, Some(Err(Error::Lifecycle { op: Command::RemoveMarker, .. }))));
    assert!(store.deployment.is_none());
    assert!(store.service.is_none());
    assert_eq!(store.object.finalizers, vec![marker()]);
    store.fail_on = None;
    assert_eq!(store.reconcile(IMAGE, PORT), Some(Ok(Action::AwaitChange)));
    assert!(store.object.finalizers.is_empty());
}

#[test]
fn marker_present_when_service_created() {
    let mut store = MemoryStore::new(echo("e1", "ns1", 1, "x"));
    store.fail_on = Some(Command::CreateService);
    let r = store.reconcile(IMAGE, PORT);
    assert!(matches!(r, Some(Err(Error::Store { op: Command::CreateService, .. }))));
    assert!(store.deployment.is_some());
    assert_eq!(store.object.finalizers, vec![marker()]);
}

#[test]
fn apply_twice_is_idempotent() {
    let mut store = MemoryStore::new(echo("e1", "ns1", 3, "hello"));
    store.reconcile(IMAGE, PORT);
    let d1 = store.deployment.clone();
    let s1 = store.service.clone();
    let f1 = store.object.finalizers.clone();
    store.reconcile(IMAGE, PORT);
    assert_eq!(store.deployment, d1);
    assert_eq!(store.service, s1);
    assert_eq!(store.object.finalizers, f1);
}

#[test]
fn cleanup_without_children_succeeds() {
    let mut object = echo("e1", "ns1", 1, "hi");
    object.finalizers = vec![marker()];
    object.deletion_requested = true;
    let mut store = MemoryStore::new(object);
    assert_eq!(store.reconcile(IMAGE, PORT), Some(Ok(Action::AwaitChange)));
    assert!(store.object.finalizers.is_empty());
    assert_eq!(store.reconcile(IMAGE, PORT), None);
}

#[test]
fn zero_replicas_gives_zero_replica_deployment() {
    let mut store = MemoryStore::new(echo("e0", "ns1", 0, ""));
    assert_eq!(store.reconcile(IMAGE, PORT), Some(Ok(Action::Requeue { secs: 300 })));
    let d = store.deployment.as_ref().unwrap();
    assert_eq!(d.replicas, 0);
    assert_eq!(d.text_arg, "--text=\"\"");
}

#[test]
fn other_finalizers_are_kept() {
    let mut object = echo("e1", "ns1", 1, "hi");
    object.finalizers = vec!["other.io".to_string()];
    let mut store = MemoryStore::new(object);
    store.reconcile(IMAGE, PORT);
    assert_eq!(store.object.finalizers, vec!["other.io".to_string(), marker()]);
    store.object.deletion_requested = true;
    store.reconcile(IMAGE, PORT);
    assert_eq!(store.object.finalizers, vec!["other.io".to_string()]);
}

#[test]
fn notifications_for_one_key_never_overlap() {
    let mut q = WorkQueue::new();
    let k = ObjectKey::new("e1", "ns1");
    q.notify(k.clone());
    q.notify(k.clone());
    assert_eq!(q.pending.len(), 1);
    let first = q.next();
    assert_eq!(first, Some(k.clone()));
    q.notify(k.clone());
    assert_eq!(q.next(), None);
    assert_eq!(q.in_flight.len(), 1);
    q.complete(&k);
    assert_eq!(q.next(), Some(k.clone()));
    assert_eq!(q.in_flight, vec![k]);
}

#[test]
fn distinct_keys_run_side_by_side() {
    let mut q = WorkQueue::new();
    let a = ObjectKey::new("a", "ns");
    let b = ObjectKey::new("b", "ns");
    q.notify(a.clone());
    q.notify(a.clone());
    q.notify(b.clone());
    assert_eq!(q.next(), Some(a.clone()));
    assert_eq!(q.next(), Some(b.clone()));
    assert_eq!(q.next(), None);
    q.notify(a.clone());
    q.complete(&b);
    assert_eq!(q.next(), None);
    q.complete(&a);
    assert_eq!(q.next(), Some(a));
}

#[test]
fn classify_events() {
    assert_eq!(classify(false, &vec![]), Some(FinalizerEvent::Apply));
    assert_eq!(classify(false, &vec![marker()]), Some(FinalizerEvent::Apply));
    assert_eq!(classify(true, &vec![marker()]), Some(FinalizerEvent::Cleanup));
    assert_eq!(classify(true, &vec!["other".to_string()]), None);
    assert_eq!(classify(true, &vec![]), None);
}

#[test]
fn marker_add_and_clean_are_idempotent() {
    let mut f = vec!["a".to_string()];
    finalizer::add(&mut f);
    finalizer::add(&mut f);
    assert_eq!(f, vec!["a".to_string(), marker()]);
    assert!(contains_marker(&f));
    finalizer::clean(&mut f);
    finalizer::clean(&mut f);
    assert_eq!(f, vec!["a".to_string()]);
    assert!(!contains_marker(&f));
    assert_eq!(make_echo_finalizer(), "echo.test.com");
}

#[test]
fn text_argument_is_quoted_once() {
    assert_eq!(make_text_arg("hi"), "--text=\"hi\"");
    assert_eq!(make_text_arg("a b"), "--text=\"a b\"");
}

#[test]
fn derived_children() {
    let d = DeploymentResource::derive(IMAGE, 5678, "e1", 2, "hi", "ns1");
    assert_eq!(d.text_arg, "--text=\"hi\"");
    assert_eq!(d.label_value, "e1");
    let s = ServiceResource::derive("e1", 5678, "ns1");
    assert_eq!(s.service_type, "NodePort");
    assert_eq!(s.target_port, 5678);
    assert_eq!(s.duplicate(), s);
    assert_eq!(d.duplicate(), d);
}

#[test]
fn apply_session_steps() {
    let mut s = Session::apply(IMAGE, PORT, "e1", 2, "hi", "ns1", 300);
    assert_eq!(s.next, Step::Issue(Command::AddMarker));
    s.advance(true);
    assert_eq!(s.next, Step::Issue(Command::FetchDeployment));
    s.advance(false);
    assert_eq!(s.next, Step::Issue(Command::CreateDeployment));
    s.advance(true);
    assert_eq!(s.next, Step::Issue(Command::FetchService));
    s.advance(true);
    assert_eq!(s.next, Step::Finish(Action::Requeue { secs: 300 }));
}

#[test]
fn cleanup_session_steps() {
    let mut s = Session::cleanup("e1", "ns1");
    assert_eq!(s.next, Step::Issue(Command::FetchDeployment));
    s.advance(true);
    assert_eq!(s.next, Step::Issue(Command::DeleteDeployment));
    s.advance(true);
    assert_eq!(s.next, Step::Issue(Command::FetchService));
    s.advance(false);
    assert_eq!(s.next, Step::Issue(Command::RemoveMarker));
    s.advance(true);
    assert_eq!(s.next, Step::Finish(Action::AwaitChange));
}

#[test]
fn http_echo_requeues_sooner() {
    let object = HttpEcho {
        name: "h1".to_string(),
        namespace: "ns1".to_string(),
        spec: HttpEchoSpec { replicas: 1, text: "yo".to_string() },
        finalizers: Vec::new(),
        deletion_requested: false,
    };
    let mut session = object.session(IMAGE, PORT).unwrap();
    assert_eq!(session.event, FinalizerEvent::Apply);
    assert_eq!(session.requeue_secs, 10);
    let mut store = MemoryStore::new(echo("h1", "ns1", 1, "yo"));
    assert_eq!(store.run(&mut session), Ok(Action::Requeue { secs: 10 }));
    assert_eq!(store.deployment.as_ref().unwrap().text_arg, "--text=\"yo\"");
}

#[test]
fn errors_and_backoff() {
    let e = Error::from_store(Command::RemoveMarker, "boom".to_string());
    assert_eq!(e, Error::Lifecycle { op: Command::RemoveMarker, message: "boom".to_string() });
    assert_eq!(e.failed_op(), Some(Command::RemoveMarker));
    let e = Error::from_store(Command::FetchService, "boom".to_string());
    assert_eq!(e, Error::Store { op: Command::FetchService, message: "boom".to_string() });
    assert_eq!(Error::ControllerError("x".to_string()).failed_op(), None);
    assert_eq!(on_error(), Action::Requeue { secs: 300 });
    assert_eq!(next_action::<Error>(&Ok(Action::AwaitChange)), Action::AwaitChange);
}
