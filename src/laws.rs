use vstd::prelude::*;
use crate::controller::{Command, Step};
use crate::finalizer::{echo_finalizer, FinalizerEvent};
use crate::resource::{desired_deployment, DeploymentView, ServiceView};
use crate::scheduler::{can_start, notified, started, QueueView};
use crate::store::{applied, cleaned, consistent, guarded, stage_state, KeyState};

verus! {

/// Applying the same spec twice, with nothing else touching the store in
/// between, leaves exactly the deployment and service that the first apply
/// left.
pub proof fn apply_is_idempotent(v: KeyState, d: DeploymentView, s: ServiceView)
    ensures
        applied(applied(v, d, s), d, s) == applied(v, d, s),
{
    assert(applied(applied(v, d, s), d, s).finalizers =~= applied(v, d, s).finalizers);
}

/// Cleaning up an object whose children are already gone leaves no child
/// and no marker, and cleaning up again changes nothing.
pub proof fn cleanup_is_idempotent(v: KeyState)
    requires
        v.deployment is None,
        v.service is None,
    ensures
        !cleaned(v).finalizers.contains(echo_finalizer()),
        cleaned(v).deployment is None,
        cleaned(v).service is None,
        cleaned(cleaned(v)) == cleaned(v),
{
    assert(cleaned(cleaned(v)).finalizers =~= cleaned(v).finalizers);
}

/// At every step of a session, the store keeps children only while the
/// marker is on the owner: a child is created only once the marker is
/// there, and the marker goes only once both children are gone.
pub proof fn marker_guards_children(
    event: FinalizerEvent,
    step: Step,
    o: KeyState,
    d: DeploymentView,
    s: ServiceView,
)
    requires
        guarded(o),
        consistent(step, stage_state(event, step, o, d, s)),
    ensures
        guarded(stage_state(event, step, o, d, s)),
        event == FinalizerEvent::Apply && (step == Step::Issue(Command::CreateDeployment)
            || step == Step::Issue(Command::CreateService)) ==> stage_state(event, step, o, d, s).finalizers.contains(echo_finalizer()),
        event == FinalizerEvent::Cleanup && step == Step::Issue(Command::RemoveMarker) ==> stage_state(
            event,
            step,
            o,
            d,
            s,
        ).deployment is None && stage_state(event, step, o, d, s).service is None,
{
}

/// A spec of zero replicas is applied as a deployment of zero replicas, not
/// as an error and not as a missing deployment.
pub proof fn zero_replicas_kept(
    v: KeyState,
    image: Seq<char>,
    port: i32,
    name: Seq<char>,
    text: Seq<char>,
    namespace: Seq<char>,
    s: ServiceView,
)
    ensures
        applied(v, desired_deployment(image, port, name, 0, text, namespace), s).deployment matches Some(
            dep,
        ) && dep.replicas == 0,
{
}

/// Reconciliations of one key never overlap: a second notification for a
/// key that already waits adds nothing, a key in flight cannot start again,
/// and starting a key keeps every key in flight at most once.
pub proof fn one_reconciliation_per_key(v: QueueView, k: (Seq<char>, Seq<char>), i: int)
    requires
        v.in_flight.no_duplicates(),
        v.pending.no_duplicates(),
    ensures
        notified(notified(v, k), k) == notified(v, k),
        v.in_flight.contains(k) ==> forall|j: int|
            0 <= j < v.pending.len() && v.pending[j] == k ==> !can_start(v, j),
        can_start(v, i) ==> started(v, i).in_flight.no_duplicates(),
        can_start(v, i) ==> started(v, i).pending.no_duplicates(),
{
    if !v.pending.contains(k) {
        assert(v.pending.push(k)[v.pending.len() as int] == k);
    }
    if can_start(v, i) {
        let w = started(v, i);
        assert forall|a: int, b: int| 0 <= a < b < w.in_flight.len() implies w.in_flight[a]
            != w.in_flight[b] by {
            if b == v.in_flight.len() {
                assert(v.in_flight.contains(v.in_flight[a]));
            }
        }
        assert forall|a: int, b: int| 0 <= a < b < w.pending.len() implies w.pending[a]
            != w.pending[b] by {
            if a >= i {
                assert(w.pending[a] == v.pending[a + 1]);
            }
            if b >= i {
                assert(w.pending[b] == v.pending[b + 1]);
            }
        }
    }
}

} // verus!
