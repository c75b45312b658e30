use vstd::prelude::*;

verus! {

/// The lifecycle marker that holds back an object's removal until its
/// children are gone: `echo.test.com`.
pub open spec fn echo_finalizer() -> Seq<char> {
    seq!['e', 'c', 'h', 'o', '.', 't', 'e', 's', 't', '.', 'c', 'o', 'm']
}

/// Returns the marker `echo.test.com`.
pub fn make_echo_finalizer() -> (r: String)
    ensures
        r@ == echo_finalizer(),
{
    proof {
        reveal_strlit("echo.test.com");
    }
    let r = String::from_str("echo.test.com");
    assert(r@ =~= echo_finalizer());
    r
}

/// The set of finalizer names that a list holds.
pub open spec fn finalizer_names(f: Seq<String>) -> Set<Seq<char>> {
    Set::new(|x: Seq<char>| exists|i: int| 0 <= i < f.len() && #[trigger] f[i]@ == x)
}

/// Whether the marker is among the finalizers.
pub open spec fn has_marker(f: Seq<String>) -> bool {
    finalizer_names(f).contains(echo_finalizer())
}

/// The two event kinds through which every lifecycle transition goes.
#[derive(PartialEq, Eq, Structural, Clone, Copy, Debug)]
pub enum FinalizerEvent {
    /// Converge the children toward the spec.
    Apply,
    /// Tear the children down, then release the object.
    Cleanup,
}

/// The event that an observed object calls for, if any.
pub open spec fn classify_spec(deletion_requested: bool, f: Seq<String>) -> Option<FinalizerEvent> {
    if !deletion_requested {
        Some(FinalizerEvent::Apply)
    } else if has_marker(f) {
        Some(FinalizerEvent::Cleanup)
    } else {
        None
    }
}

/// Whether the marker is among `finalizers`.
pub fn contains_marker(finalizers: &Vec<String>) -> (r: bool)
    ensures
        r == has_marker(finalizers@),
{
    let marker = make_echo_finalizer();
    let mut i: usize = 0;
    while i < finalizers.len()
        invariant
            i <= finalizers@.len(),
            marker@ == echo_finalizer(),
            forall|j: int| 0 <= j < i ==> finalizers@[j]@ != echo_finalizer(),
        decreases finalizers@.len() - i,
    {
        if finalizers[i] == marker {
            assert(finalizer_names(finalizers@).contains(echo_finalizer()));
            return true;
        }
        i = i + 1;
    }
    false
}

/// Classifies an observed object: `Apply` while no deletion is requested,
/// `Cleanup` once it is and the marker is still there, nothing once the
/// marker is gone.
pub fn classify(deletion_requested: bool, finalizers: &Vec<String>) -> (r: Option<FinalizerEvent>)
    ensures
        r == classify_spec(deletion_requested, finalizers@),
{
    if !deletion_requested {
        Some(FinalizerEvent::Apply)
    } else if contains_marker(finalizers) {
        Some(FinalizerEvent::Cleanup)
    } else {
        None
    }
}

/// Puts the marker among `finalizers` unless it is there already; the
/// other names stay.
pub fn add(finalizers: &mut Vec<String>)
    ensures
        finalizer_names(final(finalizers)@) == finalizer_names(old(finalizers)@).insert(
            echo_finalizer(),
        ),
        has_marker(old(finalizers)@) ==> final(finalizers)@ == old(finalizers)@,
{
    if !contains_marker(finalizers) {
        let ghost before = finalizers@;
        finalizers.push(make_echo_finalizer());
        assert forall|x: Seq<char>|
            finalizer_names(finalizers@).contains(x) <==> finalizer_names(before).insert(
                echo_finalizer(),
            ).contains(x) by {
            if finalizer_names(before).contains(x) {
                let i = choose|i: int| 0 <= i < before.len() && #[trigger] before[i]@ == x;
                assert(finalizers@[i]@ == x);
            }
            if x == echo_finalizer() {
                assert(finalizers@[before.len() as int]@ == x);
            }
            if finalizer_names(finalizers@).contains(x) {
                let i = choose|i: int| 0 <= i < finalizers@.len() && #[trigger] finalizers@[i]@ == x;
                if i < before.len() {
                    assert(before[i]@ == x);
                }
            }
        }
        assert(finalizer_names(finalizers@) =~= finalizer_names(before).insert(echo_finalizer()));
    } else {
        assert(finalizer_names(finalizers@) =~= finalizer_names(finalizers@).insert(
            echo_finalizer(),
        ));
    }
}

/// Takes every copy of the marker out of `finalizers`; the other names stay.
pub fn clean(finalizers: &mut Vec<String>)
    ensures
        finalizer_names(final(finalizers)@) == finalizer_names(old(finalizers)@).remove(
            echo_finalizer(),
        ),
{
    let marker = make_echo_finalizer();
    let mut kept: Vec<String> = Vec::new();
    let mut i: usize = 0;
    while i < finalizers.len()
        invariant
            i <= finalizers@.len(),
            marker@ == echo_finalizer(),
            forall|x: Seq<char>|
                finalizer_names(kept@).contains(x) <==> (x != echo_finalizer() && exists|j: int|
                    0 <= j < i && #[trigger] finalizers@[j]@ == x),
        decreases finalizers@.len() - i,
    {
        if finalizers[i] != marker {
            let ghost before = kept@;
            let name = finalizers[i].clone();
            kept.push(name);
            assert forall|x: Seq<char>|
                finalizer_names(kept@).contains(x) <==> (x != echo_finalizer() && exists|j: int|
                    0 <= j < i + 1 && #[trigger] finalizers@[j]@ == x) by {
                if finalizer_names(kept@).contains(x) {
                    let k = choose|k: int| 0 <= k < kept@.len() && #[trigger] kept@[k]@ == x;
                    if k < before.len() {
                        assert(before[k]@ == x);
                        assert(finalizer_names(before).contains(x));
                    } else {
                        assert(finalizers@[i as int]@ == x);
                    }
                }
                if x != echo_finalizer() && exists|j: int|
                    0 <= j < i + 1 && #[trigger] finalizers@[j]@ == x {
                    let j = choose|j: int| 0 <= j < i + 1 && #[trigger] finalizers@[j]@ == x;
                    if j < i {
                        assert(finalizer_names(before).contains(x));
                        let k = choose|k: int| 0 <= k < before.len() && #[trigger] before[k]@ == x;
                        assert(kept@[k]@ == x);
                    } else {
                        assert(kept@[before.len() as int]@ == x);
                    }
                }
            }
        } else {
            assert forall|x: Seq<char>|
                finalizer_names(kept@).contains(x) <==> (x != echo_finalizer() && exists|j: int|
                    0 <= j < i + 1 && #[trigger] finalizers@[j]@ == x) by {
                if x != echo_finalizer() && exists|j: int|
                    0 <= j < i + 1 && #[trigger] finalizers@[j]@ == x {
                    let j = choose|j: int| 0 <= j < i + 1 && #[trigger] finalizers@[j]@ == x;
                    assert(j < i);
                }
            }
        }
        i = i + 1;
    }
    assert(finalizer_names(kept@) =~= finalizer_names(finalizers@).remove(echo_finalizer()));
    *finalizers = kept;
}

} // verus!
