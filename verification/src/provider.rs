//! The orchestration-facing registry of running instances, keyed by pod
//! identity.
//!
//! The provider tracks one entry per pod, each mapping container names to
//! instance handles. Registration of a fully constructed entry is one atomic
//! map insertion; deletion is idempotent; a pod marked for deletion has all
//! of its instances stopped and awaited, after which the provider asks the
//! host to issue a zero-grace delete against the control plane. Not-found
//! conditions on modify and delete are tolerated, never errors: the registry
//! and the control plane are allowed to be transiently out of sync.

use vstd::prelude::*;
use crate::kvmap::{AssocMap, MapKey};
use crate::runtime::{InstanceHandle, RunError};
use crate::status::ContainerStatus;

verus! {

/// The stable identity of a pod: namespace and name.
#[derive(Debug)]
pub struct PodId {
    pub namespace: String,
    pub name: String,
}

impl View for PodId {
    type V = (Seq<char>, Seq<char>);

    open spec fn view(&self) -> (Seq<char>, Seq<char>) {
        (self.namespace@, self.name@)
    }
}

impl MapKey for PodId {
    fn key_eq(&self, other: &Self) -> (r: bool) {
        self.namespace.eq(&other.namespace) && self.name.eq(&other.name)
    }
}

/// What the provider reads of a pod object: its identity, the declared
/// container names, and whether the control plane has stamped it for
/// deletion (milliseconds since the Unix epoch).
pub struct Pod {
    pub id: PodId,
    pub containers: Vec<String>,
    pub deletion_timestamp: Option<i64>,
}

impl Pod {
    /// A pod declares each container name once.
    pub open spec fn wf(&self) -> bool {
        forall|i: int, j: int|
            0 <= i < j < self.containers@.len() ==> (#[trigger] self.containers@[i])@
                != (#[trigger] self.containers@[j])@
    }
}

/// The provider's error conditions.
#[derive(Debug)]
pub enum ProviderError {
    /// The module store broke its contract: it returned no bytes for a
    /// declared container. Fatal to the add operation as a whole.
    ModuleNotFound { container_name: String },
    /// No pod is tracked under the identity.
    PodNotFound { pod_name: String },
    /// The pod is tracked but declares no such container.
    ContainerNotFound { container_name: String },
}

/// What a modify event asks the host to do after the provider has handled it.
#[derive(Debug)]
pub enum ModifyAction {
    /// Nothing: the pod carries no deletion timestamp, or it is not tracked
    /// (logged, tolerated).
    Ignore,
    /// Every tracked instance of the pod has been stopped and awaited; issue
    /// a delete for it against the control plane with this grace period.
    DeletePod { namespace: String, name: String, grace_period_seconds: i64 },
}

/// One tracked pod: its container name to instance handle mapping.
pub struct PodEntry {
    pub containers: AssocMap<String, InstanceHandle>,
}

impl PodEntry {
    /// Well-formed: unique container names, every handle a finished
    /// instance's handle.
    pub open spec fn wf(&self) -> bool {
        &&& self.containers.wf()
        &&& forall|c: Seq<char>|
            self.containers@.contains_key(c) ==> (#[trigger] self.containers@[c]).wf()
    }

    /// An entry with no containers yet.
    pub fn new() -> (e: Self)
        ensures
            e.wf(),
            e.containers@ =~= Map::<Seq<char>, InstanceHandle>::empty(),
    {
        PodEntry { containers: AssocMap::new() }
    }

    /// Adds one container's handle under its name.
    pub fn add_container(&mut self, name: String, handle: InstanceHandle)
        requires
            old(self).wf(),
            handle.wf(),
        ensures
            final(self).wf(),
            final(self).containers@ =~= old(self).containers@.insert(name@, handle),
    {
        self.containers.insert(name, handle);
    }

    /// Whether some container of this entry ended in a failed run.
    pub open spec fn has_failed_container(&self) -> bool {
        exists|c: Seq<char>|
            self.containers@.contains_key(c) && (#[trigger] self.containers@[c]).failure() is Some
    }
}

/// The fetch-step consistency check of `add`: the module store must have
/// returned bytes for every declared container. On success the bytes are
/// handed out per container, in declaration order; on the first uncovered
/// container the whole add fails fast, before any instance is started, so no
/// handle is ever registered for the pod.
fn copy_bytes(src: &Vec<u8>) -> (r: Vec<u8>)
    ensures
        r@ =~= src@,
{
    let mut r: Vec<u8> = Vec::new();
    let n = src.len();
    let mut i: usize = 0;
    while i < n
        invariant
            i <= n,
            n == src@.len(),
            r@ =~= src@.take(i as int),
        decreases n - i,
    {
        r.push(src[i]);
        i = i + 1;
        proof {
            assert(src@.take(i as int) =~= src@.take(i - 1).push(src@[i - 1]));
        }
    }
    proof {
        assert(src@.take(n as int) =~= src@);
    }
    r
}

pub fn plan_containers(pod: &Pod, modules: &AssocMap<String, Vec<u8>>) -> (r: Result<
    Vec<(String, Vec<u8>)>,
    ProviderError,
>)
    requires
        pod.wf(),
        modules.wf(),
    ensures
        r is Ok <==> (forall|i: int|
            0 <= i < pod.containers@.len() ==> modules@.contains_key(
                (#[trigger] pod.containers@[i])@,
            )),
        r matches Ok(v) ==> {
            &&& v@.len() == pod.containers@.len()
            &&& (forall|i: int|
                0 <= i < v@.len() ==> (#[trigger] v@[i]).0@ == pod.containers@[i]@ && v@[i].1@
                    == modules@[pod.containers@[i]@]@)
        },
        r matches Err(e) ==> e matches ProviderError::ModuleNotFound { container_name } && (
        exists|i: int|
            0 <= i < pod.containers@.len() && (#[trigger] pod.containers@[i])@ == container_name@)
            && !modules@.contains_key(container_name@),
{
    let mut out: Vec<(String, Vec<u8>)> = Vec::new();
    let n = pod.containers.len();
    let mut i: usize = 0;
    while i < n
        invariant
            pod.wf(),
            modules.wf(),
            n == pod.containers@.len(),
            i <= n,
            out@.len() == i,
            forall|j: int|
                0 <= j < i ==> (#[trigger] out@[j]).0@ == pod.containers@[j]@ && out@[j].1@
                    == modules@[pod.containers@[j]@]@,
            forall|j: int| 0 <= j < i ==> modules@.contains_key((#[trigger] pod.containers@[j])@),
        decreases n - i,
    {
        let name = &pod.containers[i];
        match modules.get(name) {
            Some(bytes) => {
                out.push((name.clone(), copy_bytes(bytes)));
                i = i + 1;
            },
            None => {
                let err_name = name.clone();
                proof {
                    let ghost ci = pod.containers@[i as int];
                    assert(!modules@.contains_key(ci@));
                    assert(err_name@ == ci@);
                    assert(exists|j: int|
                        0 <= j < pod.containers@.len() && (#[trigger] pod.containers@[j])@ == ci@)
                        by {
                        assert(0 <= i < pod.containers@.len() && pod.containers@[i as int]@ == ci@);
                    }
                }
                return Err(ProviderError::ModuleNotFound { container_name: err_name });
            },
        }
    }
    Ok(out)
}

/// The registry of all currently tracked pods, the one broadly shared
/// mutable resource of the system. The host serializes access to it; each
/// method here is one short critical section, never held across a module
/// start or stop.
pub struct Provider {
    handles: AssocMap<PodId, PodEntry>,
}

impl View for Provider {
    type V = Map<(Seq<char>, Seq<char>), PodEntry>;

    closed spec fn view(&self) -> Map<(Seq<char>, Seq<char>), PodEntry> {
        self.handles@
    }
}

impl Provider {
    /// Well-formed: unique pod keys, every entry well-formed.
    pub closed spec fn wf(&self) -> bool {
        &&& self.handles.wf()
        &&& forall|k: (Seq<char>, Seq<char>)|
            self@.contains_key(k) ==> (#[trigger] self@[k]).wf()
    }

    /// A provider tracking nothing.
    pub fn new() -> (p: Self)
        ensures
            p.wf(),
            p@ =~= Map::<(Seq<char>, Seq<char>), PodEntry>::empty(),
    {
        Provider { handles: AssocMap::new() }
    }

    /// Registers a fully constructed pod entry under the pod's identity, in
    /// one atomic critical section. An entry already under the key is
    /// replaced.
    pub fn add(&mut self, id: PodId, entry: PodEntry)
        requires
            old(self).wf(),
            entry.wf(),
        ensures
            final(self).wf(),
            final(self)@ =~= old(self)@.insert(id@, entry),
    {
        let ghost k = id@;
        self.handles.insert(id, entry);
        proof {
            assert forall|j: (Seq<char>, Seq<char>)| self@.contains_key(j) implies (
            #[trigger] self@[j]).wf() by {
                if j != k {
                    assert(old(self)@.contains_key(j));
                }
            }
        }
    }

    /// Whether a pod is tracked.
    pub fn contains(&self, id: &PodId) -> (r: bool)
        ensures
            r == self@.contains_key(id@),
    {
        self.handles.contains_key(id)
    }

    /// The tracked entry of a pod, if any.
    pub fn get(&self, id: &PodId) -> (r: Option<&PodEntry>)
        requires
            self.wf(),
        ensures
            match r {
                Some(e) => self@.contains_key(id@) && *e == self@[id@],
                None => !self@.contains_key(id@),
            },
    {
        self.handles.get(id)
    }

    /// Handles a modify event. Only the deletion-timestamp transition is
    /// acted on: every instance of a tracked, deletion-stamped pod is stopped
    /// and awaited in turn. If some awaited run had failed, that failure is
    /// returned to the caller — never swallowed — and the teardown stops
    /// there; only when every container finished cleanly is the host asked to
    /// issue a zero-grace delete against the control plane. An unknown pod
    /// key is tolerated (the registry may be transiently out of sync), and
    /// any other spec change is deliberately not handled. The registry itself
    /// is never changed here.
    pub fn modify(&self, pod: &Pod) -> (r: Result<ModifyAction, RunError>)
        requires
            self.wf(),
        ensures
            r matches Ok(ModifyAction::Ignore) <==> !(pod.deletion_timestamp is Some
                && self@.contains_key(pod.id@)),
            r matches Ok(ModifyAction::DeletePod { .. }) <==> (pod.deletion_timestamp is Some
                && self@.contains_key(pod.id@) && !self@[pod.id@].has_failed_container()),
            r matches Ok(ModifyAction::DeletePod { namespace, name, grace_period_seconds }) ==> {
                &&& namespace@ == pod.id.namespace@
                &&& name@ == pod.id.name@
                &&& grace_period_seconds == 0
            },
            r is Err <==> (pod.deletion_timestamp is Some && self@.contains_key(pod.id@)
                && self@[pod.id@].has_failed_container()),
            r matches Err(e) ==> (exists|c: Seq<char>|
                {
                    &&& self@[pod.id@].containers@.contains_key(c)
                    &&& (#[trigger] self@[pod.id@].containers@[c]).failure() matches Some(o)
                        && e.step == o.step && e.detail@ == o.detail@
                }),
    {
        match pod.deletion_timestamp {
            None => {
                return Ok(ModifyAction::Ignore);
            },
            Some(_) => {},
        }
        match self.get(&pod.id) {
            None => Ok(ModifyAction::Ignore),
            Some(entry) => {
                let n = entry.containers.len();
                let mut i: usize = 0;
                while i < n
                    invariant
                        entry.wf(),
                        entry == self@[pod.id@],
                        self@.contains_key(pod.id@),
                        pod.deletion_timestamp is Some,
                        n == entry.containers.entries_seq().len(),
                        i <= n,
                        forall|j: int|
                            0 <= j < i ==> (#[trigger] entry.containers.entries_seq()[j]).1.failure()
                                is None,
                    decreases n - i,
                {
                    let pair = entry.containers.entry_at(i);
                    proof {
                        entry.containers.lemma_entry_in_map(i as int);
                    }
                    let _ = pair.1.stop();
                    match pair.1.wait() {
                        Ok(()) => {},
                        Err(e) => {
                            proof {
                                let ghost c = entry.containers.entries_seq()[i as int].0@;
                                let ghost pe = self@[pod.id@];
                                assert(pe == *entry);
                                assert({
                                    &&& pe.containers@.contains_key(c)
                                    &&& pe.containers@[c].failure() matches Some(o) && e.step
                                        == o.step && e.detail@ == o.detail@
                                });
                                assert(pe.has_failed_container());
                                assert(pod.deletion_timestamp is Some);
                            }
                            return Err(e);
                        },
                    }
                    i = i + 1;
                }
                proof {
                    if entry.has_failed_container() {
                        let c = choose|c: Seq<char>|
                            entry.containers@.contains_key(c) && (
                            #[trigger] entry.containers@[c]).failure() is Some;
                        entry.containers.lemma_contains_entry(c);
                        let j = choose|j: int|
                            0 <= j < entry.containers.entries_seq().len() && (
                            #[trigger] entry.containers.entries_seq()[j]).0@ == c
                                && entry.containers.entries_seq()[j].1 == entry.containers@[c];
                        assert(entry.containers.entries_seq()[j].1.failure() is None);
                        assert(false);
                    }
                }
                Ok(
                    ModifyAction::DeletePod {
                        namespace: pod.id.namespace.clone(),
                        name: pod.id.name.clone(),
                        grace_period_seconds: 0,
                    },
                )
            },
        }
    }

    /// Handles a delete event: the entry is removed if present. Deleting an
    /// unknown pod succeeds and leaves the registry unchanged — deletion is
    /// idempotent and absence is not an error.
    pub fn delete(&mut self, pod: &Pod) -> (removed: bool)
        requires
            old(self).wf(),
        ensures
            final(self).wf(),
            final(self)@ =~= old(self)@.remove(pod.id@),
            removed == old(self)@.contains_key(pod.id@),
            !old(self)@.contains_key(pod.id@) ==> final(self)@ =~= old(self)@,
    {
        let r = self.handles.remove(&pod.id);
        proof {
            assert forall|j: (Seq<char>, Seq<char>)| self@.contains_key(j) implies (
            #[trigger] self@[j]).wf() by {
                assert(old(self)@.contains_key(j));
            }
        }
        r.is_some()
    }

    /// Streams a container's captured output: the full contents of its log
    /// sink, read through a fresh handle. An unknown pod or container is the
    /// corresponding not-found error.
    pub fn logs(&self, namespace: &String, pod_name: &String, container_name: &String) -> (r:
        Result<Vec<u8>, ProviderError>)
        requires
            self.wf(),
        ensures
            r is Ok <==> (self@.contains_key((namespace@, pod_name@))
                && self@[(namespace@, pod_name@)].containers@.contains_key(container_name@)),
            r matches Ok(bytes) ==> bytes@ == self@[(namespace@, pod_name@)].containers@[container_name@].log_bytes(),
            !self@.contains_key((namespace@, pod_name@)) ==> (r matches Err(
                ProviderError::PodNotFound { pod_name: p },
            ) && p@ == pod_name@),
            self@.contains_key((namespace@, pod_name@)) && !self@[(
                namespace@,
                pod_name@,
            )].containers@.contains_key(container_name@) ==> (r matches Err(
                ProviderError::ContainerNotFound { container_name: c },
            ) && c@ == container_name@),
    {
        let key = PodId { namespace: namespace.clone(), name: pod_name.clone() };
        match self.get(&key) {
            None => Err(ProviderError::PodNotFound { pod_name: pod_name.clone() }),
            Some(entry) => match entry.containers.get(container_name) {
                None => Err(
                    ProviderError::ContainerNotFound { container_name: container_name.clone() },
                ),
                Some(handle) => {
                    let sink = handle.log_sink();
                    let mut h = sink.new_handle();
                    Ok(sink.read_to_end(&mut h))
                },
            },
        }
    }

    /// The latest published status of one container: what the orchestration
    /// layer reports for it. An unknown pod or container is the corresponding
    /// not-found error.
    pub fn latest_status<'a>(
        &'a self,
        namespace: &String,
        pod_name: &String,
        container_name: &String,
    ) -> (r: Result<&'a ContainerStatus, ProviderError>)
        requires
            self.wf(),
        ensures
            r is Ok <==> (self@.contains_key((namespace@, pod_name@))
                && self@[(namespace@, pod_name@)].containers@.contains_key(container_name@)),
            r matches Ok(s) ==> *s == self@[(namespace@, pod_name@)].containers@[container_name@].statuses().last(),
            !self@.contains_key((namespace@, pod_name@)) ==> (r matches Err(
                ProviderError::PodNotFound { pod_name: p },
            ) && p@ == pod_name@),
            self@.contains_key((namespace@, pod_name@)) && !self@[(
                namespace@,
                pod_name@,
            )].containers@.contains_key(container_name@) ==> (r matches Err(
                ProviderError::ContainerNotFound { container_name: c },
            ) && c@ == container_name@),
    {
        let key = PodId { namespace: namespace.clone(), name: pod_name.clone() };
        match self.get(&key) {
            None => Err(ProviderError::PodNotFound { pod_name: pod_name.clone() }),
            Some(entry) => match entry.containers.get(container_name) {
                None => Err(
                    ProviderError::ContainerNotFound { container_name: container_name.clone() },
                ),
                Some(handle) => Ok(handle.latest_status()),
            },
        }
    }
}

} // verus!
