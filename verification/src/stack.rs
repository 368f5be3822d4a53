//! Stack lifecycle management: driving a named stack through creation or
//! deletion to a terminal state.
//!
//! The provisioning service owns the stack; this module only classifies the
//! statuses observed by polling. The caller polls `describe` on a fixed
//! interval and feeds each observed status to [`poll_step`], which decides
//! whether to keep waiting or to settle on an outcome.

use vstd::prelude::*;
use crate::errors::Error;
use crate::text::{str_eq, usize_to_dec, dec_rep};

verus! {

/// The two stack operations that are polled to a terminal state.
#[derive(Clone, Copy, Debug, PartialEq, Eq, Structural)]
pub enum OperationKind {
    Create,
    Delete,
}

/// A stack status as reported by the provisioning service. The six statuses
/// the orchestrator recognizes are distinguished; any other status is carried
/// verbatim.
#[derive(Clone, Debug)]
pub enum StackStatus {
    CreateInProgress,
    CreateComplete,
    CreateFailed,
    DeleteInProgress,
    DeleteComplete,
    DeleteFailed,
    Other(String),
}

/// The outcome of a stack operation once a terminal status is observed.
#[derive(Debug)]
pub enum Outcome {
    Success,
    Failure { reason: String },
    /// A terminal status outside the two recognized ones, surfaced verbatim,
    /// never silently treated as success.
    UnexpectedStatus { status: StackStatus, reason: String },
}

/// The status that means the given operation is still in progress.
pub open spec fn in_progress_status(kind: OperationKind) -> StackStatus {
    match kind {
        OperationKind::Create => StackStatus::CreateInProgress,
        OperationKind::Delete => StackStatus::DeleteInProgress,
    }
}

/// The one status that means the given operation completed successfully.
pub open spec fn complete_status(kind: OperationKind) -> StackStatus {
    match kind {
        OperationKind::Create => StackStatus::CreateComplete,
        OperationKind::Delete => StackStatus::DeleteComplete,
    }
}

/// The one status that means the given operation failed.
pub open spec fn failed_status(kind: OperationKind) -> StackStatus {
    match kind {
        OperationKind::Create => StackStatus::CreateFailed,
        OperationKind::Delete => StackStatus::DeleteFailed,
    }
}

/// How a terminal status is mapped to an outcome.
pub open spec fn classify_spec(kind: OperationKind, status: StackStatus, reason: String) -> Outcome {
    if status == complete_status(kind) {
        Outcome::Success
    } else if status == failed_status(kind) {
        Outcome::Failure { reason }
    } else {
        Outcome::UnexpectedStatus { status, reason }
    }
}

/// Maps a terminal status to the operation's outcome: exactly one complete
/// and one failed status are recognized per operation kind; anything else is
/// surfaced verbatim as an unexpected status.
pub fn classify(kind: OperationKind, status: StackStatus, reason: String) -> (r: Outcome)
    ensures
        r == classify_spec(kind, status, reason),
{
    match kind {
        OperationKind::Create => match status {
            StackStatus::CreateComplete => Outcome::Success,
            StackStatus::CreateFailed => Outcome::Failure { reason },
            other => Outcome::UnexpectedStatus { status: other, reason },
        },
        OperationKind::Delete => match status {
            StackStatus::DeleteComplete => Outcome::Success,
            StackStatus::DeleteFailed => Outcome::Failure { reason },
            other => Outcome::UnexpectedStatus { status: other, reason },
        },
    }
}

/// What the polling loop does with one observed status.
#[derive(Debug)]
pub enum PollDecision {
    /// The operation is still in progress: poll again after the interval.
    KeepWaiting,
    /// A terminal status was observed: stop polling with this outcome.
    Settled { outcome: Outcome },
}

/// The decision taken on one observed status.
pub open spec fn poll_step_spec(kind: OperationKind, status: StackStatus, reason: String) -> PollDecision {
    if status == in_progress_status(kind) {
        PollDecision::KeepWaiting
    } else {
        PollDecision::Settled { outcome: classify_spec(kind, status, reason) }
    }
}

/// One iteration of awaiting a terminal state: keep waiting exactly while
/// the status equals the operation's in-progress status, and settle on the
/// classified outcome the moment any other status is observed.
pub fn poll_step(kind: OperationKind, status: StackStatus, reason: String) -> (r: PollDecision)
    ensures
        r == poll_step_spec(kind, status, reason),
{
    match kind {
        OperationKind::Create => match status {
            StackStatus::CreateInProgress => PollDecision::KeepWaiting,
            other => PollDecision::Settled { outcome: classify(kind, other, reason) },
        },
        OperationKind::Delete => match status {
            StackStatus::DeleteInProgress => PollDecision::KeepWaiting,
            other => PollDecision::Settled { outcome: classify(kind, other, reason) },
        },
    }
}

/// Law: awaiting a terminal state never settles while the observed status
/// still equals the in-progress status for the operation at hand, and when
/// it settles, the outcome is exactly the classification of the observed
/// status.
pub proof fn lemma_poll_settles_only_terminal(kind: OperationKind, status: StackStatus, reason: String)
    ensures
        poll_step_spec(kind, status, reason) is KeepWaiting <==> status == in_progress_status(kind),
        poll_step_spec(kind, status, reason) matches PollDecision::Settled { outcome } ==>
            status != in_progress_status(kind) && outcome == classify_spec(kind, status, reason),
{
}

/// A handle to a stack the provisioning service has accepted, carrying the
/// stack's opaque id.
#[derive(Clone, Debug)]
pub struct StackHandle {
    pub id: String,
}

/// Checks the provisioning service's creation response: the service must
/// return a stack id, or the contract with it is broken and the operation
/// cannot be recovered locally.
pub fn handle_create_response(stack_id: Option<String>) -> (r: Result<StackHandle, Error>)
    ensures
        match stack_id {
            Some(id) => r matches Ok(h) && h.id == id,
            None => r matches Err(e) && e is MissingIdentityError,
        },
{
    match stack_id {
        Some(id) => Ok(StackHandle { id }),
        None => Err(Error::MissingIdentityError),
    }
}

/// The value mapped to key `k` by the entry list `s`, first match wins.
pub open spec fn lookup(s: Seq<(String, String)>, k: Seq<char>) -> Option<Seq<char>>
    decreases s.len(),
{
    if s.len() == 0 {
        None
    } else if s[0].0@ == k {
        Some(s[0].1@)
    } else {
        lookup(s.drop_first(), k)
    }
}

/// Whether the entry list binds each key at most once.
pub open spec fn keys_unique(s: Seq<(String, String)>) -> bool {
    forall|i: int, j: int| 0 <= i < j < s.len() ==> s[i].0@ != s[j].0@
}

/// Skipping a prefix in which the key does not occur leaves the lookup
/// unchanged.
proof fn lemma_lookup_skip(s: Seq<(String, String)>, k: Seq<char>, i: int)
    requires
        0 <= i <= s.len(),
        forall|j: int| 0 <= j < i ==> s[j].0@ != k,
    ensures
        lookup(s, k) == lookup(s.skip(i), k),
    decreases i,
{
    if i > 0 {
        assert(s[0].0@ != k);
        assert(s.drop_first() =~= s.skip(1));
        lemma_lookup_skip(s.skip(1), k, i - 1);
        assert(s.skip(1).skip(i - 1) =~= s.skip(i));
    } else {
        assert(s.skip(0) =~= s);
    }
}

/// With unique keys, a lookup finds the one entry that carries the key, and
/// comes back empty exactly when no entry does.
pub proof fn lemma_lookup_finds(s: Seq<(String, String)>, k: Seq<char>)
    requires
        keys_unique(s),
    ensures
        lookup(s, k) is None <==> (forall|i: int| 0 <= i < s.len() ==> s[i].0@ != k),
        forall|i: int| 0 <= i < s.len() && s[i].0@ == k ==> lookup(s, k) == Some(s[i].1@),
    decreases s.len(),
{
    if s.len() > 0 {
        let rest = s.drop_first();
        assert(rest =~= s.skip(1));
        assert(keys_unique(rest)) by {
            assert forall|i: int, j: int| 0 <= i < j < rest.len() implies rest[i].0@ != rest[j].0@ by {
                assert(rest[i] == s[i + 1]);
                assert(rest[j] == s[j + 1]);
            }
        }
        lemma_lookup_finds(rest, k);
        if s[0].0@ == k {
            assert forall|i: int| 0 <= i < s.len() && s[i].0@ == k implies lookup(s, k) == Some(
                s[i].1@,
            ) by {
                if i > 0 {
                    assert(s[0].0@ != s[i].0@);
                }
            }
        } else {
            assert forall|i: int| 0 <= i < s.len() && s[i].0@ == k implies lookup(s, k) == Some(
                s[i].1@,
            ) by {
                assert(rest[i - 1] == s[i]);
            }
            if lookup(s, k) is None {
                assert forall|i: int| 0 <= i < s.len() implies s[i].0@ != k by {
                    if i > 0 {
                        assert(rest[i - 1] == s[i]);
                    }
                }
            }
        }
    }
}

/// Law: with unique keys, the mapping read from a stack's outputs does not
/// depend on the order in which the entries arrived — two entry lists that
/// hold the same pairs map every key to the same value.
pub proof fn lemma_outputs_order_irrelevant(
    a: Seq<(String, String)>,
    b: Seq<(String, String)>,
    k: Seq<char>,
)
    requires
        keys_unique(a),
        keys_unique(b),
        forall|p: (String, String)| a.contains(p) <==> b.contains(p),
    ensures
        lookup(a, k) == lookup(b, k),
{
    lemma_lookup_finds(a, k);
    lemma_lookup_finds(b, k);
    match lookup(a, k) {
        Some(v) => {
            assert(exists|i: int| 0 <= i < a.len() && a[i].0@ == k) by {
                if forall|i: int| 0 <= i < a.len() ==> a[i].0@ != k {
                    assert(lookup(a, k) is None);
                }
            }
            let i0 = choose|i: int| 0 <= i < a.len() && a[i].0@ == k;
            let p = a[i0];
            assert(a.contains(p));
            assert(b.contains(p));
            let j = choose|j: int| 0 <= j < b.len() && b[j] == p;
            assert(lookup(b, k) == Some(b[j].1@));
            assert(lookup(a, k) == Some(a[i0].1@));
        },
        None => {
            if lookup(b, k) is Some {
                assert(exists|j: int| 0 <= j < b.len() && b[j].0@ == k) by {
                    if forall|j: int| 0 <= j < b.len() ==> b[j].0@ != k {
                        assert(lookup(b, k) is None);
                    }
                }
                let j = choose|j: int| 0 <= j < b.len() && b[j].0@ == k;
                let p = b[j];
                assert(b.contains(p));
                assert(a.contains(p));
                let i = choose|i: int| 0 <= i < a.len() && a[i] == p;
                assert(a[i].0@ == k);
                assert(false);
            }
        },
    }
}

/// The key under which a stack reports its host's public address.
pub open spec fn public_address_key() -> Seq<char> {
    "PublicDNS"@
}

/// The key/value outputs observed on a stack that reached its create-complete
/// state.
#[derive(Debug)]
pub struct StackOutputs {
    pub entries: Vec<(String, String)>,
}

impl StackOutputs {
    /// The mapping the outputs represent: first match wins.
    pub open spec fn spec_lookup(&self, k: Seq<char>) -> Option<Seq<char>> {
        lookup(self.entries@, k)
    }

    /// Looks a key up among the outputs, first match wins.
    pub fn get(&self, key: &str) -> (r: Option<&String>)
        ensures
            match r {
                Some(v) => self.spec_lookup(key@) == Some(v@),
                None => self.spec_lookup(key@) is None,
            },
    {
        let n = self.entries.len();
        for i in 0..n
            invariant
                n == self.entries.len(),
                forall|j: int| 0 <= j < i ==> self.entries@[j].0@ != key@,
        {
            if str_eq(self.entries[i].0.as_str(), key) {
                proof {
                    lemma_lookup_skip(self.entries@, key@, i as int);
                    assert(self.entries@.skip(i as int)[0] == self.entries@[i as int]);
                }
                return Some(&self.entries[i].1);
            }
        }
        proof {
            lemma_lookup_skip(self.entries@, key@, n as int);
            assert(self.entries@.skip(n as int) =~= Seq::<(String, String)>::empty());
        }
        None
    }
}

/// Wraps the outputs fetched from a stack, requiring the expected key to be
/// present: returns the entries unchanged when `required` is bound, and
/// reports the missing key otherwise.
pub fn read_outputs(entries: Vec<(String, String)>, required: &str) -> (r: Result<
    StackOutputs,
    Error,
>)
    ensures
        match r {
            Ok(o) => o.entries@ == entries@ && lookup(entries@, required@) is Some,
            Err(e) => lookup(entries@, required@) is None && (e matches Error::MissingOutputError {
                key,
            } && key@ == required@),
        },
{
    let outputs = StackOutputs { entries };
    match outputs.get(required) {
        Some(_) => Ok(outputs),
        None => Err(Error::MissingOutputError { key: required.to_owned() }),
    }
}

/// Selects the output entry that identifies the host's public address,
/// first match wins; fails when no entry carries the address key.
pub fn resolve_target(outputs: &StackOutputs) -> (r: Result<String, Error>)
    ensures
        match r {
            Ok(url) => outputs.spec_lookup(public_address_key()) == Some(url@),
            Err(e) => outputs.spec_lookup(public_address_key()) is None
                && e is NoAddressError,
        },
{
    match outputs.get("PublicDNS") {
        Some(v) => Ok(v.clone()),
        None => Err(Error::NoAddressError),
    }
}

/// The inputs bound into a stack at creation, immutable once submitted.
#[derive(Clone, Debug)]
pub struct StackParameters {
    /// Host identity name; also the stack's name.
    pub name: String,
    /// Host class of the provisioned machine.
    pub instance_type: String,
    /// Listen port for the enclave connection.
    pub port: usize,
    /// SSH principal: public key material for the host's key pair.
    pub public_key: String,
    /// Inbound SSH CIDR.
    pub ssh_location: String,
}

/// Flattens the stack parameters into the named key/value pairs the
/// provisioning service expects, in their fixed order.
pub fn flatten_parameters(p: &StackParameters) -> (r: Vec<(String, String)>)
    ensures
        r@.len() == 5,
        r@[0].0@ == "InstanceName"@ && r@[0].1@ == p.name@,
        r@[1].0@ == "InstanceType"@ && r@[1].1@ == p.instance_type@,
        r@[2].0@ == "Port"@ && r@[2].1@ == dec_rep(p.port as nat),
        r@[3].0@ == "PublicKey"@ && r@[3].1@ == p.public_key@,
        r@[4].0@ == "SSHLocation"@ && r@[4].1@ == p.ssh_location@,
{
    let mut r: Vec<(String, String)> = Vec::new();
    r.push(("InstanceName".to_owned(), p.name.clone()));
    r.push(("InstanceType".to_owned(), p.instance_type.clone()));
    r.push(("Port".to_owned(), usize_to_dec(p.port)));
    r.push(("PublicKey".to_owned(), p.public_key.clone()));
    r.push(("SSHLocation".to_owned(), p.ssh_location.clone()));
    r
}

} // verus!
