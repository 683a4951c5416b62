use crate::model::{bytes_opt, duplicate_text_opt, identity_set, text_opt};
use vstd::prelude::*;

verus! {

/// Who owns the treasury, which token it pays out, and which router swaps
/// for it.
#[derive(Debug, Clone, PartialEq, Eq)]
pub struct Config {
    pub owner: String,
    pub distribute_token: String,
    pub router: Option<String>,
}

/// The mathematical value of a [`Config`].
pub struct ConfigView {
    pub owner: Seq<char>,
    pub distribute_token: Seq<char>,
    pub router: Option<Seq<char>>,
}

impl View for Config {
    type V = ConfigView;

    open spec fn view(&self) -> ConfigView {
        ConfigView {
            owner: self.owner@,
            distribute_token: self.distribute_token@,
            router: text_opt(self.router),
        }
    }
}

impl Config {
    /// An independent copy with the same value.
    pub fn duplicate(&self) -> (res: Config)
        ensures
            res@ == self@,
    {
        Config {
            owner: self.owner.clone(),
            distribute_token: self.distribute_token.clone(),
            router: duplicate_text_opt(&self.router),
        }
    }
}

/// One payout destination: who receives, which percentage of the amount,
/// and the payload handed to the recipient's own message handler, if any.
#[derive(Debug, Clone, PartialEq, Eq)]
pub struct DistributeTarget {
    pub addr: String,
    pub weight: u32,
    pub msg_hook: Option<Vec<u8>>,
}

/// The mathematical value of a [`DistributeTarget`].
pub struct DistributeTargetView {
    pub addr: Seq<char>,
    pub weight: u32,
    pub msg_hook: Option<Seq<u8>>,
}

impl View for DistributeTarget {
    type V = DistributeTargetView;

    open spec fn view(&self) -> DistributeTargetView {
        DistributeTargetView {
            addr: self.addr@,
            weight: self.weight,
            msg_hook: bytes_opt(self.msg_hook),
        }
    }
}

impl DeepView for DistributeTarget {
    type V = DistributeTargetView;

    open spec fn deep_view(&self) -> DistributeTargetView {
        self@
    }
}

impl DistributeTarget {
    /// An independent copy with the same value.
    pub fn duplicate(&self) -> (res: DistributeTarget)
        ensures
            res@ == self@,
    {
        let msg_hook = match &self.msg_hook {
            Some(hook) => Some(hook.clone()),
            None => None,
        };
        DistributeTarget { addr: self.addr.clone(), weight: self.weight, msg_hook }
    }
}

/// An independent copy of a target list, in the same order.
pub fn duplicate_targets(targets: &Vec<DistributeTarget>) -> (res: Vec<DistributeTarget>)
    ensures
        res.deep_view() == targets.deep_view(),
{
    let mut res: Vec<DistributeTarget> = Vec::new();
    let mut i: usize = 0;
    while i < targets.len()
        invariant
            i <= targets.len(),
            res.len() == i,
            forall|j: int| 0 <= j < i ==> res[j]@ == targets[j]@,
        decreases targets.len() - i,
    {
        res.push(targets[i].duplicate());
        i += 1;
    }
    res
}

/// Everything the treasury keeps between invocations.
#[derive(Debug, Clone, PartialEq, Eq)]
pub struct State {
    pub config: Config,
    pub distribution_targets: Vec<DistributeTarget>,
    /// The identities allowed to collect fees besides the owner.
    pub executors: Vec<String>,
}

/// The mathematical value of a [`State`]: the executors form a set.
pub struct StateView {
    pub config: ConfigView,
    pub distribution_targets: Seq<DistributeTargetView>,
    pub executors: Set<Seq<char>>,
}

impl View for State {
    type V = StateView;

    open spec fn view(&self) -> StateView {
        StateView {
            config: self.config@,
            distribution_targets: self.distribution_targets.deep_view(),
            executors: identity_set(self.executors.deep_view()),
        }
    }
}

/// Whether an identity occurs in a list.
pub fn contains_identity(list: &Vec<String>, addr: &String) -> (res: bool)
    ensures
        res == identity_set(list.deep_view()).contains(addr@),
{
    let mut i: usize = 0;
    while i < list.len()
        invariant
            i <= list.len(),
            forall|j: int| 0 <= j < i ==> list[j]@ != addr@,
        decreases list.len() - i,
    {
        if list[i] == *addr {
            assert(list.deep_view()[i as int] == addr@);
            return true;
        }
        i += 1;
    }
    false
}

/// A list with one more identity holds that identity besides the others.
proof fn lemma_identity_set_push(list: Seq<Seq<char>>, added: Seq<char>)
    ensures
        identity_set(list.push(added)) == identity_set(list).insert(added),
{
    assert forall|a: Seq<char>|
        identity_set(list.push(added)).contains(a) <==> identity_set(list).insert(added).contains(
            a,
        ) by {
        if list.contains(a) {
            let k = choose|k: int| 0 <= k < list.len() && list[k] == a;
            assert(list.push(added)[k] == a);
        }
        if a == added {
            assert(list.push(added)[list.len() as int] == a);
        }
    }
}

/// Adds to `current` every identity of `granted` that it lacks.
pub fn grant_identities(current: &mut Vec<String>, granted: &Vec<String>)
    ensures
        identity_set(final(current).deep_view()) == identity_set(old(current).deep_view()).union(
            identity_set(granted.deep_view()),
        ),
{
    let ghost before = identity_set(current.deep_view());
    let ghost listed = granted.deep_view();
    let mut i: usize = 0;
    while i < granted.len()
        invariant
            i <= granted.len(),
            listed == granted.deep_view(),
            identity_set(current.deep_view()) == before.union(identity_set(listed.take(i as int))),
        decreases granted.len() - i,
    {
        let ghost held = current.deep_view();
        proof {
            lemma_identity_set_push(listed.take(i as int), listed[i as int]);
            assert(listed.take(i + 1) =~= listed.take(i as int).push(listed[i as int]));
        }
        if !contains_identity(current, &granted[i]) {
            current.push(granted[i].clone());
            proof {
                assert(current.deep_view() =~= held.push(listed[i as int]));
                lemma_identity_set_push(held, listed[i as int]);
            }
        }
        i += 1;
    }
    assert(listed.take(i as int) =~= listed);
}

/// Removes from `current` every identity that occurs in `revoked`.
pub fn revoke_identities(current: &mut Vec<String>, revoked: &Vec<String>)
    ensures
        identity_set(final(current).deep_view()) == identity_set(
            old(current).deep_view(),
        ).difference(identity_set(revoked.deep_view())),
{
    let ghost held = current.deep_view();
    let ghost gone = identity_set(revoked.deep_view());
    let mut kept: Vec<String> = Vec::new();
    let mut i: usize = 0;
    while i < current.len()
        invariant
            i <= current.len(),
            held == current.deep_view(),
            gone == identity_set(revoked.deep_view()),
            identity_set(kept.deep_view()) == identity_set(held.take(i as int)).difference(gone),
        decreases current.len() - i,
    {
        let ghost so_far = kept.deep_view();
        proof {
            lemma_identity_set_push(held.take(i as int), held[i as int]);
            assert(held.take(i + 1) =~= held.take(i as int).push(held[i as int]));
        }
        if !contains_identity(revoked, &current[i]) {
            kept.push(current[i].clone());
            proof {
                assert(kept.deep_view() =~= so_far.push(held[i as int]));
                lemma_identity_set_push(so_far, held[i as int]);
            }
        }
        i += 1;
    }
    assert(held.take(i as int) =~= held);
    *current = kept;
}

} // verus!
