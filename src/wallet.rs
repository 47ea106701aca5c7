//! Decisions of wallet set-up: unload the wallet, pause, load it; where that
//! fails create it; where that fails too, load it once more. The caller makes
//! each node call and reports whether it succeeded.
use vstd::prelude::*;

verus! {

/// Where the set-up of a wallet stands.
#[derive(PartialEq, Eq, Structural)]
pub enum WalletStep {
    Unload,
    Pause,
    Load,
    Create,
    LoadAgain,
    Loaded,
    Failed,
}

/// A call that the caller makes for the set-up.
#[derive(PartialEq, Eq, Structural)]
pub enum WalletCall {
    /// Unload the wallet; its failure is ignored.
    Unload,
    /// Wait a short fixed time so that the node's locks clear.
    Pause,
    /// Load the wallet by name.
    Load,
    /// Create the wallet by name.
    Create,
}

/// The call made at a step, none once the set-up has ended.
pub open spec fn call_of(step: WalletStep) -> Option<WalletCall> {
    match step {
        WalletStep::Unload => Some(WalletCall::Unload),
        WalletStep::Pause => Some(WalletCall::Pause),
        WalletStep::Load => Some(WalletCall::Load),
        WalletStep::Create => Some(WalletCall::Create),
        WalletStep::LoadAgain => Some(WalletCall::Load),
        WalletStep::Loaded => None,
        WalletStep::Failed => None,
    }
}

/// The step after a call at `step` that succeeded (`ok`) or failed.
pub open spec fn next_step(step: WalletStep, ok: bool) -> WalletStep {
    match step {
        WalletStep::Unload => WalletStep::Pause,
        WalletStep::Pause => WalletStep::Load,
        WalletStep::Load => if ok { WalletStep::Loaded } else { WalletStep::Create },
        WalletStep::Create => if ok { WalletStep::Loaded } else { WalletStep::LoadAgain },
        WalletStep::LoadAgain => if ok { WalletStep::Loaded } else { WalletStep::Failed },
        WalletStep::Loaded => WalletStep::Loaded,
        WalletStep::Failed => WalletStep::Failed,
    }
}

/// The set-up of one wallet.
pub struct WalletSetup {
    pub step: WalletStep,
}

impl WalletSetup {
    /// A set-up that starts by unloading the wallet.
    pub fn new() -> (w: WalletSetup)
        ensures
            w.step == WalletStep::Unload,
    {
        WalletSetup { step: WalletStep::Unload }
    }

    /// The call to make now; none once the wallet is loaded or the set-up failed.
    pub fn next_call(&self) -> (c: Option<WalletCall>)
        ensures
            c == call_of(self.step),
    {
        match self.step {
            WalletStep::Unload => Some(WalletCall::Unload),
            WalletStep::Pause => Some(WalletCall::Pause),
            WalletStep::Load => Some(WalletCall::Load),
            WalletStep::Create => Some(WalletCall::Create),
            WalletStep::LoadAgain => Some(WalletCall::Load),
            WalletStep::Loaded => None,
            WalletStep::Failed => None,
        }
    }

    /// Records whether the call of the current step succeeded.
    pub fn record(&mut self, ok: bool)
        ensures
            final(self).step == next_step(old(self).step, ok),
    {
        let next = match self.step {
            WalletStep::Unload => WalletStep::Pause,
            WalletStep::Pause => WalletStep::Load,
            WalletStep::Load => if ok { WalletStep::Loaded } else { WalletStep::Create },
            WalletStep::Create => if ok { WalletStep::Loaded } else { WalletStep::LoadAgain },
            WalletStep::LoadAgain => if ok { WalletStep::Loaded } else { WalletStep::Failed },
            WalletStep::Loaded => WalletStep::Loaded,
            WalletStep::Failed => WalletStep::Failed,
        };
        self.step = next;
    }

    /// The wallet is loaded.
    pub fn is_loaded(&self) -> (r: bool)
        ensures
            r <==> self.step == WalletStep::Loaded,
    {
        self.step == WalletStep::Loaded
    }

    /// The set-up failed: the wallet could be neither loaded nor created.
    pub fn is_failed(&self) -> (r: bool)
        ensures
            r <==> self.step == WalletStep::Failed,
    {
        self.step == WalletStep::Failed
    }
}

/// A node's wallets as its calls treat them: which names exist on disk, and
/// how many times each name is loaded.
pub struct NodeWallets {
    pub exists: Set<Seq<char>>,
    pub loaded: spec_fn(Seq<char>) -> nat,
}

/// A call by a node that holds `node`, on the wallet `name`: whether it
/// succeeds, and the node's wallets after it. Unloading unloads the wallet if
/// it is loaded; loading succeeds on a wallet that exists and is not loaded;
/// creating succeeds on a wallet that does not exist, and leaves it loaded.
pub open spec fn node_call(node: NodeWallets, name: Seq<char>, call: WalletCall) -> (bool, NodeWallets) {
    match call {
        WalletCall::Unload => (
            (node.loaded)(name) > 0,
            NodeWallets {
                exists: node.exists,
                loaded: |k: Seq<char>| if k == name { 0 } else { (node.loaded)(k) },
            },
        ),
        WalletCall::Pause => (true, node),
        WalletCall::Load => if node.exists.contains(name) && (node.loaded)(name) == 0 {
            (
                true,
                NodeWallets {
                    exists: node.exists,
                    loaded: |k: Seq<char>| if k == name { 1 } else { (node.loaded)(k) },
                },
            )
        } else {
            (false, node)
        },
        WalletCall::Create => if !node.exists.contains(name) {
            (
                true,
                NodeWallets {
                    exists: node.exists.insert(name),
                    loaded: |k: Seq<char>| if k == name { 1 } else { (node.loaded)(k) },
                },
            )
        } else {
            (false, node)
        },
    }
}

/// A set-up of `name` run from `step` against `node` for at most `fuel`
/// calls: the step it ends at and the node's wallets then.
pub open spec fn run_setup(step: WalletStep, node: NodeWallets, name: Seq<char>, fuel: nat) -> (
    WalletStep,
    NodeWallets,
)
    decreases fuel,
{
    if fuel == 0 {
        (step, node)
    } else {
        match call_of(step) {
            None => (step, node),
            Some(call) => {
                let (ok, after) = node_call(node, name, call);
                run_setup(next_step(step, ok), after, name, (fuel - 1) as nat)
            },
        }
    }
}

/// Calls that a set-up makes at most: unload, pause, load, create, load.
pub open spec fn setup_calls() -> nat {
    5
}

/// Set-up is idempotent: from any state of the node, one set-up of `name`
/// ends with the wallet loaded exactly once, and a second set-up right after
/// it ends the same way; no other wallet is touched.
pub proof fn lemma_setup_idempotent(node: NodeWallets, name: Seq<char>)
    ensures
        ({
            let (step1, node1) = run_setup(WalletStep::Unload, node, name, setup_calls());
            let (step2, node2) = run_setup(WalletStep::Unload, node1, name, setup_calls());
            &&& step1 == WalletStep::Loaded
            &&& (node1.loaded)(name) == 1
            &&& node1.exists.contains(name)
            &&& step2 == WalletStep::Loaded
            &&& (node2.loaded)(name) == 1
            &&& node2.exists == node1.exists
            &&& forall|k: Seq<char>| k != name ==> (#[trigger] (node2.loaded)(k)) == (node.loaded)(k)
        }),
{
    reveal_with_fuel(run_setup, 6);
    let (step1, node1) = run_setup(WalletStep::Unload, node, name, setup_calls());
    let (step2, node2) = run_setup(WalletStep::Unload, node1, name, setup_calls());
    assert(step1 == WalletStep::Loaded);
    assert(step2 == WalletStep::Loaded);
}

} // verus!
