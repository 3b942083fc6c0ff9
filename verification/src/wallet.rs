//! Wallet provisioning: given the node's wallet-directory listing and its
//! set of currently loaded wallets, decide which provisioning requests to
//! issue so that a named wallet exists and is loaded. The decision is
//! idempotent: run against a node on which a previous plan for the same
//! name already succeeded, it issues nothing.
use vstd::prelude::*;

verus! {

/// Whether `name` occurs in a listing of wallet names.
pub open spec fn name_listed(names: Seq<Seq<char>>, name: Seq<char>) -> bool {
    exists|i: int| 0 <= i < names.len() && names[i] == name
}

/// The views of a list of wallet names.
pub open spec fn name_views(names: Seq<String>) -> Seq<Seq<char>> {
    names.map_values(|s: String| s@)
}

/// The provisioning requests to issue for one wallet name: create it if the
/// node's wallet directory lacks it, load it if the node has not loaded it.
#[derive(Clone, Copy, Debug, PartialEq, Eq, Structural)]
pub struct ProvisionPlan {
    /// Issue a create-wallet request for the name.
    pub create_wallet: bool,
    /// Issue a load-wallet request for the name.
    pub load_wallet: bool,
}

/// The plan for `name` given the node's wallet directory and loaded set.
pub open spec fn plan_decision(
    directory: Seq<Seq<char>>,
    loaded: Seq<Seq<char>>,
    name: Seq<char>,
) -> ProvisionPlan {
    ProvisionPlan {
        create_wallet: !name_listed(directory, name),
        load_wallet: !name_listed(loaded, name),
    }
}

/// Whether `name` occurs in `names`.
fn name_in_list(names: &Vec<String>, name: &String) -> (b: bool)
    ensures
        b == name_listed(name_views(names@), name@),
{
    let mut i: usize = 0;
    while i < names.len()
        invariant
            0 <= i <= names@.len(),
            forall|j: int| 0 <= j < i ==> name_views(names@)[j] != name@,
        decreases names@.len() - i,
    {
        if names[i].eq(name) {
            assert(name_views(names@)[i as int] == name@);
            return true;
        }
        i = i + 1;
    }
    false
}

/// Decide the provisioning requests for `name` from the node's wallet
/// directory listing and its list of loaded wallets.
pub fn provision_plan(directory: &Vec<String>, loaded: &Vec<String>, name: &String) -> (p:
    ProvisionPlan)
    ensures
        p == plan_decision(name_views(directory@), name_views(loaded@), name@),
{
    ProvisionPlan {
        create_wallet: !name_in_list(directory, name),
        load_wallet: !name_in_list(loaded, name),
    }
}

/// A listing after the node has been asked to make `name` present in it:
/// creating a wallet adds its name to the wallet directory, loading one
/// adds its name to the loaded set, and a step that was skipped (because
/// the name was already listed) leaves the listing unchanged.
pub open spec fn listing_with(names: Seq<Seq<char>>, name: Seq<char>) -> Seq<Seq<char>> {
    if name_listed(names, name) {
        names
    } else {
        names.push(name)
    }
}

/// Provisioning is idempotent: once a plan for `name` has been carried out
/// (after which the name stands in the wallet directory and in the loaded
/// set), the plan recomputed for the same name issues no request at all —
/// in particular no duplicate create-wallet call.
pub proof fn lemma_provision_idempotent(
    directory: Seq<Seq<char>>,
    loaded: Seq<Seq<char>>,
    name: Seq<char>,
)
    ensures
        plan_decision(listing_with(directory, name), listing_with(loaded, name), name)
            == (ProvisionPlan { create_wallet: false, load_wallet: false }),
{
    lemma_listing_with_lists(directory, name);
    lemma_listing_with_lists(loaded, name);
}

/// After `listing_with`, the name is listed.
proof fn lemma_listing_with_lists(names: Seq<Seq<char>>, name: Seq<char>)
    ensures
        name_listed(listing_with(names, name), name),
{
    if !name_listed(names, name) {
        let pushed = names.push(name);
        assert(pushed[names.len() as int] == name);
    }
}

} // verus!
