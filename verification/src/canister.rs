//! What the canister commands decide before they talk to the network: which
//! canisters a command is about, and how many cycles to withdraw from a
//! canister before it is deleted.

use vstd::prelude::*;

verus! {

/// What it costs to withdraw the cycles of a canister.
pub const WITHDRAWAL_COST: u64 = 10_000_000_000;

/// The message for a status command that names no canister.
pub const CANNOT_FIND_CANISTER_NAME: &'static str = "Cannot find canister name.";

/// A command was given neither a canister nor the flag for all canisters.
#[derive(Clone, Copy, Debug, PartialEq, Eq)]
pub struct CanisterNameMissing;

/// The canisters that a command is about: the one that was named; else, with
/// the flag for all, those of the project, in their order; else none.
pub open spec fn chosen(
    canister: Option<Seq<char>>,
    all: bool,
    configured: Option<Seq<Seq<char>>>,
) -> Option<Seq<Seq<char>>> {
    match canister {
        Some(name) => Some(seq![name]),
        None => if all {
            match configured {
                Some(names) => Some(names),
                None => Some(Seq::empty()),
            }
        } else {
            None
        },
    }
}

/// The view of an optional name.
pub open spec fn name_view(name: Option<String>) -> Option<Seq<char>> {
    match name {
        Some(name) => Some(name@),
        None => None,
    }
}

/// The view of an optional list of names.
pub open spec fn names_view(names: Option<&Vec<String>>) -> Option<Seq<Seq<char>>> {
    match names {
        Some(names) => Some(names.deep_view()),
        None => None,
    }
}

/// The canisters that a command is about, given the canister that was named,
/// the flag for all canisters, and the canisters of the project.
pub fn select_canisters(
    canister: &Option<String>,
    all: bool,
    configured: Option<&Vec<String>>,
) -> (targets: Option<Vec<String>>)
    ensures
        match targets {
            Some(names) => chosen(name_view(*canister), all, names_view(configured)) == Some(
                names.deep_view(),
            ),
            None => chosen(name_view(*canister), all, names_view(configured)) is None,
        },
{
    match canister {
        Some(name) => {
            let mut names: Vec<String> = Vec::new();
            names.push(name.clone());
            assert(names.deep_view() =~= seq![name@]);
            Some(names)
        },
        None => {
            if all {
                let mut names: Vec<String> = Vec::new();
                match configured {
                    Some(listed) => {
                        let mut i: usize = 0;
                        while i < listed.len()
                            invariant
                                i <= listed.len(),
                                names.deep_view() =~= listed.deep_view().take(i as int),
                            decreases listed.len() - i,
                        {
                            let ghost before = names.deep_view();
                            names.push(listed[i].clone());
                            proof {
                                assert(names.deep_view() =~= before.push(listed@[i as int]@));
                                assert(listed.deep_view().take(i + 1) =~= listed.deep_view().take(
                                    i as int,
                                ).push(listed@[i as int]@));
                            }
                            i += 1;
                        }
                        assert(names.deep_view() =~= listed.deep_view());
                    },
                    None => {
                        assert(names.deep_view() =~= Seq::empty());
                    },
                }
                Some(names)
            } else {
                None
            }
        },
    }
}

/// The options of the command that deletes canisters.
#[derive(Clone, Debug, PartialEq, Eq)]
pub struct CanisterDeleteOpts {
    /// Specifies the name of the canister to delete.
    /// You must specify either a canister name/id or the --all flag.
    pub canister: Option<String>,
    /// Deletes all of the canisters configured in the dfx.json file.
    pub all: bool,
    /// Withdraw cycles from canister(s) to wallet before deleting.
    pub withdraw_cycles_to_wallet: Option<String>,
}

impl CanisterDeleteOpts {
    /// The canisters to delete. The options name a canister or ask for all.
    pub fn targets(&self, configured: Option<&Vec<String>>) -> (targets: Vec<String>)
        requires
            self.canister is Some || self.all,
        ensures
            chosen(name_view(self.canister), self.all, names_view(configured)) == Some(
                targets.deep_view(),
            ),
    {
        match select_canisters(&self.canister, self.all, configured) {
            Some(names) => names,
            None => vstd::pervasive::unreached(),
        }
    }
}

/// The options of the command that shows the status of canisters.
#[derive(Clone, Debug, PartialEq, Eq)]
pub struct CanisterStatusOpts {
    /// Specifies the name of the canister to return information for.
    /// You must specify either a canister name or the --all flag.
    pub canister_name: Option<String>,
    /// Returns status information for all of the canisters configured in the dfx.json file.
    pub all: bool,
}

impl CanisterStatusOpts {
    /// The canisters whose status to show, or the message for options that
    /// name none.
    pub fn targets(&self, configured: Option<&Vec<String>>) -> (targets: Result<Vec<String>, String>)
        ensures
            match targets {
                Ok(names) => chosen(name_view(self.canister_name), self.all, names_view(configured))
                    == Some(names.deep_view()),
                Err(message) => chosen(
                    name_view(self.canister_name),
                    self.all,
                    names_view(configured),
                ) is None && message@ == CANNOT_FIND_CANISTER_NAME@,
            },
    {
        match select_canisters(&self.canister_name, self.all, configured) {
            Some(names) => Ok(names),
            None => Err(CANNOT_FIND_CANISTER_NAME.to_owned()),
        }
    }
}

/// The canisters to start, or the error for arguments that name none.
pub fn start_targets(
    canister_name: &Option<String>,
    all: bool,
    configured: Option<&Vec<String>>,
) -> (targets: Result<Vec<String>, CanisterNameMissing>)
    ensures
        match targets {
            Ok(names) => chosen(name_view(*canister_name), all, names_view(configured)) == Some(
                names.deep_view(),
            ),
            Err(_) => chosen(name_view(*canister_name), all, names_view(configured)) is None,
        },
{
    match select_canisters(canister_name, all, configured) {
        Some(names) => Ok(names),
        None => Err(CanisterNameMissing),
    }
}

/// What to do with the cycles of a canister before it is deleted.
#[derive(Clone, Copy, Debug, PartialEq, Eq)]
pub enum Withdrawal {
    /// Withdraw this many cycles.
    Withdraw { cycles: u64 },
    /// The canister is stopped and holds too few cycles to withdraw any.
    TooFewCycles { cycles: u64 },
}

/// What to withdraw from a canister, given whether it is stopped and the
/// cycles that it holds: from a canister that is not stopped, or that holds
/// more than the withdrawal costs, all but the cost; from another, nothing.
pub open spec fn withdrawn(stopped: bool, cycles: u64) -> Withdrawal {
    if !stopped || cycles > WITHDRAWAL_COST {
        Withdrawal::Withdraw { cycles: (cycles - WITHDRAWAL_COST) as u64 }
    } else {
        Withdrawal::TooFewCycles { cycles }
    }
}

/// Decides the withdrawal from a canister, given whether it is stopped and
/// the cycles that it holds.
///
/// A canister that is not stopped holds at least what the withdrawal costs.
pub fn withdrawal(stopped: bool, cycles: u64) -> (decision: Withdrawal)
    requires
        stopped || cycles >= WITHDRAWAL_COST,
    ensures
        decision == withdrawn(stopped, cycles),
{
    if !stopped || cycles > WITHDRAWAL_COST {
        Withdrawal::Withdraw { cycles: cycles - WITHDRAWAL_COST }
    } else {
        Withdrawal::TooFewCycles { cycles }
    }
}

} // verus!
