//! What the program does outside itself: the actions of an instruction, and how an
//! instruction goes on after each of them.

use crate::address::Address;
use crate::derived::SignerSeeds;
use crate::error::{Failure, ProgramError};
use crate::processor::InitializeCheck;
use crate::spl::{Instruction, InstructionView};
use crate::state::Anker;
use crate::token::{BLamports, StLamports};
use vstd::prelude::*;

verus! {

/// Something that the program does outside itself, and that may fail. All the accounts of
/// the instruction are at hand for it; those that it names are the ones that the
/// instruction fixes.
#[derive(Debug)]
pub enum Action {
    /// Create `account` with `space` bytes, owned by `owner`, signing with `seeds`. The
    /// rent for that space is what the account `sysvar_rent` says.
    CreateAccount {
        owner: Address,
        account: Address,
        sysvar_rent: Address,
        space: usize,
        seeds: SignerSeeds,
    },
    /// Initialize `account` as a token account for `mint`, signing with `seeds`.
    InitializeSplAccount { account: Address, mint: Address, seeds: SignerSeeds },
    /// Invoke `instruction` with these accounts, signing with the seeds of `signer`
    /// if there is one.
    Invoke { instruction: Instruction, accounts: Vec<Address>, signer: Option<SignerSeeds> },
    /// Mint `amount` bSOL to the depositor, for the program `program_id`.
    MintBSolTo { program_id: Address, anker: Anker, amount: BLamports },
    /// Burn `amount` bSOL of the mint `mint`, out of the account `from`, signed by
    /// `authority`.
    BurnBSol {
        anker: Anker,
        spl_token: Address,
        mint: Address,
        from: Address,
        authority: Address,
        amount: BLamports,
    },
    /// Sell `rewards` stSOL of the reserve for UST, for the program `program_id`.
    SwapRewards { program_id: Address, anker: Anker, rewards: StLamports },
    /// Store the state in `account`.
    SaveAnker { account: Address, anker: Anker },
}

/// An action, over the contents of its parts.
#[verifier::ext_equal]
pub enum ActionView {
    CreateAccount {
        owner: Address,
        account: Address,
        sysvar_rent: Address,
        space: usize,
        seeds: SignerSeeds,
    },
    InitializeSplAccount { account: Address, mint: Address, seeds: SignerSeeds },
    Invoke { instruction: InstructionView, accounts: Seq<Address>, signer: Option<SignerSeeds> },
    MintBSolTo { program_id: Address, anker: Anker, amount: BLamports },
    BurnBSol {
        anker: Anker,
        spl_token: Address,
        mint: Address,
        from: Address,
        authority: Address,
        amount: BLamports,
    },
    SwapRewards { program_id: Address, anker: Anker, rewards: StLamports },
    SaveAnker { account: Address, anker: Anker },
}

impl View for Action {
    type V = ActionView;

    open spec fn view(&self) -> ActionView {
        match *self {
            Action::CreateAccount { owner, account, sysvar_rent, space, seeds } => {
                ActionView::CreateAccount { owner, account, sysvar_rent, space, seeds }
            },
            Action::InitializeSplAccount { account, mint, seeds } => {
                ActionView::InitializeSplAccount { account, mint, seeds }
            },
            Action::Invoke { instruction, accounts, signer } => ActionView::Invoke {
                instruction: instruction@,
                accounts: accounts@,
                signer,
            },
            Action::MintBSolTo { program_id, anker, amount } => ActionView::MintBSolTo {
                program_id,
                anker,
                amount,
            },
            Action::BurnBSol { anker, spl_token, mint, from, authority, amount } => {
                ActionView::BurnBSol { anker, spl_token, mint, from, authority, amount }
            },
            Action::SwapRewards { program_id, anker, rewards } => ActionView::SwapRewards {
                program_id,
                anker,
                rewards,
            },
            Action::SaveAnker { account, anker } => ActionView::SaveAnker { account, anker },
        }
    }
}

/// What comes after the actions of a plan.
#[derive(Clone, Copy, Debug)]
pub enum End {
    /// The instruction is over.
    Finish(Result<(), Failure>),
    /// Accounts that the actions have changed are read again, and checked.
    Inspect(InitializeCheck),
}

/// What an instruction does: the actions, in order, each only where those before it
/// succeeded, and what comes after them.
#[derive(Debug)]
pub struct Plan {
    pub actions: Vec<Action>,
    pub end: End,
}

/// A plan, over the contents of its parts.
#[verifier::ext_equal]
pub struct PlanView {
    pub actions: Seq<ActionView>,
    pub end: End,
}

/// The contents of each action.
pub open spec fn action_views(actions: Seq<Action>) -> Seq<ActionView> {
    actions.map_values(|action: Action| action@)
}

impl View for Plan {
    type V = PlanView;

    open spec fn view(&self) -> PlanView {
        PlanView { actions: action_views(self.actions@), end: self.end }
    }
}

impl PlanView {
    /// The plan that does nothing, and fails.
    pub open spec fn refuse(failure: Failure) -> PlanView {
        PlanView { actions: Seq::empty(), end: End::Finish(Err(failure)) }
    }
}

impl Plan {
    /// The plan that does nothing, and fails.
    pub fn refuse(failure: Failure) -> (r: Plan)
        ensures
            r@ == PlanView::refuse(failure),
    {
        let r = Plan { actions: Vec::new(), end: End::Finish(Err(failure)) };
        assert(r@.actions =~= Seq::empty());
        r
    }

    /// The next action, if one is left, or what comes after them.
    pub fn start(self) -> (r: Progress)
        ensures
            r@ == self@.spec_start(),
    {
        let mut rest = self;
        if rest.actions.len() == 0 {
            return match rest.end {
                End::Finish(outcome) => Progress::Finish { outcome },
                End::Inspect(check) => Progress::Inspect { check },
            };
        }
        let action = rest.actions.remove(0);
        assert(action_views(rest.actions@) =~= self@.actions.drop_first());
        Progress::Perform { action, rest }
    }

    /// Goes on after the action before this plan came to `outcome`: an error ends the
    /// instruction, and nothing further is done.
    pub fn resume(self, outcome: Result<(), ProgramError>) -> (r: Progress)
        ensures
            r@ == self@.spec_resume(outcome),
    {
        match outcome {
            Ok(()) => self.start(),
            Err(e) => Progress::Finish { outcome: Err(Failure::Error(e)) },
        }
    }
}

/// How far an instruction is.
#[derive(Debug)]
pub enum Progress {
    /// `action` is to be performed; then `rest` goes on with its outcome.
    Perform { action: Action, rest: Plan },
    /// Accounts are to be read again, for `check`.
    Inspect { check: InitializeCheck },
    /// The instruction is over.
    Finish { outcome: Result<(), Failure> },
}

/// How far an instruction is, over the contents of its parts.
#[verifier::ext_equal]
pub enum ProgressView {
    Perform { action: ActionView, rest: PlanView },
    Inspect { check: InitializeCheck },
    Finish { outcome: Result<(), Failure> },
}

impl View for Progress {
    type V = ProgressView;

    open spec fn view(&self) -> ProgressView {
        match *self {
            Progress::Perform { action, rest } => ProgressView::Perform {
                action: action@,
                rest: rest@,
            },
            Progress::Inspect { check } => ProgressView::Inspect { check },
            Progress::Finish { outcome } => ProgressView::Finish { outcome },
        }
    }
}

impl PlanView {
    /// The next action, if one is left, or what comes after them.
    pub open spec fn spec_start(self) -> ProgressView {
        if self.actions.len() > 0 {
            ProgressView::Perform {
                action: self.actions[0],
                rest: PlanView { actions: self.actions.drop_first(), end: self.end },
            }
        } else {
            match self.end {
                End::Finish(outcome) => ProgressView::Finish { outcome },
                End::Inspect(check) => ProgressView::Inspect { check },
            }
        }
    }

    /// What comes after the action before this plan came to `outcome`.
    pub open spec fn spec_resume(self, outcome: Result<(), ProgramError>) -> ProgressView {
        match outcome {
            Ok(_) => self.spec_start(),
            Err(e) => ProgressView::Finish { outcome: Err(Failure::Error(e)) },
        }
    }
}

} // verus!
