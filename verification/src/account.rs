//! What the extraction of accounts and strategies hands to the instruction
//! builder. The builder carries these values into the finished variant and
//! reads nothing in them.

use vstd::prelude::*;

verus! {

/// An account that an instruction requires.
#[derive(Debug, PartialEq, Eq)]
pub struct InstructionAccount {
    /// The position that the annotation declares, if it declares one.
    pub index: Option<u32>,
    pub name: String,
    /// Whether the instruction may change the account.
    pub writable: bool,
    /// Whether the account has to sign.
    pub signer: bool,
}

/// The mathematical value of an [`InstructionAccount`].
pub struct InstructionAccountView {
    pub index: Option<u32>,
    pub name: Seq<char>,
    pub writable: bool,
    pub signer: bool,
}

impl View for InstructionAccount {
    type V = InstructionAccountView;

    open spec fn view(&self) -> InstructionAccountView {
        InstructionAccountView {
            index: self.index,
            name: self.name@,
            writable: self.writable,
            signer: self.signer,
        }
    }
}

impl DeepView for InstructionAccount {
    type V = InstructionAccountView;

    open spec fn deep_view(&self) -> InstructionAccountView {
        self@
    }
}

impl Clone for InstructionAccount {
    fn clone(&self) -> (copy: Self)
        ensures
            copy@ == self@,
    {
        InstructionAccount {
            index: self.index,
            name: self.name.clone(),
            writable: self.writable,
            signer: self.signer,
        }
    }
}

/// A behavioural marker on an instruction, read by the generators that come
/// after the builder.
#[derive(Debug, Clone, Copy, PartialEq, Eq, PartialOrd, Ord, Hash, Structural)]
pub enum InstructionStrategy {
    LegacyOptionalAccounts,
}

impl View for InstructionStrategy {
    type V = InstructionStrategy;

    open spec fn view(&self) -> InstructionStrategy {
        *self
    }
}

impl DeepView for InstructionStrategy {
    type V = InstructionStrategy;

    open spec fn deep_view(&self) -> InstructionStrategy {
        *self
    }
}

/// Copies a list of accounts.
pub(crate) fn clone_accounts(accounts: &Vec<InstructionAccount>) -> (copy: Vec<InstructionAccount>)
    ensures
        copy.deep_view() == accounts.deep_view(),
{
    let mut copy: Vec<InstructionAccount> = Vec::new();
    let mut i: usize = 0;
    while i < accounts.len()
        invariant
            i <= accounts.len(),
            copy@.len() == i,
            forall|j: int| 0 <= j < i ==> (#[trigger] copy@[j])@ == accounts@[j]@,
        decreases accounts.len() - i,
    {
        copy.push(accounts[i].clone());
        i = i + 1;
    }
    assert(copy.deep_view() =~= accounts.deep_view());
    copy
}

/// Copies a list of strategies.
pub(crate) fn clone_strategies(strategies: &Vec<InstructionStrategy>) -> (copy: Vec<InstructionStrategy>)
    ensures
        copy@ == strategies@,
{
    let mut copy: Vec<InstructionStrategy> = Vec::new();
    let mut i: usize = 0;
    while i < strategies.len()
        invariant
            i <= strategies.len(),
            copy@ == strategies@.take(i as int),
        decreases strategies.len() - i,
    {
        copy.push(strategies[i]);
        assert(strategies@.take(i + 1) =~= strategies@.take(i as int).push(strategies@[i as int]));
        i = i + 1;
    }
    assert(strategies@.take(strategies@.len() as int) =~= strategies@);
    copy
}

} // verus!
