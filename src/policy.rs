use vstd::prelude::*;
use crate::capability_args::{ArgsModel, CapabilityArgs};
use crate::coverage::{CapabilityCoverage, lemma_reduce_all_full, reduce};
use crate::bounded::{cap_name_bytes, cap_name_slice, number_arg_slice, string_arg_slice};
use arrayvec::ArrayVec;
use crate::text::{append_bytes, ascii_bytes, bytes_eq};

verus! {

/// Largest capability name, in bytes.
pub const CAPABILITY_NAME_CAPACITY: usize = 14;

pub open spec fn gas_name() -> Seq<u8> {
    ascii_bytes("coin.GAS"@)
}

pub open spec fn rotate_name() -> Seq<u8> {
    ascii_bytes("coin.ROTATE"@)
}

pub open spec fn transfer_name() -> Seq<u8> {
    ascii_bytes("coin.TRANSFER"@)
}

fn gas_name_bytes() -> (r: &'static [u8])
    ensures
        r@ == gas_name(),
{
    let s: &'static str = "coin.GAS";
    proof {
        reveal_strlit("coin.GAS");
        vstd::string::is_ascii_spec_bytes(s);
    }
    s.as_bytes()
}

fn rotate_name_bytes() -> (r: &'static [u8])
    ensures
        r@ == rotate_name(),
{
    let s: &'static str = "coin.ROTATE";
    proof {
        reveal_strlit("coin.ROTATE");
        vstd::string::is_ascii_spec_bytes(s);
    }
    s.as_bytes()
}

fn transfer_name_bytes() -> (r: &'static [u8])
    ensures
        r@ == transfer_name(),
{
    let s: &'static str = "coin.TRANSFER";
    proof {
        reveal_strlit("coin.TRANSFER");
        vstd::string::is_ascii_spec_bytes(s);
    }
    s.as_bytes()
}

/// What a capability asks the user to approve.
#[derive(Clone, Debug)]
pub enum CapabilityPrompt {
    /// Paying the transaction's gas.
    PayingGas,
    /// Rotating the keys of an account.
    Rotate { account: Vec<u8> },
    /// Moving an amount from a sender to a receiver.
    Transfer { amount: Vec<u8>, sender: Vec<u8>, receiver: Vec<u8> },
    /// A capability outside the allow-list: its signer is not fully covered.
    Unrecognized,
}

pub enum PromptModel {
    PayingGas,
    Rotate { account: Seq<u8> },
    Transfer { amount: Seq<u8>, sender: Seq<u8>, receiver: Seq<u8> },
    Unrecognized,
}

impl View for CapabilityPrompt {
    type V = PromptModel;

    open spec fn view(&self) -> PromptModel {
        match self {
            CapabilityPrompt::PayingGas => PromptModel::PayingGas,
            CapabilityPrompt::Rotate { account } => PromptModel::Rotate { account: account@ },
            CapabilityPrompt::Transfer { amount, sender, receiver } => PromptModel::Transfer {
                amount: amount@,
                sender: sender@,
                receiver: receiver@,
            },
            CapabilityPrompt::Unrecognized => PromptModel::Unrecognized,
        }
    }
}

pub open spec fn prompt_model(r: Option<CapabilityPrompt>) -> Option<PromptModel> {
    match r {
        None => None,
        Some(p) => Some(p@),
    }
}

/// The allow-list: a named capability with the argument shape its name asks
/// for is shown to the user; with another shape it is refused (`None`); a
/// name outside the list is let through as unrecognised.
pub open spec fn capability_verdict(name: Seq<u8>, args: ArgsModel) -> Option<PromptModel> {
    if name == gas_name() {
        if args.first is None && args.second is None && args.third is None {
            Some(PromptModel::PayingGas)
        } else {
            None
        }
    } else if name == rotate_name() {
        match (args.first, args.second, args.third) {
            (Some(Some(account)), None, None) => Some(PromptModel::Rotate { account }),
            _ => None,
        }
    } else if name == transfer_name() {
        match (args.first, args.second, args.third) {
            (Some(Some(sender)), Some(Some(receiver)), Some(Some(amount))) => Some(
                PromptModel::Transfer { amount, sender, receiver },
            ),
            _ => None,
        }
    } else {
        Some(PromptModel::Unrecognized)
    }
}

fn copy_bytes(b: &[u8]) -> (r: Vec<u8>)
    ensures
        r@ == b@,
{
    let mut r: Vec<u8> = Vec::new();
    append_bytes(&mut r, b);
    assert(r@ =~= b@);
    r
}

/// Applies the allow-list to one capability.
pub fn check_capability(name: &ArrayVec<u8, 14>, args: &CapabilityArgs) -> (r: Option<CapabilityPrompt>)
    ensures
        prompt_model(r) == capability_verdict(cap_name_bytes(*name), args@),
{
    let name = cap_name_slice(name);
    if bytes_eq(name, gas_name_bytes()) {
        match (&args.first, &args.second, &args.third) {
            (None, None, None) => Some(CapabilityPrompt::PayingGas),
            _ => None,
        }
    } else if bytes_eq(name, rotate_name_bytes()) {
        match (&args.first, &args.second, &args.third) {
            (Some(Some(account)), None, None) => Some(CapabilityPrompt::Rotate { account: copy_bytes(string_arg_slice(account)) }),
            _ => None,
        }
    } else if bytes_eq(name, transfer_name_bytes()) {
        match (&args.first, &args.second, &args.third) {
            (Some(Some(sender)), Some(Some(receiver)), Some(Some(amount))) => Some(
                CapabilityPrompt::Transfer {
                    amount: copy_bytes(number_arg_slice(amount)),
                    sender: copy_bytes(string_arg_slice(sender)),
                    receiver: copy_bytes(string_arg_slice(receiver)),
                },
            ),
            _ => None,
        }
    } else {
        Some(CapabilityPrompt::Unrecognized)
    }
}

/// A signer is fully covered when it grants at least one capability and every
/// capability it grants is on the allow-list.
pub open spec fn signer_coverage_spec(capabilities: nat, unrecognized: nat) -> CapabilityCoverage {
    if capabilities > 0 && unrecognized == 0 {
        CapabilityCoverage::Full
    } else {
        CapabilityCoverage::NotFull
    }
}

/// The coverage that one signer contributes.
pub fn signer_coverage(capabilities: u64, unrecognized: u64) -> (r: CapabilityCoverage)
    ensures
        r == signer_coverage_spec(capabilities as nat, unrecognized as nat),
{
    if capabilities > 0 && unrecognized == 0 {
        CapabilityCoverage::Full
    } else {
        CapabilityCoverage::NotFull
    }
}

/// How much of a transaction's code is understood.
#[derive(PartialEq, Eq, Structural, Clone, Copy, Debug)]
pub enum CommandData {
    Known,
    Unknown,
}

/// The unsafe-transaction warning is owed when the code is not known and the
/// signers are not fully covered (an absent value counts as neither).
pub open spec fn unsafe_warning_spec(code: Option<CommandData>, coverage: Option<CapabilityCoverage>) -> bool {
    code != Some(CommandData::Known) && coverage != Some(CapabilityCoverage::Full)
}

/// Decides, once the document is complete, whether the warning is shown.
pub fn needs_unsafe_warning(code: Option<CommandData>, coverage: Option<CapabilityCoverage>) -> (r: bool)
    ensures
        r == unsafe_warning_spec(code, coverage),
{
    let known = match code {
        Some(CommandData::Known) => true,
        _ => false,
    };
    let full = match coverage {
        Some(CapabilityCoverage::Full) => true,
        _ => false,
    };
    !known && !full
}

/// A gas capability without arguments and a transfer capability with all
/// three arguments usable both pass the allow-list as recognised; and a signer
/// list in which every signer grants at least one capability, all of them
/// recognised, is fully covered.
pub proof fn lemma_gas_and_transfer_cover(
    sender: Seq<u8>,
    receiver: Seq<u8>,
    amount: Seq<u8>,
    capabilities: Seq<nat>,
)
    requires
        forall|i: int| 0 <= i < capabilities.len() ==> capabilities[i] > 0,
    ensures
        capability_verdict(gas_name(), ArgsModel { first: None, second: None, third: None })
            == Some(PromptModel::PayingGas),
        capability_verdict(
            transfer_name(),
            ArgsModel { first: Some(Some(sender)), second: Some(Some(receiver)), third: Some(Some(amount)) },
        ) == Some(PromptModel::Transfer { amount, sender, receiver }),
        reduce(capabilities.map_values(|c: nat| signer_coverage_spec(c, 0))) == CapabilityCoverage::Full,
{
    reveal_strlit("coin.GAS");
    reveal_strlit("coin.ROTATE");
    reveal_strlit("coin.TRANSFER");
    assert(transfer_name().len() != gas_name().len());
    assert(transfer_name().len() != rotate_name().len());
    let covs = capabilities.map_values(|c: nat| signer_coverage_spec(c, 0));
    lemma_reduce_all_full(covs);
}

/// A gas capability with any argument present is refused.
pub proof fn lemma_gas_with_arguments_refused(args: ArgsModel)
    requires
        !(args.first is None && args.second is None && args.third is None),
    ensures
        capability_verdict(gas_name(), args) is None,
{
}

/// The warning is owed when the code is unknown and the signers are not
/// fully covered, and not when the code is known or the signers are covered.
pub proof fn lemma_unsafe_warning_rule(code: Option<CommandData>, coverage: Option<CapabilityCoverage>)
    ensures
        unsafe_warning_spec(Some(CommandData::Unknown), Some(CapabilityCoverage::NotFull)),
        code == Some(CommandData::Known) ==> !unsafe_warning_spec(code, coverage),
        coverage == Some(CapabilityCoverage::Full) ==> !unsafe_warning_spec(code, coverage),
{
}

} // verus!
