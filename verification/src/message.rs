use crate::account::AccountId;
use vstd::prelude::*;

verus! {

// ---------------------------------------------------------------------------
// Hierarchical chain locations
// ---------------------------------------------------------------------------

/// One named hop down in a hierarchical chain location.
#[derive(Clone, Copy, Debug, PartialEq, Eq, Structural)]
pub enum Junction {
    /// The chain with this numeric identifier, reached from the hop above.
    Parachain(u32),
}

/// A hierarchical chain location: a parent-distance counter (how many hops up
/// towards the relay) followed by the named hops down. The remote system
/// resolves routes purely from this structure, so it is preserved verbatim
/// in every descriptor that carries it.
#[derive(Clone, Debug, PartialEq)]
pub struct Location {
    pub parents: u8,
    pub interior: Vec<Junction>,
}

pub ghost struct LocationView {
    pub parents: u8,
    pub interior: Seq<Junction>,
}

impl View for Location {
    type V = LocationView;

    open spec fn view(&self) -> LocationView {
        LocationView { parents: self.parents, interior: self.interior@ }
    }
}

impl Location {
    /// The location one hop up: the parent of the chain this engine runs on.
    pub fn parent() -> (r: Location)
        ensures
            r@ == (LocationView { parents: 1, interior: Seq::<Junction>::empty() }),
    {
        Location { parents: 1, interior: Vec::new() }
    }
}

// ---------------------------------------------------------------------------
// Assets, weights and instructions of a cross-chain message
// ---------------------------------------------------------------------------

/// An amount of the fungible asset addressed by `location`.
#[derive(Clone, Debug, PartialEq)]
pub struct Asset {
    pub location: Location,
    pub amount: u128,
}

pub ghost struct AssetView {
    pub location: LocationView,
    pub amount: u128,
}

impl View for Asset {
    type V = AssetView;

    open spec fn view(&self) -> AssetView {
        AssetView { location: self.location@, amount: self.amount }
    }
}

/// An execution weight: computation time and proof size, each limited apart.
#[derive(Clone, Copy, Debug, PartialEq, Eq, Structural)]
pub struct Weight {
    pub ref_time: u64,
    pub proof_size: u64,
}

impl Weight {
    pub fn from_parts(ref_time: u64, proof_size: u64) -> (w: Weight)
        ensures
            w == (Weight { ref_time, proof_size }),
    {
        Weight { ref_time, proof_size }
    }
}

/// A ceiling on the weight an instruction may consume.
#[derive(Clone, Copy, Debug, PartialEq, Eq, Structural)]
pub enum WeightLimit {
    Unlimited,
    Limited(Weight),
}

/// The authority under which the destination executes a remote transaction.
/// The engine always acts as the sovereign account of the sending chain.
#[derive(Clone, Copy, Debug, PartialEq, Eq, Structural)]
pub enum OriginKind {
    SovereignAccount,
}

/// One instruction of a cross-chain message, executed in sequence at the
/// destination.
#[derive(Clone, Debug, PartialEq)]
pub enum Instruction {
    /// Reserve an asset of the sender's holdings at the destination.
    WithdrawAsset(Asset),
    /// Purchase an execution budget, consuming the withdrawn asset.
    BuyExecution { fees: Asset, weight_limit: WeightLimit },
    /// Execute `call`, an opaque encoded extrinsic, under a weight ceiling.
    Transact { origin_kind: OriginKind, require_weight_at_most: Weight, call: Vec<u8> },
}

pub ghost enum InstructionView {
    WithdrawAsset(AssetView),
    BuyExecution { fees: AssetView, weight_limit: WeightLimit },
    Transact { origin_kind: OriginKind, require_weight_at_most: Weight, call: Seq<u8> },
}

impl View for Instruction {
    type V = InstructionView;

    open spec fn view(&self) -> InstructionView {
        match self {
            Instruction::WithdrawAsset(asset) => InstructionView::WithdrawAsset(asset@),
            Instruction::BuyExecution { fees, weight_limit } => (InstructionView::BuyExecution {
                fees: fees@,
                weight_limit: *weight_limit,
            }),
            Instruction::Transact { origin_kind, require_weight_at_most, call } => (
            InstructionView::Transact {
                origin_kind: *origin_kind,
                require_weight_at_most: *require_weight_at_most,
                call: call@,
            }),
        }
    }
}

// ---------------------------------------------------------------------------
// Call descriptors
// ---------------------------------------------------------------------------

/// An invocation of a contract on the same chain, proposed for the Super
/// Organization to execute.
#[derive(Clone, Debug, PartialEq)]
pub struct ContractCall {
    pub callee: AccountId,
    pub selector: [u8; 4],
    pub input: Vec<u8>,
    pub transferred_value: u128,
    pub ref_time_limit: u64,
    pub allow_reentry: bool,
}

pub ghost struct ContractCallView {
    pub callee: Seq<u8>,
    pub selector: Seq<u8>,
    pub input: Seq<u8>,
    pub transferred_value: u128,
    pub ref_time_limit: u64,
    pub allow_reentry: bool,
}

impl View for ContractCall {
    type V = ContractCallView;

    open spec fn view(&self) -> ContractCallView {
        ContractCallView {
            callee: self.callee@,
            selector: self.selector@,
            input: self.input@,
            transferred_value: self.transferred_value,
            ref_time_limit: self.ref_time_limit,
            allow_reentry: self.allow_reentry,
        }
    }
}

/// A transactional message for a different chain: where it goes and the
/// ordered instructions it carries.
#[derive(Clone, Debug, PartialEq)]
pub struct ChainCall {
    pub dest: Location,
    pub msg: Vec<Instruction>,
}

pub ghost struct ChainCallView {
    pub dest: LocationView,
    pub msg: Seq<InstructionView>,
}

impl View for ChainCall {
    type V = ChainCallView;

    open spec fn view(&self) -> ChainCallView {
        ChainCallView { dest: self.dest@, msg: self.msg@.map_values(|i: Instruction| i@) }
    }
}

/// A fully formed description of an action submitted to the Super
/// Organization: either a same-chain contract invocation or a cross-chain
/// transactional message. Immutable once built; the engine does not retain it.
#[derive(Clone, Debug, PartialEq)]
pub enum Call {
    Contract(ContractCall),
    Chain(ChainCall),
}

pub ghost enum CallView {
    Contract(ContractCallView),
    Chain(ChainCallView),
}

impl View for Call {
    type V = CallView;

    open spec fn view(&self) -> CallView {
        match self {
            Call::Contract(c) => CallView::Contract(c@),
            Call::Chain(c) => CallView::Chain(c@),
        }
    }
}

/// A delegated vote cast into the Super Organization.
#[derive(Clone, Copy, Debug, PartialEq, Eq, Structural)]
pub enum Vote {
    Aye,
    Nay,
}

// ---------------------------------------------------------------------------
// Encoders
// ---------------------------------------------------------------------------

/// Builds the descriptor of a same-chain contract invocation, exactly from
/// its parts.
pub fn encode_contract_call(
    callee: AccountId,
    selector: [u8; 4],
    input: Vec<u8>,
    transferred_value: u128,
    ref_time_limit: u64,
    allow_reentry: bool,
) -> (c: Call)
    ensures
        c@ == (CallView::Contract(ContractCallView {
            callee: callee@,
            selector: selector@,
            input: input@,
            transferred_value,
            ref_time_limit,
            allow_reentry,
        })),
{
    Call::Contract(ContractCall {
        callee,
        selector,
        input,
        transferred_value,
        ref_time_limit,
        allow_reentry,
    })
}

fn clone_junctions(v: &Vec<Junction>) -> (r: Vec<Junction>)
    ensures
        r@ == v@,
{
    let mut r: Vec<Junction> = Vec::new();
    let mut i: usize = 0;
    while i < v.len()
        invariant
            0 <= i <= v@.len(),
            r@ == v@.subrange(0, i as int),
        decreases v@.len() - i,
    {
        r.push(v[i]);
        proof {
            assert(r@ =~= v@.subrange(0, i as int + 1));
        }
        i = i + 1;
    }
    proof {
        assert(r@ =~= v@);
    }
    r
}

fn clone_asset(a: &Asset) -> (r: Asset)
    ensures
        r@ == a@,
{
    Asset {
        location: Location { parents: a.location.parents, interior: clone_junctions(&a.location.interior) },
        amount: a.amount,
    }
}

/// The instruction sequence a cross-chain proposal must carry, in its
/// mandatory order: withdraw the fee asset, buy execution with it under no
/// weight ceiling, then transact the opaque extrinsic under the caller's
/// weight limit. The message cannot be built incomplete or reordered: this
/// function is the only constructor.
pub open spec fn chain_call_spec(
    destination_chain_id: u32,
    fee_asset_location: LocationView,
    fee_max: u128,
    encoded_extrinsic: Seq<u8>,
    ref_time_limit: u64,
    proof_size_limit: u64,
) -> ChainCallView {
    ChainCallView {
        dest: LocationView {
            parents: 1,
            interior: seq![Junction::Parachain(destination_chain_id)],
        },
        msg: seq![
            InstructionView::WithdrawAsset(AssetView { location: fee_asset_location, amount: fee_max }),
            InstructionView::BuyExecution {
                fees: AssetView { location: fee_asset_location, amount: fee_max },
                weight_limit: WeightLimit::Unlimited,
            },
            InstructionView::Transact {
                origin_kind: OriginKind::SovereignAccount,
                require_weight_at_most: Weight { ref_time: ref_time_limit, proof_size: proof_size_limit },
                call: encoded_extrinsic,
            },
        ],
    }
}

/// Builds a cross-chain transactional message: the destination is the sibling
/// chain `destination_chain_id`, one hop up then down, and the instruction
/// sequence is exactly withdraw-asset, buy-execution, transact.
pub fn encode_chain_call(
    destination_chain_id: u32,
    fee_asset_location: Location,
    fee_max: u128,
    encoded_extrinsic: Vec<u8>,
    ref_time_limit: u64,
    proof_size_limit: u64,
) -> (c: ChainCall)
    ensures
        c@ == chain_call_spec(
            destination_chain_id,
            fee_asset_location@,
            fee_max,
            encoded_extrinsic@,
            ref_time_limit,
            proof_size_limit,
        ),
{
    let fees = Asset { location: fee_asset_location, amount: fee_max };
    let fees_again = clone_asset(&fees);

    let mut interior: Vec<Junction> = Vec::new();
    interior.push(Junction::Parachain(destination_chain_id));
    let dest = Location { parents: 1, interior };

    let mut msg: Vec<Instruction> = Vec::new();
    msg.push(Instruction::WithdrawAsset(fees));
    msg.push(Instruction::BuyExecution { fees: fees_again, weight_limit: WeightLimit::Unlimited });
    msg.push(Instruction::Transact {
        origin_kind: OriginKind::SovereignAccount,
        require_weight_at_most: Weight::from_parts(ref_time_limit, proof_size_limit),
        call: encoded_extrinsic,
    });

    let c = ChainCall { dest, msg };
    proof {
        assert(c@.dest.interior =~= seq![Junction::Parachain(destination_chain_id)]);
        assert(c@.msg =~= chain_call_spec(
            destination_chain_id,
            fee_asset_location@,
            fee_max,
            encoded_extrinsic@,
            ref_time_limit,
            proof_size_limit,
        ).msg);
    }
    c
}

} // verus!
