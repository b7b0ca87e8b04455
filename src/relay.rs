use vstd::prelude::*;
use crate::accounts::{has_match, rewrite_accounts, rewritten, AccountEntry};
use crate::address::Address;
use crate::derivation::{derive_vault_authority, program_address_search, Authority, VAULT_SEED};
use crate::error::ErrorCode;

verus! {

/// The relay's own program id.
pub const PROGRAM_ID: [u8; 32] = [
    178, 30, 69, 186, 140, 63, 156, 204, 90, 120, 25, 160, 153, 23, 157, 158,
    85, 221, 218, 103, 161, 43, 132, 210, 79, 136, 2, 131, 92, 242, 247, 15,
];

/// The id of the Jupiter aggregator program, the one trusted downstream
/// program.
pub const JUPITER_PROGRAM_ID: [u8; 32] = [
    4, 121, 213, 91, 242, 49, 192, 110, 238, 116, 197, 110, 206, 104, 21, 7,
    253, 177, 178, 222, 163, 244, 142, 81, 2, 177, 205, 162, 86, 188, 19, 143,
];

/// The instruction selector of Jupiter's `route` operation.
pub const ROUTE_SELECTOR: [u8; 8] = [229, 23, 203, 151, 122, 227, 173, 42];

/// The number of leading payload bytes that name the operation.
pub const SELECTOR_LEN: usize = 8;

/// The relay's own program.
pub fn id() -> (r: Address)
    ensures
        r.bytes == PROGRAM_ID,
{
    Address { bytes: PROGRAM_ID }
}

/// The trusted downstream program.
#[derive(Clone, Copy, Debug)]
pub struct Jupiter;

impl Jupiter {
    pub fn id() -> (r: Address)
        ensures
            r.bytes == JUPITER_PROGRAM_ID,
    {
        Address { bytes: JUPITER_PROGRAM_ID }
    }
}

/// The rules of the validation gate: the one program that a relayed call
/// may reach, and the one operation of that program it may ask for.
#[derive(Clone, Copy, Debug)]
pub struct RelayConfig {
    pub trusted_target: Address,
    pub allowed_selector: [u8; 8],
}

impl RelayConfig {
    /// Calls may go to Jupiter's `route` operation only.
    pub fn jupiter_route() -> (r: RelayConfig)
        ensures
            r.trusted_target.bytes == JUPITER_PROGRAM_ID,
            r.allowed_selector == ROUTE_SELECTOR,
    {
        RelayConfig { trusted_target: Jupiter::id(), allowed_selector: ROUTE_SELECTOR }
    }
}

/// The refusal of the validation gate, if any, for a call to `target`
/// carrying `payload`.
pub open spec fn gate_error(config: RelayConfig, target: Seq<u8>, payload: Seq<u8>) -> Option<
    ErrorCode,
> {
    if target != config.trusted_target.key() {
        Some(ErrorCode::InvalidTarget)
    } else if payload.len() < SELECTOR_LEN {
        Some(ErrorCode::MalformedPayload)
    } else if payload.subrange(0, SELECTOR_LEN as int) != config.allowed_selector@ {
        Some(ErrorCode::InvalidPayloadSelector)
    } else {
        None
    }
}

/// The leading bytes of `payload` are `selector`.
fn selector_matches(payload: &Vec<u8>, selector: &[u8; 8]) -> (r: bool)
    requires
        payload@.len() >= SELECTOR_LEN,
    ensures
        r == (payload@.subrange(0, SELECTOR_LEN as int) == selector@),
{
    let mut i: usize = 0;
    while i < SELECTOR_LEN
        invariant
            0 <= i <= SELECTOR_LEN,
            payload@.len() >= SELECTOR_LEN,
            selector@.len() == SELECTOR_LEN,
            forall|j: int| 0 <= j < i ==> payload@[j] == selector@[j],
        decreases SELECTOR_LEN - i,
    {
        if payload[i] != selector[i] {
            assert(payload@.subrange(0, SELECTOR_LEN as int)[i as int] != selector@[i as int]);
            return false;
        }
        i = i + 1;
    }
    assert(payload@.subrange(0, SELECTOR_LEN as int) =~= selector@);
    true
}

/// The validation gate: target pinning, then the payload's selector.
pub fn check_gate(config: &RelayConfig, target: &Address, payload: &Vec<u8>) -> (r: Option<
    ErrorCode,
>)
    ensures
        r == gate_error(*config, target.key(), payload@),
{
    if !target.same_as(&config.trusted_target) {
        return Some(ErrorCode::InvalidTarget);
    }
    if payload.len() < SELECTOR_LEN {
        return Some(ErrorCode::MalformedPayload);
    }
    if !selector_matches(payload, &config.allowed_selector) {
        return Some(ErrorCode::InvalidPayloadSelector);
    }
    None
}

/// An instruction for a downstream program.
#[derive(Clone, Debug)]
pub struct ForwardInstruction {
    pub program_id: Address,
    pub accounts: Vec<AccountEntry>,
    pub data: Vec<u8>,
}

/// A forwarded call ready to be issued: the instruction and the custody
/// account's authority, to be attached to that one call.
#[derive(Clone, Debug)]
pub struct SignedInvocation {
    pub instruction: ForwardInstruction,
    pub authority: Authority,
}

/// `r` is what forwarding `payload` with `accounts` to `target` gives under
/// `config`, for the relay `program_id`.
pub open spec fn forward_result(
    config: RelayConfig,
    program_id: Seq<u8>,
    target: Seq<u8>,
    payload: Seq<u8>,
    accounts: Seq<AccountEntry>,
    r: Result<SignedInvocation, ErrorCode>,
) -> bool {
    match gate_error(config, target, payload) {
        Some(e) => r == Err::<SignedInvocation, ErrorCode>(e),
        None => match program_address_search(VAULT_SEED@, program_id) {
            None => r == Err::<SignedInvocation, ErrorCode>(ErrorCode::CustodyAccountNotFound),
            Some((custody, bump)) => if !has_match(accounts, custody) {
                r == Err::<SignedInvocation, ErrorCode>(ErrorCode::CustodyAccountNotFound)
            } else {
                &&& r is Ok
                &&& r.unwrap().instruction.program_id.key() == target
                &&& r.unwrap().instruction.data@ == payload
                &&& rewritten(accounts, custody, r.unwrap().instruction.accounts@)
                &&& r.unwrap().authority.address.key() == custody
                &&& r.unwrap().authority.bump == bump
            },
        },
    }
}

/// Checks a relayed call and builds the invocation to issue: target and
/// selector first, then the custody account's authority, then the account
/// list with the custody entry promoted to signer.
pub fn token_swap(
    config: &RelayConfig,
    program_id: &Address,
    target: &Address,
    data: Vec<u8>,
    accounts: &Vec<AccountEntry>,
) -> (r: Result<SignedInvocation, ErrorCode>)
    ensures
        forward_result(*config, program_id.key(), target.key(), data@, accounts@, r),
{
    if let Some(e) = check_gate(config, target, &data) {
        return Err(e);
    }
    let authority = match derive_vault_authority(program_id) {
        Some(a) => a,
        None => {
            return Err(ErrorCode::CustodyAccountNotFound);
        },
    };
    match rewrite_accounts(accounts, &authority.address) {
        None => Err(ErrorCode::CustodyAccountNotFound),
        Some(rewritten_accounts) => {
            let instruction = ForwardInstruction {
                program_id: *target,
                accounts: rewritten_accounts,
                data,
            };
            Ok(SignedInvocation { instruction, authority })
        },
    }
}

/// The balances that initialization moves value between.
#[derive(Clone, Copy, Debug, PartialEq, Eq, Structural)]
pub struct Balances {
    pub funder: u64,
    pub custody: u64,
}

/// A direct transfer of `amount` from `from` to `to`.
#[derive(Clone, Copy, Debug)]
pub struct Transfer {
    pub from: Address,
    pub to: Address,
    pub amount: u64,
}

/// The refusal of an initialization, if any: the supplied custody address
/// must be the derived one, the custody account must hold nothing yet, and
/// the funder must hold the minimum balance.
pub open spec fn init_error(program_id: Seq<u8>, custody: Seq<u8>, before: Balances, minimum_balance: u64) -> Option<ErrorCode> {
    match program_address_search(VAULT_SEED@, program_id) {
        None => Some(ErrorCode::InvalidCustodyAddress),
        Some((derived, _bump)) => if custody != derived {
            Some(ErrorCode::InvalidCustodyAddress)
        } else if before.custody != 0 {
            Some(ErrorCode::AlreadyInitialized)
        } else if before.funder < minimum_balance {
            Some(ErrorCode::InsufficientFunds)
        } else {
            None
        },
    }
}

/// `r` and `after` are what initializing from `before` gives: on success
/// the minimum balance moves from the funder to the custody account; on a
/// refusal nothing changes.
pub open spec fn init_result(
    program_id: Seq<u8>,
    funder: Address,
    custody: Address,
    before: Balances,
    minimum_balance: u64,
    r: Result<Transfer, ErrorCode>,
    after: Balances,
) -> bool {
    match init_error(program_id, custody.key(), before, minimum_balance) {
        Some(e) => r == Err::<Transfer, ErrorCode>(e) && after == before,
        None => {
            &&& r is Ok
            &&& r.unwrap().from == funder
            &&& r.unwrap().to == custody
            &&& r.unwrap().amount == minimum_balance
            &&& after.funder == before.funder - minimum_balance
            &&& after.custody == before.custody + minimum_balance
        },
    }
}

/// Brings the custody account into existence: checks the supplied custody
/// address against the derived one, then moves the minimum balance from the
/// funder to it, and returns that transfer for the runtime to carry out.
pub fn initialize(
    program_id: &Address,
    funder: &Address,
    custody: &Address,
    balances: &mut Balances,
    minimum_balance: u64,
) -> (r: Result<Transfer, ErrorCode>)
    ensures
        init_result(program_id.key(), *funder, *custody, *old(balances), minimum_balance, r, *final(balances)),
{
    let authority = match derive_vault_authority(program_id) {
        Some(a) => a,
        None => {
            return Err(ErrorCode::InvalidCustodyAddress);
        },
    };
    if !custody.same_as(&authority.address) {
        return Err(ErrorCode::InvalidCustodyAddress);
    }
    if balances.custody != 0 {
        return Err(ErrorCode::AlreadyInitialized);
    }
    if balances.funder < minimum_balance {
        return Err(ErrorCode::InsufficientFunds);
    }
    balances.funder = balances.funder - minimum_balance;
    balances.custody = minimum_balance;
    Ok(Transfer { from: *funder, to: *custody, amount: minimum_balance })
}

/// Every call to a target other than the trusted program is refused with
/// `InvalidTarget`, and yields no call to issue.
pub proof fn lemma_untrusted_target_rejected(
    config: RelayConfig,
    program_id: Seq<u8>,
    target: Seq<u8>,
    payload: Seq<u8>,
    accounts: Seq<AccountEntry>,
    r: Result<SignedInvocation, ErrorCode>,
)
    requires
        forward_result(config, program_id, target, payload, accounts, r),
        target != config.trusted_target.key(),
    ensures
        r == Err::<SignedInvocation, ErrorCode>(ErrorCode::InvalidTarget),
{
}

/// Every call to the trusted program whose payload starts with a selector
/// other than the allowed one is refused with `InvalidPayloadSelector`,
/// whatever its account list: no rewrite takes place.
pub proof fn lemma_foreign_selector_rejected(
    config: RelayConfig,
    program_id: Seq<u8>,
    target: Seq<u8>,
    payload: Seq<u8>,
    accounts: Seq<AccountEntry>,
    r: Result<SignedInvocation, ErrorCode>,
)
    requires
        forward_result(config, program_id, target, payload, accounts, r),
        target == config.trusted_target.key(),
        payload.len() >= SELECTOR_LEN,
        payload.subrange(0, SELECTOR_LEN as int) != config.allowed_selector@,
    ensures
        r == Err::<SignedInvocation, ErrorCode>(ErrorCode::InvalidPayloadSelector),
{
}

/// Initializing twice is safe: once an initialization with a positive
/// minimum balance has succeeded, a second one on the same custody account
/// is refused with `AlreadyInitialized` and leaves both balances as they
/// were.
pub proof fn lemma_second_initialize_rejected(
    program_id: Seq<u8>,
    funder: Address,
    custody: Address,
    before: Balances,
    minimum_balance: u64,
    first: Result<Transfer, ErrorCode>,
    middle: Balances,
    second_funder: Address,
    second_minimum: u64,
    second: Result<Transfer, ErrorCode>,
    after: Balances,
)
    requires
        minimum_balance > 0,
        init_result(program_id, funder, custody, before, minimum_balance, first, middle),
        first is Ok,
        init_result(program_id, second_funder, custody, middle, second_minimum, second, after),
    ensures
        second == Err::<Transfer, ErrorCode>(ErrorCode::AlreadyInitialized),
        after == middle,
{
}

} // verus!
