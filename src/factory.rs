use crate::error::ContractError;
use crate::msg::{Coin, Receiver, VestingStrategy};
use vstd::prelude::*;

verus! {

/// Correlation tag of the completion notification of a vesting deployment.
pub const INSTANTIATE_VESTING_ID: u64 = 1;

/// Creation parameters of a factory.
#[derive(Clone, Debug, PartialEq, Eq)]
pub struct InstantiateMsg {
    pub vesting_code_id: u64,
}

#[derive(Clone, Debug, PartialEq, Eq)]
pub enum ExecuteMsg {
    /// Deploy a new vesting instance with the attached funds.
    CreateVesting { receiver: Receiver, vesting_strategy: VestingStrategy, label: String },
}

#[derive(Clone, Debug, PartialEq, Eq)]
pub enum QueryMsg {
    GetVestingAddr { receiver: String },
}

/// Persistent state of a factory.
#[derive(Clone, Debug, PartialEq, Eq)]
pub struct FactoryState {
    pub vesting_code_id: u64,
    /// Receiver of the one deployment awaiting its completion notification.
    pub init_for: Option<String>,
    /// Receiver to instance address, in order of recording; a later entry for
    /// a receiver overrides an earlier one.
    pub vesting_contracts: Vec<(String, String)>,
}

/// A request to the host to deploy a vesting instance and to notify the
/// factory, under `reply_id`, once it exists.
#[derive(Clone, Debug, PartialEq, Eq)]
pub struct InstantiateRequest {
    pub code_id: u64,
    pub msg: crate::msg::InstantiateMsg,
    pub funds: Vec<Coin>,
    pub label: String,
    pub reply_id: u64,
}

/// The address recorded last for `key` in `entries`.
pub open spec fn lookup(entries: Seq<(String, String)>, key: Seq<char>) -> Option<Seq<char>>
    decreases entries.len(),
{
    if entries.len() == 0 {
        None
    } else if entries.last().0@ == key {
        Some(entries.last().1@)
    } else {
        lookup(entries.drop_last(), key)
    }
}

impl FactoryState {
    /// The instance address recorded for `receiver`.
    pub open spec fn vesting_addr(&self, receiver: Seq<char>) -> Option<Seq<char>> {
        lookup(self.vesting_contracts@, receiver)
    }
}

/// Address of the instance that a deployment-completion payload announces,
/// if the payload decodes.
pub uninterp spec fn instantiated_address(data: Seq<u8>) -> Option<Seq<char>>;

/// Relies on cw_utils::parse_instantiate_response_data to decode the protobuf
/// instantiate response; its outcome depends on the bytes alone.
#[verifier::external_body]
fn parse_instantiate_address(data: &Vec<u8>) -> (r: Result<String, String>)
    ensures
        r is Ok <==> instantiated_address(data@) is Some,
        r matches Ok(a) ==> instantiated_address(data@) == Some(a@),
{
    match cw_utils::parse_instantiate_response_data(data.as_slice()) {
        Ok(res) => Ok(res.contract_address),
        Err(e) => Err(e.to_string()),
    }
}

fn find(entries: &Vec<(String, String)>, key: &String) -> (r: Option<String>)
    ensures
        r is None ==> lookup(entries@, key@) is None,
        r matches Some(a) ==> lookup(entries@, key@) == Some(a@),
{
    let mut i: usize = entries.len();
    assert(entries@.subrange(0, i as int) =~= entries@);
    while i > 0
        invariant
            i <= entries.len(),
            lookup(entries@, key@) == lookup(entries@.subrange(0, i as int), key@),
        decreases i,
    {
        let e = &entries[i - 1];
        if e.0 == *key {
            return Some(e.1.clone());
        }
        assert(entries@.subrange(0, i as int).drop_last() =~= entries@.subrange(0, i - 1));
        i = i - 1;
    }
    None
}

/// A new factory that deploys instances of the vesting template `vesting_code_id`.
pub fn instantiate(msg: InstantiateMsg) -> (r: FactoryState)
    ensures
        r.vesting_code_id == msg.vesting_code_id,
        r.init_for is None,
        r.vesting_contracts@.len() == 0,
        forall|k: Seq<char>| r.vesting_addr(k) is None,
{
    FactoryState { vesting_code_id: msg.vesting_code_id, init_for: None, vesting_contracts: Vec::new() }
}

/// Asks for a vesting instance for `receiver`, funded with `funds`, and
/// remembers the receiver until the deployment completes. Any receiver still
/// pending is forgotten.
pub fn execute_create_vesting(
    state: &mut FactoryState,
    funds: Vec<Coin>,
    receiver: Receiver,
    vesting_strategy: VestingStrategy,
    label: String,
) -> (r: Result<InstantiateRequest, ContractError>)
    ensures
        funds.len() == 0 ==> r == Err::<InstantiateRequest, ContractError>(ContractError::NoFundsSent)
            && *final(state) == *old(state),
        funds.len() > 0 ==> r == Ok::<InstantiateRequest, ContractError>(InstantiateRequest {
            code_id: old(state).vesting_code_id,
            msg: crate::msg::InstantiateMsg { receiver, strategy: vesting_strategy },
            funds,
            label,
            reply_id: INSTANTIATE_VESTING_ID,
        }),
        funds.len() > 0 ==> final(state).vesting_code_id == old(state).vesting_code_id
            && final(state).vesting_contracts == old(state).vesting_contracts
            && (final(state).init_for matches Some(a) && a@ == receiver.address_view()),
{
    if funds.len() == 0 {
        return Err(ContractError::NoFundsSent);
    }
    let receiver_addr = match &receiver {
        Receiver::Ibc { address, .. } => address.clone(),
        Receiver::Native { address } => address.clone(),
    };
    let request = InstantiateRequest {
        code_id: state.vesting_code_id,
        msg: crate::msg::InstantiateMsg { receiver, strategy: vesting_strategy },
        funds,
        label,
        reply_id: INSTANTIATE_VESTING_ID,
    };
    state.init_for = Some(receiver_addr);
    Ok(request)
}

/// Dispatches an execute message of the factory.
pub fn execute(state: &mut FactoryState, funds: Vec<Coin>, msg: ExecuteMsg) -> (r: Result<InstantiateRequest, ContractError>)
    ensures
        match msg {
            ExecuteMsg::CreateVesting { receiver, vesting_strategy, label } => {
                &&& funds.len() == 0 ==> r == Err::<InstantiateRequest, ContractError>(ContractError::NoFundsSent)
                    && *final(state) == *old(state)
                &&& funds.len() > 0 ==> r == Ok::<InstantiateRequest, ContractError>(InstantiateRequest {
                    code_id: old(state).vesting_code_id,
                    msg: crate::msg::InstantiateMsg { receiver, strategy: vesting_strategy },
                    funds,
                    label,
                    reply_id: INSTANTIATE_VESTING_ID,
                })
                &&& funds.len() > 0 ==> final(state).vesting_code_id == old(state).vesting_code_id
                    && final(state).vesting_contracts == old(state).vesting_contracts
                    && (final(state).init_for matches Some(a) && a@ == receiver.address_view())
            },
        },
{
    match msg {
        ExecuteMsg::CreateVesting { receiver, vesting_strategy, label } =>
            execute_create_vesting(state, funds, receiver, vesting_strategy, label),
    }
}

/// Records `address` as the instance of the pending receiver and clears the
/// pending slot; fails, changing nothing, where no receiver is pending.
pub fn record_instantiated(state: &mut FactoryState, address: String) -> (r: Result<String, ContractError>)
    ensures
        old(state).init_for is None ==> (r matches Err(ContractError::Std(_))) && *final(state) == *old(state),
        old(state).init_for matches Some(k) ==> {
            &&& r == Ok::<String, ContractError>(address)
            &&& final(state).init_for is None
            &&& final(state).vesting_code_id == old(state).vesting_code_id
            &&& final(state).vesting_contracts@ == old(state).vesting_contracts@.push((k, address))
            &&& forall|x: Seq<char>| #[trigger] final(state).vesting_addr(x)
                == if x == k@ { Some(address@) } else { old(state).vesting_addr(x) }
        },
{
    match state.init_for.take() {
        None => Err(ContractError::Std("pending receiver not found".to_string())),
        Some(receiver) => {
            let ghost before = state.vesting_contracts@;
            state.vesting_contracts.push((receiver, address.clone()));
            proof {
                assert(state.vesting_contracts@.drop_last() =~= before);
            }
            Ok(address)
        },
    }
}

/// Handles a deployment-completion notification tagged `id` carrying `data`.
pub fn reply(state: &mut FactoryState, id: u64, data: Option<Vec<u8>>) -> (r: Result<String, ContractError>)
    ensures
        id != INSTANTIATE_VESTING_ID ==> r == Err::<String, ContractError>(ContractError::InvalidReplyId(id))
            && *final(state) == *old(state),
        id == INSTANTIATE_VESTING_ID && data is None ==> (r matches Err(ContractError::ParseReplyError(_)))
            && *final(state) == *old(state),
        id == INSTANTIATE_VESTING_ID && (data matches Some(d) && instantiated_address(d@) is None)
            ==> (r matches Err(ContractError::ParseReplyError(_))) && *final(state) == *old(state),
        id == INSTANTIATE_VESTING_ID && (data matches Some(d) && instantiated_address(d@) is Some)
            && old(state).init_for is None ==> (r matches Err(ContractError::Std(_))) && *final(state) == *old(state),
        id == INSTANTIATE_VESTING_ID && (data matches Some(d) && instantiated_address(d@) is Some)
            && old(state).init_for is Some ==> (r matches Ok(a) && Some(a@) == instantiated_address(data->Some_0@)
            && final(state).init_for is None
            && final(state).vesting_code_id == old(state).vesting_code_id
            && final(state).vesting_contracts@ == old(state).vesting_contracts@.push((old(state).init_for->Some_0, a))),
{
    if id != INSTANTIATE_VESTING_ID {
        return Err(ContractError::InvalidReplyId(id));
    }
    let address = match data {
        None => {
            return Err(ContractError::ParseReplyError("Missing reply data".to_string()));
        },
        Some(d) => match parse_instantiate_address(&d) {
            Ok(a) => a,
            Err(e) => {
                return Err(ContractError::ParseReplyError(e));
            },
        },
    };
    record_instantiated(state, address)
}

/// Answers a query of the factory.
pub fn query(state: &FactoryState, msg: QueryMsg) -> (r: Result<String, ContractError>)
    ensures
        match msg {
            QueryMsg::GetVestingAddr { receiver } => match state.vesting_addr(receiver@) {
                Some(a) => r matches Ok(x) && x@ == a,
                None => r matches Err(ContractError::Std(_)),
            },
        },
{
    match msg {
        QueryMsg::GetVestingAddr { receiver } => match find(&state.vesting_contracts, &receiver) {
            Some(a) => Ok(a),
            None => Err(ContractError::Std("vesting contract not found".to_string())),
        },
    }
}

} // verus!
