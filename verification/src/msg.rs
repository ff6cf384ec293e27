//! The message surface: commands, router callbacks, queries and their
//! answers, and the outbound notifications the handlers emit.

use vstd::prelude::*;
use crate::typing::{BondStatus, Coin, Config};

verus! {

/// Creates the handler with its immutable configuration.
pub struct InstantiateMsg {
    pub config: Config,
}

/// The response of a router once funds are successfully bonded.
pub struct BondResponse {
    pub share_amount: u128,
    pub bond_id: String,
}

/// The response of a router once shares successfully start unbonding.
pub struct StartUnbondResponse {
    pub unbond_id: String,
}

/// The response of a router once unbonded funds are returned.
pub struct UnbondResponse {
    pub unbond_id: String,
}

/// A confirmation arriving from one of the two routers, one call per router
/// per logical operation.
pub enum Callback {
    BondResponse(BondResponse),
    StartUnbondResponse(StartUnbondResponse),
    UnbondResponse(UnbondResponse),
}

impl Clone for BondResponse {
    fn clone(&self) -> (r: Self)
        ensures
            r == *self,
    {
        BondResponse { share_amount: self.share_amount, bond_id: self.bond_id.clone() }
    }
}

impl Clone for StartUnbondResponse {
    fn clone(&self) -> (r: Self)
        ensures
            r == *self,
    {
        StartUnbondResponse { unbond_id: self.unbond_id.clone() }
    }
}

impl Clone for UnbondResponse {
    fn clone(&self) -> (r: Self)
        ensures
            r == *self,
    {
        UnbondResponse { unbond_id: self.unbond_id.clone() }
    }
}

impl Clone for Callback {
    fn clone(&self) -> (r: Self)
        ensures
            r == *self,
    {
        match self {
            Callback::BondResponse(response) => Callback::BondResponse(response.clone()),
            Callback::StartUnbondResponse(response) => Callback::StartUnbondResponse(
                response.clone(),
            ),
            Callback::UnbondResponse(response) => Callback::UnbondResponse(response.clone()),
        }
    }
}

/// A caller-authenticated command.
pub enum ExecuteMsg {
    Bond { id: String },
    StartUnbond { id: String, share_amount: u128 },
    Unbond { id: String, share_amount: u128 },
    Callback(Callback),
}

impl Clone for ExecuteMsg {
    fn clone(&self) -> (r: Self)
        ensures
            r == *self,
    {
        match self {
            ExecuteMsg::Bond { id } => ExecuteMsg::Bond { id: id.clone() },
            ExecuteMsg::StartUnbond { id, share_amount } => ExecuteMsg::StartUnbond {
                id: id.clone(),
                share_amount: *share_amount,
            },
            ExecuteMsg::Unbond { id, share_amount } => ExecuteMsg::Unbond {
                id: id.clone(),
                share_amount: *share_amount,
            },
            ExecuteMsg::Callback(callback) => ExecuteMsg::Callback(callback.clone()),
        }
    }
}

/// A read-only query.
pub enum QueryMsg {
    GetConfig {},
    GetBondStatus { id: String },
    GetSharesAvailableUnbond { id: String },
}

pub struct GetConfigResponse {
    pub config: Config,
}

pub struct GetBondStatusResponse {
    pub bond_status: Option<BondStatus>,
}

pub struct GetSharesAvailableUnbondResponse {
    pub shares_available_unbond: u128,
}

/// A notification sent to a router collaborator.
#[derive(Debug)]
pub enum ExternalExecuteMsg {
    OnBond { id: String },
    OnStartUnbond { id: String, share_amount: u128 },
    OnUnbond { id: String, share_amount: u128 },
}

/// One outbound notification: the router it goes to, its payload, and the
/// funds attached to it.
#[derive(Debug)]
pub struct Notification {
    pub router: String,
    pub payload: ExternalExecuteMsg,
    pub funds: Vec<Coin>,
}

/// An outbound transfer of returned funds to a position's owner.
#[derive(Debug)]
pub struct FundsTransfer {
    pub to_address: String,
    pub funds: Vec<Coin>,
}

/// What a successful command or callback hands back to its environment.
#[derive(Debug)]
pub struct Response {
    pub notifications: Vec<Notification>,
    pub transfers: Vec<FundsTransfer>,
}

impl Response {
    /// A response that carries no outbound messages.
    pub fn empty() -> (r: Response)
        ensures
            r.notifications@ =~= Seq::<Notification>::empty(),
            r.transfers@ =~= Seq::<FundsTransfer>::empty(),
    {
        Response { notifications: Vec::new(), transfers: Vec::new() }
    }
}

/// The answer to a query, one variant per query kind.
pub enum QueryAnswer {
    Config(GetConfigResponse),
    BondStatus(GetBondStatusResponse),
    SharesAvailableUnbond(GetSharesAvailableUnbondResponse),
}

} // verus!
