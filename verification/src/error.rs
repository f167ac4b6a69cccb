//! Error kinds of the swap engine.

use vstd::prelude::*;
use crate::text::{join2, join3};

verus! {

/// Everything that can go wrong while a trade is driven.
#[derive(Clone, Debug)]
pub enum ErrorKind {
    /// Persistence failure or duplicate trade: trade id, then the reason.
    TradeIoError(String, String),
    /// The trade is handled by the wrong party.
    UnexpectedRole(String),
    /// The adapter does not serve this secondary currency.
    UnexpectedCoinType,
    /// A message arrived out of protocol order.
    UnexpectedMessageType(String),
    /// An operation was asked for that the trade is not ready for.
    UnexpectedAction(String),
    /// An irreversible operation was attempted a second time.
    OneShot(String),
    /// A secondary-chain address does not parse.
    InvalidAddress(String),
    /// An amount or a time span of an offer is out of range.
    InvalidAmount(String),
    /// The wallet cannot fund the trade.
    NotEnoughFunds(String),
    /// Transient failure of a chain node: chain name, then the reason.
    NodeError(String, String),
    /// The secondary currency name is not known.
    InvalidCurrency(String),
    /// The input is not accepted by the current state.
    InvalidSwapStateInput(String),
    /// The state machine holds no handler for the state.
    SwapStateMachineError(String),
    /// A message refers to a phase the trade has left for good.
    StateMismatch(String),
    /// The trade cannot be cancelled in its current state.
    NotCancellable,
    /// A protocol deadline has passed.
    DeadlinePassed(String),
    /// The signing context failed.
    Secp(String),
    /// Fallback with a precise human message.
    Generic(String),
}

/// Error kind without its payload, for use in contracts.
#[derive(Clone, Copy, Debug, PartialEq, Eq, Structural)]
pub enum ErrorCode {
    TradeIoError,
    UnexpectedRole,
    UnexpectedCoinType,
    UnexpectedMessageType,
    UnexpectedAction,
    OneShot,
    InvalidAddress,
    InvalidAmount,
    NotEnoughFunds,
    NodeError,
    InvalidCurrency,
    InvalidSwapStateInput,
    SwapStateMachineError,
    StateMismatch,
    NotCancellable,
    DeadlinePassed,
    Secp,
    Generic,
}

impl ErrorKind {
    /// The kind of this error.
    pub open spec fn spec_code(&self) -> ErrorCode {
        match *self {
            ErrorKind::TradeIoError(_, _) => ErrorCode::TradeIoError,
            ErrorKind::UnexpectedRole(_) => ErrorCode::UnexpectedRole,
            ErrorKind::UnexpectedCoinType => ErrorCode::UnexpectedCoinType,
            ErrorKind::UnexpectedMessageType(_) => ErrorCode::UnexpectedMessageType,
            ErrorKind::UnexpectedAction(_) => ErrorCode::UnexpectedAction,
            ErrorKind::OneShot(_) => ErrorCode::OneShot,
            ErrorKind::InvalidAddress(_) => ErrorCode::InvalidAddress,
            ErrorKind::InvalidAmount(_) => ErrorCode::InvalidAmount,
            ErrorKind::NotEnoughFunds(_) => ErrorCode::NotEnoughFunds,
            ErrorKind::NodeError(_, _) => ErrorCode::NodeError,
            ErrorKind::InvalidCurrency(_) => ErrorCode::InvalidCurrency,
            ErrorKind::InvalidSwapStateInput(_) => ErrorCode::InvalidSwapStateInput,
            ErrorKind::SwapStateMachineError(_) => ErrorCode::SwapStateMachineError,
            ErrorKind::StateMismatch(_) => ErrorCode::StateMismatch,
            ErrorKind::NotCancellable => ErrorCode::NotCancellable,
            ErrorKind::DeadlinePassed(_) => ErrorCode::DeadlinePassed,
            ErrorKind::Secp(_) => ErrorCode::Secp,
            ErrorKind::Generic(_) => ErrorCode::Generic,
        }
    }

    /// The text of this error for the operator.
    pub open spec fn spec_text(&self) -> Seq<char> {
        match *self {
            ErrorKind::TradeIoError(id, m) => "Swap trade "@ + id@ + " IO error, "@ + m@,
            ErrorKind::UnexpectedRole(m) => "Unexpected role, "@ + m@,
            ErrorKind::UnexpectedCoinType => "Unexpected coin type"@,
            ErrorKind::UnexpectedMessageType(m) => "Unexpected message type, "@ + m@,
            ErrorKind::UnexpectedAction(m) => "Unexpected action, "@ + m@,
            ErrorKind::OneShot(m) => "This function should only be called once, "@ + m@,
            ErrorKind::InvalidAddress(m) => "Invalid address, "@ + m@,
            ErrorKind::InvalidAmount(m) => "Invalid amount, "@ + m@,
            ErrorKind::NotEnoughFunds(m) => "Not enough funds, "@ + m@,
            ErrorKind::NodeError(chain, m) => chain@ + " node error, "@ + m@,
            ErrorKind::InvalidCurrency(m) => "Unknown currency "@ + m@,
            ErrorKind::InvalidSwapStateInput(m) => "Invalid input for the state, "@ + m@,
            ErrorKind::SwapStateMachineError(m) => "Swap state machine error, "@ + m@,
            ErrorKind::StateMismatch(m) => "State mismatch, "@ + m@,
            ErrorKind::NotCancellable => "The trade is not cancellable"@,
            ErrorKind::DeadlinePassed(m) => "Deadline passed, "@ + m@,
            ErrorKind::Secp(m) => "Secp error, "@ + m@,
            ErrorKind::Generic(m) => m@,
        }
    }

    /// The text of this error for the operator.
    pub fn to_string(&self) -> (text: String)
        ensures
            text@ == self.spec_text(),
    {
        match self {
            ErrorKind::TradeIoError(id, m) => {
                let head = join3("Swap trade ", id.as_str(), " IO error, ");
                join2(head.as_str(), m.as_str())
            },
            ErrorKind::UnexpectedRole(m) => join2("Unexpected role, ", m.as_str()),
            ErrorKind::UnexpectedCoinType => "Unexpected coin type".to_owned(),
            ErrorKind::UnexpectedMessageType(m) => join2("Unexpected message type, ", m.as_str()),
            ErrorKind::UnexpectedAction(m) => join2("Unexpected action, ", m.as_str()),
            ErrorKind::OneShot(m) => join2(
                "This function should only be called once, ",
                m.as_str(),
            ),
            ErrorKind::InvalidAddress(m) => join2("Invalid address, ", m.as_str()),
            ErrorKind::InvalidAmount(m) => join2("Invalid amount, ", m.as_str()),
            ErrorKind::NotEnoughFunds(m) => join2("Not enough funds, ", m.as_str()),
            ErrorKind::NodeError(chain, m) => join3(chain.as_str(), " node error, ", m.as_str()),
            ErrorKind::InvalidCurrency(m) => join2("Unknown currency ", m.as_str()),
            ErrorKind::InvalidSwapStateInput(m) => join2(
                "Invalid input for the state, ",
                m.as_str(),
            ),
            ErrorKind::SwapStateMachineError(m) => join2("Swap state machine error, ", m.as_str()),
            ErrorKind::StateMismatch(m) => join2("State mismatch, ", m.as_str()),
            ErrorKind::NotCancellable => "The trade is not cancellable".to_owned(),
            ErrorKind::DeadlinePassed(m) => join2("Deadline passed, ", m.as_str()),
            ErrorKind::Secp(m) => join2("Secp error, ", m.as_str()),
            ErrorKind::Generic(m) => m.clone(),
        }
    }

    /// The kind of this error.
    #[verifier::when_used_as_spec(spec_code)]
    pub fn code(&self) -> (c: ErrorCode)
        ensures
            c == self.spec_code(),
    {
        match self {
            ErrorKind::TradeIoError(_, _) => ErrorCode::TradeIoError,
            ErrorKind::UnexpectedRole(_) => ErrorCode::UnexpectedRole,
            ErrorKind::UnexpectedCoinType => ErrorCode::UnexpectedCoinType,
            ErrorKind::UnexpectedMessageType(_) => ErrorCode::UnexpectedMessageType,
            ErrorKind::UnexpectedAction(_) => ErrorCode::UnexpectedAction,
            ErrorKind::OneShot(_) => ErrorCode::OneShot,
            ErrorKind::InvalidAddress(_) => ErrorCode::InvalidAddress,
            ErrorKind::InvalidAmount(_) => ErrorCode::InvalidAmount,
            ErrorKind::NotEnoughFunds(_) => ErrorCode::NotEnoughFunds,
            ErrorKind::NodeError(_, _) => ErrorCode::NodeError,
            ErrorKind::InvalidCurrency(_) => ErrorCode::InvalidCurrency,
            ErrorKind::InvalidSwapStateInput(_) => ErrorCode::InvalidSwapStateInput,
            ErrorKind::SwapStateMachineError(_) => ErrorCode::SwapStateMachineError,
            ErrorKind::StateMismatch(_) => ErrorCode::StateMismatch,
            ErrorKind::NotCancellable => ErrorCode::NotCancellable,
            ErrorKind::DeadlinePassed(_) => ErrorCode::DeadlinePassed,
            ErrorKind::Secp(_) => ErrorCode::Secp,
            ErrorKind::Generic(_) => ErrorCode::Generic,
        }
    }
}

/// True when `r` failed with an error of kind `code`.
pub open spec fn fails_with<T>(r: Result<T, ErrorKind>, code: ErrorCode) -> bool {
    r is Err && r->Err_0.spec_code() == code
}

/// True when `r` failed with a `TradeIoError` that names the trade `id`.
pub open spec fn is_trade_io_error<T>(r: Result<T, ErrorKind>, id: Seq<char>) -> bool {
    r matches Err(ErrorKind::TradeIoError(t, _)) && t@ == id
}

} // verus!
