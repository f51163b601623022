//! Why the ledger refuses an operation.

use vstd::prelude::*;
use vstd::string::StringExecFns;

verus! {

/// The reason for which an operation was refused. A refused operation leaves
/// the ledger as it was.
#[derive(Debug, Clone, Copy, PartialEq, Eq, Structural)]
pub enum ContractError {
    /// The ledger has been initialised before.
    AlreadyInitialized,
    /// The storage readings taken at initialisation cannot be turned into a
    /// cost: the usage went down, or grew by less than is taken from it.
    StorageAnomaly,
    /// The token name is as long as the limit for guests, or longer.
    TokenIdTooLong,
    /// The metadata is as long as the limit for guests, or longer.
    MetadataTooLong,
    /// The key that signed the call belongs to no guest.
    NotAGuest,
    /// The key of the guest to remove belongs to no guest.
    GuestNotRegistered,
    /// The guest has used every sponsored mint.
    MintLimitExceeded,
    /// A token of that name exists.
    TokenAlreadyExists,
    /// The ledger cannot count another token.
    SupplyOverflow,
    /// The deposit for the marketplace is above the ceiling.
    DepositTooLarge,
    /// No token of that name exists.
    TokenNotFound,
    /// The guest does not hold the token.
    NotTokenOwner,
    /// The token is listed on a marketplace already.
    AlreadyListed,
    /// The token is not listed on exactly one marketplace.
    NoSale,
    /// The key that signed the request for a promotion belongs to no guest.
    NoGuest,
    /// No guest is found under the key that was looked up.
    GuestNotFound,
    /// The guest's balance does not exceed the sponsor fee.
    NotEnoughToUpgrade,
    /// The callback did not come with exactly one outcome.
    UnexpectedResultCount,
    /// The caller is not the owner of the ledger.
    NotOwner,
    /// The account holds an entry in the owner index already.
    AccountAlreadyRegistered,
    /// The signing key belongs to a guest already.
    GuestAlreadyAdded,
}

impl ContractError {
    /// The message with which a call that was refused for this reason ends.
    pub open spec fn text(self) -> Seq<char> {
        match self {
            ContractError::AlreadyInitialized => "Already initialized"@,
            ContractError::StorageAnomaly => "Storage usage could not be measured"@,
            ContractError::TokenIdTooLong => "Token ID too long for guest mint"@,
            ContractError::MetadataTooLong => "Metadata too long for guest mint"@,
            ContractError::NotAGuest => "Not a guest"@,
            ContractError::GuestNotRegistered => "not a guest"@,
            ContractError::MintLimitExceeded => "Exceeded guest mint limit 3"@,
            ContractError::TokenAlreadyExists => "Token already exists"@,
            ContractError::SupplyOverflow => "Total supply overflow"@,
            ContractError::DepositTooLarge =>
                "Cannot make market deposits more than 100000000000000000000000"@,
            ContractError::TokenNotFound => "Token not found"@,
            ContractError::NotTokenOwner => "Guest is not the token owner"@,
            ContractError::AlreadyListed => "Can only approve one market at a time as guest"@,
            ContractError::NoSale => "No sale at market"@,
            ContractError::NoGuest => "No guest"@,
            ContractError::GuestNotFound => "no guest"@,
            ContractError::NotEnoughToUpgrade => "Not enough to upgrade"@,
            ContractError::UnexpectedResultCount => "Contract expected a result on the callback"@,
            ContractError::NotOwner => "must be owner_id"@,
            ContractError::AccountAlreadyRegistered => "The account is already registered"@,
            ContractError::GuestAlreadyAdded => "guest account already added"@,
        }
    }

    /// The message with which a call that was refused for this reason ends.
    pub fn message(&self) -> (r: String)
        ensures
            r@ == self.text(),
    {
        match self {
            ContractError::AlreadyInitialized => String::from_str("Already initialized"),
            ContractError::StorageAnomaly => String::from_str(
                "Storage usage could not be measured",
            ),
            ContractError::TokenIdTooLong => String::from_str("Token ID too long for guest mint"),
            ContractError::MetadataTooLong => String::from_str("Metadata too long for guest mint"),
            ContractError::NotAGuest => String::from_str("Not a guest"),
            ContractError::GuestNotRegistered => String::from_str("not a guest"),
            ContractError::MintLimitExceeded => String::from_str("Exceeded guest mint limit 3"),
            ContractError::TokenAlreadyExists => String::from_str("Token already exists"),
            ContractError::SupplyOverflow => String::from_str("Total supply overflow"),
            ContractError::DepositTooLarge => String::from_str(
                "Cannot make market deposits more than 100000000000000000000000",
            ),
            ContractError::TokenNotFound => String::from_str("Token not found"),
            ContractError::NotTokenOwner => String::from_str("Guest is not the token owner"),
            ContractError::AlreadyListed => String::from_str(
                "Can only approve one market at a time as guest",
            ),
            ContractError::NoSale => String::from_str("No sale at market"),
            ContractError::NoGuest => String::from_str("No guest"),
            ContractError::GuestNotFound => String::from_str("no guest"),
            ContractError::NotEnoughToUpgrade => String::from_str("Not enough to upgrade"),
            ContractError::UnexpectedResultCount => String::from_str(
                "Contract expected a result on the callback",
            ),
            ContractError::NotOwner => String::from_str("must be owner_id"),
            ContractError::AccountAlreadyRegistered => String::from_str(
                "The account is already registered",
            ),
            ContractError::GuestAlreadyAdded => String::from_str("guest account already added"),
        }
    }

    /// The message of [`ContractError::text`], followed by `market_id` where
    /// the reason is that there is no sale.
    pub open spec fn text_naming(self, market_id: Seq<char>) -> Seq<char> {
        if self is NoSale {
            self.text() + " "@ + market_id
        } else {
            self.text()
        }
    }

    /// The message with which a call about the marketplace `market_id` ends
    /// when it is refused for this reason. A refusal for want of a sale names
    /// the marketplace.
    pub fn message_naming(&self, market_id: &String) -> (r: String)
        ensures
            r@ == self.text_naming(market_id@),
    {
        let mut message = self.message();
        match self {
            ContractError::NoSale => {
                message.append(" ");
                message.append(market_id.as_str());
            },
            _ => {},
        }
        message
    }
}

} // verus!
