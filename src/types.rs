use vstd::prelude::*;


verus! {

broadcast use vstd::array::group_array_axioms;

/// Amounts of native currency and of tokens.
pub type Balance = u128;

/// Number of token units that one whole price unit buys.
pub const TOKEN_SCALE: u128 = 1_000_000_000_000;

/// The fixed price of every round, in currency units per `TOKEN_SCALE` tokens.
pub const GAME_PRICE: u128 = 1_000_000_000_000;

/// A 32-byte account identity.
#[derive(Clone, Copy, Debug)]
pub struct AccountId {
    pub bytes: [u8; 32],
}

/// A player's position in one round.
#[derive(Clone, Copy, Debug, PartialEq, Eq, Structural)]
pub struct Player {
    pub token_balance: Balance,
    pub exited: bool,
}

/// One round.
#[derive(Clone, Copy, Debug, PartialEq, Eq, Structural)]
pub struct Game {
    pub id: u64,
    pub start_block: u32,
    pub price: Balance,
    pub crashed: bool,
    pub game_pool: Balance,
}

/// Why an operation was refused; a refused operation changes nothing.
#[derive(Clone, Copy, Debug, PartialEq, Eq, Structural)]
pub enum Error {
    PermissionDenied,
    NoActiveRound,
    RoundCrashed,
    NoFundsSent,
    PlayerNotFound,
    AlreadyExited,
    InsufficientCasinoFunds,
    TransferFailed,
}

impl AccountId {
    /// Whether two identities are the same 32 bytes.
    pub fn same(&self, other: &AccountId) -> (r: bool)
        ensures
            r == (*self == *other),
    {
        let mut i: usize = 0;
        while i < 32
            invariant
                0 <= i <= 32,
                forall|j: int| 0 <= j < i ==> self.bytes[j] == other.bytes[j],
            decreases 32 - i,
        {
            if self.bytes[i] != other.bytes[i] {
                return false;
            }
            i = i + 1;
        }
        assert(self.bytes =~= other.bytes);
        true
    }
}

} // verus!
