//! Simple ledger-account programs built on the same custody discipline as
//! the engine, as pure state transformers: each instruction maps the stored
//! state to the next one, and every balance mutation is checked rather than
//! wrapped unless the program's operation is a deliberate wraparound.

use vstd::prelude::*;
use vstd::wrapping::u64_specs;

use crate::errors::CustodyError;

verus! {

/// A simple custody balance: the bank-account program's state.
#[derive(Clone, Copy, Debug, PartialEq, Eq, Structural)]
pub struct BankAccount {
    pub balance: u64,
}

/// The bank-account program's instructions.
#[derive(Clone, Copy, Debug, PartialEq, Eq, Structural)]
pub enum BankInstruction {
    Increment,
    Double,
}

impl BankAccount {
    /// The state a fresh bank account is initialized with.
    pub fn new() -> (a: BankAccount)
        ensures
            a.balance == 0,
    {
        BankAccount { balance: 0 }
    }

    /// Applies one instruction: incrementing adds one, doubling multiplies by
    /// two, and a result that would not fit in a `u64` is rejected with
    /// `ArithmeticFault` and leaves nothing changed.
    pub fn apply(&self, instruction: BankInstruction) -> (r: Result<BankAccount, CustodyError>)
        ensures
            match r {
                Ok(a) => match instruction {
                    BankInstruction::Increment => self.balance + 1 <= u64::MAX && a.balance
                        == self.balance + 1,
                    BankInstruction::Double => self.balance * 2 <= u64::MAX && a.balance
                        == self.balance * 2,
                },
                Err(e) => e == CustodyError::ArithmeticFault && match instruction {
                    BankInstruction::Increment => self.balance + 1 > u64::MAX,
                    BankInstruction::Double => self.balance * 2 > u64::MAX,
                },
            },
    {
        match instruction {
            BankInstruction::Increment => match self.balance.checked_add(1) {
                Some(b) => Ok(BankAccount { balance: b }),
                None => Err(CustodyError::ArithmeticFault),
            },
            BankInstruction::Double => match self.balance.checked_mul(2) {
                Some(b) => Ok(BankAccount { balance: b }),
                None => Err(CustodyError::ArithmeticFault),
            },
        }
    }
}

/// The fee-charging wallet program's state.
#[derive(Clone, Copy, Debug, PartialEq, Eq, Structural)]
pub struct Wallet {
    pub balance: u64,
    pub fee_rate: u8,
}

/// The wallet program's instructions.
#[derive(Clone, Copy, Debug, PartialEq, Eq, Structural)]
pub enum WalletInstruction {
    SetFee(u8),
    Transfer(u64),
}

impl Wallet {
    /// The state a fresh wallet is initialized with.
    pub fn new() -> (w: Wallet)
        ensures
            w.balance == 0,
            w.fee_rate == 0,
    {
        Wallet { balance: 0, fee_rate: 0 }
    }

    /// The fee charged on a transfer of `amount` at rate `rate` percent.
    pub open spec fn spec_fee(amount: u64, rate: u8) -> int {
        (amount * rate) / 100
    }

    /// Applies one instruction. Setting a fee clamps the rate to 100 percent
    /// and never fails. A transfer debits the amount plus the fee; a fee
    /// computation that would overflow, or a debit the balance cannot cover,
    /// is rejected with `ArithmeticFault` and leaves nothing changed.
    pub fn apply(&self, instruction: WalletInstruction) -> (r: Result<Wallet, CustodyError>)
        ensures
            match r {
                Ok(w) => match instruction {
                    WalletInstruction::SetFee(rate) => w.balance == self.balance
                        && w.fee_rate == if rate < 100 {
                        rate as int
                    } else {
                        100
                    },
                    WalletInstruction::Transfer(amount) => {
                        &&& amount * self.fee_rate <= u64::MAX
                        &&& self.balance >= amount + Self::spec_fee(amount, self.fee_rate)
                        &&& w.balance == self.balance - amount - Self::spec_fee(
                            amount,
                            self.fee_rate,
                        )
                        &&& w.fee_rate == self.fee_rate
                    },
                },
                Err(e) => e == CustodyError::ArithmeticFault && match instruction {
                    WalletInstruction::SetFee(_) => false,
                    WalletInstruction::Transfer(amount) => amount * self.fee_rate
                        > u64::MAX || self.balance < amount + Self::spec_fee(
                        amount,
                        self.fee_rate,
                    ),
                },
            },
    {
        match instruction {
            WalletInstruction::SetFee(rate) => {
                let clamped = if rate < 100 {
                    rate
                } else {
                    100
                };
                Ok(Wallet { balance: self.balance, fee_rate: clamped })
            },
            WalletInstruction::Transfer(amount) => {
                let product = match amount.checked_mul(self.fee_rate as u64) {
                    Some(p) => p,
                    None => { return Err(CustodyError::ArithmeticFault) },
                };
                let fee = product / 100;
                let after_amount = match self.balance.checked_sub(amount) {
                    Some(b) => b,
                    None => { return Err(CustodyError::ArithmeticFault) },
                };
                let after_fee = match after_amount.checked_sub(fee) {
                    Some(b) => b,
                    None => { return Err(CustodyError::ArithmeticFault) },
                };
                Ok(Wallet { balance: after_fee, fee_rate: self.fee_rate })
            },
        }
    }
}

/// The discounting marketplace program's state.
#[derive(Clone, Copy, Debug, PartialEq, Eq, Structural)]
pub struct Marketplace {
    pub price: u64,
    pub discount_threshold: u64,
}

/// The marketplace program's instructions.
#[derive(Clone, Copy, Debug, PartialEq, Eq, Structural)]
pub enum MarketInstruction {
    ApplyDiscount,
    SetPrice(u64),
}

impl Marketplace {
    /// The state a fresh marketplace is initialized with.
    pub fn new() -> (m: Marketplace)
        ensures
            m.price == 0,
            m.discount_threshold == 100,
    {
        Marketplace { price: 0, discount_threshold: 100 }
    }

    /// Applies one instruction. A discount reduces a price strictly above the
    /// threshold to 75 percent of itself and leaves a lower price alone;
    /// setting a price also sets the threshold to its double. Either
    /// multiplication is checked, and an overflow is rejected with
    /// `ArithmeticFault` rather than wrapped.
    pub fn apply(&self, instruction: MarketInstruction) -> (r: Result<Marketplace, CustodyError>)
        ensures
            match r {
                Ok(m) => match instruction {
                    MarketInstruction::ApplyDiscount => {
                        &&& m.discount_threshold == self.discount_threshold
                        &&& if self.price > self.discount_threshold {
                            self.price * 75 <= u64::MAX && m.price == (
                            self.price * 75) / 100
                        } else {
                            m.price == self.price
                        }
                    },
                    MarketInstruction::SetPrice(new_price) => {
                        &&& new_price * 2 <= u64::MAX
                        &&& m.price == new_price
                        &&& m.discount_threshold == new_price * 2
                    },
                },
                Err(e) => e == CustodyError::ArithmeticFault && match instruction {
                    MarketInstruction::ApplyDiscount => self.price
                        > self.discount_threshold && self.price * 75 > u64::MAX,
                    MarketInstruction::SetPrice(new_price) => new_price * 2 > u64::MAX,
                },
            },
    {
        match instruction {
            MarketInstruction::ApplyDiscount => {
                if self.price > self.discount_threshold {
                    match self.price.checked_mul(75) {
                        Some(p) => Ok(
                            Marketplace {
                                price: p / 100,
                                discount_threshold: self.discount_threshold,
                            },
                        ),
                        None => Err(CustodyError::ArithmeticFault),
                    }
                } else {
                    Ok(*self)
                }
            },
            MarketInstruction::SetPrice(new_price) => match new_price.checked_mul(2) {
                Some(t) => Ok(Marketplace { price: new_price, discount_threshold: t }),
                None => Err(CustodyError::ArithmeticFault),
            },
        }
    }
}

/// The open-outcry auction program's state.
#[derive(Clone, Copy, Debug, PartialEq, Eq, Structural)]
pub struct Auction {
    pub highest_bid: u64,
    pub is_active: bool,
}

/// The auction program's instructions.
#[derive(Clone, Copy, Debug, PartialEq, Eq, Structural)]
pub enum AuctionInstruction {
    PlaceBid(u64),
    CloseAuction,
}

impl Auction {
    /// The state a fresh auction is initialized with: no bid yet, open.
    pub fn new() -> (a: Auction)
        ensures
            a.highest_bid == 0,
            a.is_active,
    {
        Auction { highest_bid: 0, is_active: true }
    }

    /// Applies one instruction. A bid on a closed auction is rejected with
    /// `AlreadySettled`; on an open one, a bid strictly above the stored
    /// highest replaces it and any other bid leaves the state unchanged.
    /// Closing succeeds in any state and stops further bidding.
    pub fn apply(&self, instruction: AuctionInstruction) -> (r: Result<Auction, CustodyError>)
        ensures
            match r {
                Ok(a) => match instruction {
                    AuctionInstruction::PlaceBid(amount) => {
                        &&& self.is_active
                        &&& a.is_active
                        &&& a.highest_bid == if amount > self.highest_bid {
                            amount
                        } else {
                            self.highest_bid
                        }
                    },
                    AuctionInstruction::CloseAuction => !a.is_active && a.highest_bid
                        == self.highest_bid,
                },
                Err(e) => e == CustodyError::AlreadySettled && !self.is_active && matches!(
                    instruction,
                    AuctionInstruction::PlaceBid(_),
                ),
            },
    {
        match instruction {
            AuctionInstruction::PlaceBid(amount) => {
                if !self.is_active {
                    return Err(CustodyError::AlreadySettled);
                }
                if amount > self.highest_bid {
                    Ok(Auction { highest_bid: amount, is_active: true })
                } else {
                    Ok(*self)
                }
            },
            AuctionInstruction::CloseAuction => Ok(
                Auction { highest_bid: self.highest_bid, is_active: false },
            ),
        }
    }
}

/// The operation-logging data account program's state.
#[derive(Clone, Debug)]
pub struct DataAccount {
    pub value: u64,
    pub last_operation: String,
}

impl DataAccount {
    /// The state a fresh data account is initialized with.
    pub fn new() -> (d: DataAccount)
        ensures
            d.value == 0,
            d.last_operation@ == "None"@,
    {
        DataAccount { value: 0, last_operation: "None".to_owned() }
    }

    /// Applies one raw instruction byte. Operation 0 deliberately wraps the
    /// value up by ten, operation 1 deliberately doubles it with wraparound;
    /// each records its name. Any other byte is `InvalidInstruction`.
    pub fn apply(&self, instruction: u8) -> (r: Result<DataAccount, CustodyError>)
        ensures
            match r {
                Ok(d) => {
                    &&& instruction == 0 || instruction == 1
                    &&& instruction == 0 ==> d.value == u64_specs::wrapping_add(self.value, 10)
                        && d.last_operation@ == "OperationA"@
                    &&& instruction == 1 ==> d.value == u64_specs::wrapping_mul(self.value, 2)
                        && d.last_operation@ == "OperationB"@
                },
                Err(e) => e == CustodyError::InvalidInstruction && instruction != 0 && instruction
                    != 1,
            },
    {
        if instruction == 0 {
            Ok(
                DataAccount {
                    value: self.value.wrapping_add(10),
                    last_operation: "OperationA".to_owned(),
                },
            )
        } else if instruction == 1 {
            Ok(
                DataAccount {
                    value: self.value.wrapping_mul(2),
                    last_operation: "OperationB".to_owned(),
                },
            )
        } else {
            Err(CustodyError::InvalidInstruction)
        }
    }
}

} // verus!
