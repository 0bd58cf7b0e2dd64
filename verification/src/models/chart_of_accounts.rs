//! The chart of accounts.
//!
//! An account's type decides on which side its balance normally stands:
//! assets, cost of goods sold and expenses are debit-normal, everything
//! else is credit-normal.
use crate::decimal::Decimal;
use crate::text::{clone_optional, same_text, text_or_empty, text_or_empty_spec};
use crate::order::{SortKey, SortKeyView, Sortable};
use crate::table::Row;
use vstd::prelude::*;
use vstd::string::*;
use vstd::utf8::encode_utf8;

verus! {

/// A node of the chart of accounts, with its running balance.
#[derive(Debug, PartialEq)]
pub struct Account {
    pub id: u128,
    pub tenant_id: u128,
    pub parent_id: Option<u128>,
    pub account_number: Option<String>,
    pub name: String,
    pub account_type: String,
    pub detail_type: Option<String>,
    pub description: Option<String>,
    pub balance: Decimal,
    pub is_active: bool,
    /// System accounts cannot be deleted.
    pub is_system: bool,
}

/// What is given to create an account.
#[derive(Debug, PartialEq)]
pub struct CreateAccount {
    pub parent_id: Option<u128>,
    pub account_number: Option<String>,
    pub name: String,
    pub account_type: String,
    pub detail_type: Option<String>,
    pub description: Option<String>,
}

impl Clone for Account {
    fn clone(&self) -> (r: Account)
        ensures
            r == *self,
    {
        Account {
            id: self.id,
            tenant_id: self.tenant_id,
            parent_id: self.parent_id,
            account_number: clone_optional(&self.account_number),
            name: self.name.clone(),
            account_type: self.account_type.clone(),
            detail_type: clone_optional(&self.detail_type),
            description: clone_optional(&self.description),
            balance: self.balance,
            is_active: self.is_active,
            is_system: self.is_system,
        }
    }
}

impl Account {
    /// The account that creating `input` for the tenant gives: active, not
    /// a system account, with a balance of zero.
    pub open spec fn created(id: u128, tenant_id: u128, input: CreateAccount) -> Account {
        Account {
            id,
            tenant_id,
            parent_id: input.parent_id,
            account_number: input.account_number,
            name: input.name,
            account_type: input.account_type,
            detail_type: input.detail_type,
            description: input.description,
            balance: Decimal::zero_spec(),
            is_active: true,
            is_system: false,
        }
    }

    /// Makes the account that `input` describes.
    pub fn create(id: u128, tenant_id: u128, input: CreateAccount) -> (r: Account)
        ensures
            r == Account::created(id, tenant_id, input),
    {
        Account {
            id,
            tenant_id,
            parent_id: input.parent_id,
            account_number: input.account_number,
            name: input.name,
            account_type: input.account_type,
            detail_type: input.detail_type,
            description: input.description,
            balance: Decimal::zero(),
            is_active: true,
            is_system: false,
        }
    }
}

/// The groups into which the reports sort accounts by their type.
#[derive(Debug, Clone, Copy, PartialEq, Eq, Structural)]
pub enum AccountGroup {
    Income,
    CostOfGoodsSold,
    Expense,
    Asset,
    Liability,
    Equity,
}

/// The group of an account type; `None` for a type that belongs to none.
pub open spec fn group_of(account_type: Seq<char>) -> Option<AccountGroup> {
    if account_type == "INCOME"@ || account_type == "OTHER_INCOME"@ {
        Some(AccountGroup::Income)
    } else if account_type == "COST_OF_GOODS_SOLD"@ {
        Some(AccountGroup::CostOfGoodsSold)
    } else if account_type == "EXPENSE"@ || account_type == "OTHER_EXPENSE"@ {
        Some(AccountGroup::Expense)
    } else if account_type == "BANK"@ || account_type == "ACCOUNTS_RECEIVABLE"@ || account_type
        == "OTHER_CURRENT_ASSET"@ || account_type == "FIXED_ASSET"@ || account_type
        == "OTHER_ASSET"@ {
        Some(AccountGroup::Asset)
    } else if account_type == "ACCOUNTS_PAYABLE"@ || account_type == "CREDIT_CARD"@
        || account_type == "OTHER_CURRENT_LIABILITY"@ || account_type == "LONG_TERM_LIABILITY"@ {
        Some(AccountGroup::Liability)
    } else if account_type == "EQUITY"@ {
        Some(AccountGroup::Equity)
    } else {
        None
    }
}

/// Whether accounts of this type normally carry a debit balance: assets,
/// cost of goods sold and expenses do. All others, also those of a type
/// that belongs to no group, count as credit-normal.
pub open spec fn debit_normal(account_type: Seq<char>) -> bool {
    match group_of(account_type) {
        Some(AccountGroup::Asset) => true,
        Some(AccountGroup::CostOfGoodsSold) => true,
        Some(AccountGroup::Expense) => true,
        _ => false,
    }
}

/// The group of an account type.
pub fn account_group(account_type: &str) -> (r: Option<AccountGroup>)
    ensures
        r == group_of(account_type@),
{
    if same_text(account_type, "INCOME") || same_text(account_type, "OTHER_INCOME") {
        Some(AccountGroup::Income)
    } else if same_text(account_type, "COST_OF_GOODS_SOLD") {
        Some(AccountGroup::CostOfGoodsSold)
    } else if same_text(account_type, "EXPENSE") || same_text(account_type, "OTHER_EXPENSE") {
        Some(AccountGroup::Expense)
    } else if same_text(account_type, "BANK") || same_text(account_type, "ACCOUNTS_RECEIVABLE")
        || same_text(account_type, "OTHER_CURRENT_ASSET") || same_text(account_type, "FIXED_ASSET")
        || same_text(account_type, "OTHER_ASSET") {
        Some(AccountGroup::Asset)
    } else if same_text(account_type, "ACCOUNTS_PAYABLE") || same_text(account_type, "CREDIT_CARD")
        || same_text(account_type, "OTHER_CURRENT_LIABILITY") || same_text(
        account_type,
        "LONG_TERM_LIABILITY",
    ) {
        Some(AccountGroup::Liability)
    } else if same_text(account_type, "EQUITY") {
        Some(AccountGroup::Equity)
    } else {
        None
    }
}

/// Whether accounts of this type normally carry a debit balance.
pub fn is_debit_normal(account_type: &str) -> (r: bool)
    ensures
        r == debit_normal(account_type@),
{
    match account_group(account_type) {
        Some(AccountGroup::Asset) => true,
        Some(AccountGroup::CostOfGoodsSold) => true,
        Some(AccountGroup::Expense) => true,
        _ => false,
    }
}

impl Row for Account {
    open spec fn tenant_spec(&self) -> u128 {
        self.tenant_id
    }

    open spec fn id_spec(&self) -> u128 {
        self.id
    }

    fn tenant(&self) -> (r: u128) {
        self.tenant_id
    }

    fn id(&self) -> (r: u128) {
        self.id
    }

    fn duplicate(&self) -> (r: Account) {
        self.clone()
    }
}

/// The key of what is ordered by an account's number, then by its name,
/// each as its bytes; what has no number, or an empty one, stands behind
/// what has one.
pub open spec fn number_key(number: Seq<char>, name: Seq<char>) -> SortKeyView {
    SortKeyView {
        major: 0,
        minor: if number.len() == 0 {
            1
        } else {
            0
        },
        text: encode_utf8(number),
        tail: encode_utf8(name),
        last: 0,
    }
}

/// What an account is ordered by: its number, then its name.
pub open spec fn account_key(account: Account) -> SortKeyView {
    number_key(text_or_empty_spec(account.account_number), account.name@)
}

impl Sortable for Account {
    /// Accounts are listed by number, then by name.
    open spec fn sort_key_spec(&self) -> SortKeyView {
        account_key(*self)
    }

    fn sort_key(&self) -> (r: SortKey) {
        let number = text_or_empty(&self.account_number);
        let unnumbered = number.as_str().unicode_len() == 0;
        SortKey {
            major: 0,
            minor: if unnumbered {
                1
            } else {
                0
            },
            text: number.as_str().as_bytes_vec(),
            tail: self.name.as_str().as_bytes_vec(),
            last: 0,
        }
    }

    fn replica(&self) -> (r: Account) {
        self.duplicate()
    }
}

} // verus!
