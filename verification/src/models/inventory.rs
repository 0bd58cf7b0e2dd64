//! The inventory ledger's entries.
use crate::date::Timestamp;
use crate::decimal::Decimal;
use crate::text::{clone_optional, optional_text, same_text};
use crate::table::Row;
use vstd::prelude::*;

verus! {

/// Why stock moved.
#[derive(Debug, Clone, Copy, PartialEq, Eq, Structural)]
pub enum TransactionType {
    Purchase,
    Sale,
    Adjustment,
    ProductionIn,
    ProductionOut,
}

impl TransactionType {
    /// The kind as it is stored and sent.
    pub open spec fn code(self) -> Seq<char> {
        match self {
            TransactionType::Purchase => "PURCHASE"@,
            TransactionType::Sale => "SALE"@,
            TransactionType::Adjustment => "ADJUSTMENT"@,
            TransactionType::ProductionIn => "PRODUCTION_IN"@,
            TransactionType::ProductionOut => "PRODUCTION_OUT"@,
        }
    }

    /// The kind as it is stored and sent.
    pub fn as_str(&self) -> (r: &'static str)
        ensures
            r@ == self.code(),
    {
        match self {
            TransactionType::Purchase => "PURCHASE",
            TransactionType::Sale => "SALE",
            TransactionType::Adjustment => "ADJUSTMENT",
            TransactionType::ProductionIn => "PRODUCTION_IN",
            TransactionType::ProductionOut => "PRODUCTION_OUT",
        }
    }

    /// The kind that `text` is the stored form of, if it is one.
    pub fn parse(text: &str) -> (r: Option<TransactionType>)
        ensures
            match r {
                Some(kind) => kind.code() == text@,
                None => forall|kind: TransactionType| kind.code() != text@,
            },
    {
        if same_text(text, "PURCHASE") {
            Some(TransactionType::Purchase)
        } else if same_text(text, "SALE") {
            Some(TransactionType::Sale)
        } else if same_text(text, "ADJUSTMENT") {
            Some(TransactionType::Adjustment)
        } else if same_text(text, "PRODUCTION_IN") {
            Some(TransactionType::ProductionIn)
        } else if same_text(text, "PRODUCTION_OUT") {
            Some(TransactionType::ProductionOut)
        } else {
            None
        }
    }

    /// No two kinds are stored alike.
    pub proof fn lemma_code_injective(a: TransactionType, b: TransactionType)
        requires
            a.code() == b.code(),
        ensures
            a == b,
    {
        reveal_strlit("PURCHASE");
        reveal_strlit("SALE");
        reveal_strlit("ADJUSTMENT");
        reveal_strlit("PRODUCTION_IN");
        reveal_strlit("PRODUCTION_OUT");
        assert("PURCHASE"@.len() == 8);
        assert("SALE"@.len() == 4);
        assert("ADJUSTMENT"@.len() == 10);
        assert("PRODUCTION_IN"@.len() == 13);
        assert("PRODUCTION_OUT"@.len() == 14);
    }
}

/// A movement of stock, as it stands in the ledger. An entry is written
/// once and never changed.
#[derive(Debug, PartialEq)]
pub struct InventoryTransaction {
    pub id: u128,
    pub tenant_id: u128,
    pub product_id: u128,
    /// The signed change of the product's stock.
    pub quantity: Decimal,
    pub transaction_type: TransactionType,
    /// The document that caused the movement.
    pub reference_id: Option<u128>,
    pub notes: Option<String>,
    pub created_at: Timestamp,
}

/// A movement of stock that is to be written to the ledger.
#[derive(Debug, PartialEq)]
pub struct CreateInventoryTransaction {
    pub product_id: u128,
    /// The signed change of the product's stock.
    pub quantity: Decimal,
    pub transaction_type: TransactionType,
    pub reference_id: Option<u128>,
    pub notes: Option<String>,
}

/// A movement that is to be written, with its note as characters.
pub struct PostingView {
    pub product_id: u128,
    pub quantity: Decimal,
    pub transaction_type: TransactionType,
    pub reference_id: Option<u128>,
    pub notes: Option<Seq<char>>,
}

/// A ledger entry with its note as characters.
pub struct EntryView {
    pub id: u128,
    pub tenant_id: u128,
    pub posting: PostingView,
    pub created_at: Timestamp,
}

impl View for CreateInventoryTransaction {
    type V = PostingView;

    open spec fn view(&self) -> PostingView {
        PostingView {
            product_id: self.product_id,
            quantity: self.quantity,
            transaction_type: self.transaction_type,
            reference_id: self.reference_id,
            notes: optional_text(self.notes),
        }
    }
}

impl View for InventoryTransaction {
    type V = EntryView;

    open spec fn view(&self) -> EntryView {
        EntryView {
            id: self.id,
            tenant_id: self.tenant_id,
            posting: PostingView {
                product_id: self.product_id,
                quantity: self.quantity,
                transaction_type: self.transaction_type,
                reference_id: self.reference_id,
                notes: optional_text(self.notes),
            },
            created_at: self.created_at,
        }
    }
}

impl Clone for InventoryTransaction {
    fn clone(&self) -> (r: InventoryTransaction)
        ensures
            r == *self,
    {
        InventoryTransaction {
            id: self.id,
            tenant_id: self.tenant_id,
            product_id: self.product_id,
            quantity: self.quantity,
            transaction_type: self.transaction_type,
            reference_id: self.reference_id,
            notes: clone_optional(&self.notes),
            created_at: self.created_at,
        }
    }
}

impl Clone for CreateInventoryTransaction {
    fn clone(&self) -> (r: CreateInventoryTransaction)
        ensures
            r == *self,
    {
        CreateInventoryTransaction {
            product_id: self.product_id,
            quantity: self.quantity,
            transaction_type: self.transaction_type,
            reference_id: self.reference_id,
            notes: clone_optional(&self.notes),
        }
    }
}

/// The views of the movements in `postings`, in order.
pub open spec fn posting_views(postings: Seq<CreateInventoryTransaction>) -> Seq<PostingView> {
    postings.map_values(|p: CreateInventoryTransaction| p@)
}

/// The views of the entries in `entries`, in order.
pub open spec fn entry_views(entries: Seq<InventoryTransaction>) -> Seq<EntryView> {
    entries.map_values(|e: InventoryTransaction| e@)
}

impl Row for InventoryTransaction {
    open spec fn tenant_spec(&self) -> u128 {
        self.tenant_id
    }

    open spec fn id_spec(&self) -> u128 {
        self.id
    }

    fn tenant(&self) -> (r: u128) {
        self.tenant_id
    }

    fn id(&self) -> (r: u128) {
        self.id
    }

    fn duplicate(&self) -> (r: InventoryTransaction) {
        self.clone()
    }
}


} // verus!
