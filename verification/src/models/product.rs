//! Products.
use crate::decimal::Decimal;
use crate::text::{clone_optional, same_text};
use crate::order::{key_of_name, name_key, SortKey, SortKeyView, Sortable};
use crate::table::Row;
use vstd::prelude::*;
use vstd::string::*;

verus! {

/// The unit in which a product is counted.
#[derive(Debug, Clone, Copy, PartialEq, Eq, Structural)]
pub enum UnitOfMeasure {
    Unit,
    SquareFeet,
    Kilogram,
    Piece,
    Meter,
    Liter,
}

impl UnitOfMeasure {
    /// The unit as it is stored and sent.
    pub open spec fn code(self) -> Seq<char> {
        match self {
            UnitOfMeasure::Unit => "UNIT"@,
            UnitOfMeasure::SquareFeet => "SQ_FT"@,
            UnitOfMeasure::Kilogram => "KG"@,
            UnitOfMeasure::Piece => "PIECE"@,
            UnitOfMeasure::Meter => "METER"@,
            UnitOfMeasure::Liter => "LITER"@,
        }
    }

    /// The unit as it is stored and sent.
    pub fn as_str(&self) -> (r: &'static str)
        ensures
            r@ == self.code(),
    {
        match self {
            UnitOfMeasure::Unit => "UNIT",
            UnitOfMeasure::SquareFeet => "SQ_FT",
            UnitOfMeasure::Kilogram => "KG",
            UnitOfMeasure::Piece => "PIECE",
            UnitOfMeasure::Meter => "METER",
            UnitOfMeasure::Liter => "LITER",
        }
    }

    /// The unit that `text` is the stored form of, if it is one.
    pub fn parse(text: &str) -> (r: Option<UnitOfMeasure>)
        ensures
            match r {
                Some(unit) => unit.code() == text@,
                None => forall|unit: UnitOfMeasure| unit.code() != text@,
            },
    {
        if same_text(text, "UNIT") {
            Some(UnitOfMeasure::Unit)
        } else if same_text(text, "SQ_FT") {
            Some(UnitOfMeasure::SquareFeet)
        } else if same_text(text, "KG") {
            Some(UnitOfMeasure::Kilogram)
        } else if same_text(text, "PIECE") {
            Some(UnitOfMeasure::Piece)
        } else if same_text(text, "METER") {
            Some(UnitOfMeasure::Meter)
        } else if same_text(text, "LITER") {
            Some(UnitOfMeasure::Liter)
        } else {
            None
        }
    }

    /// No two units are stored alike.
    pub proof fn lemma_code_injective(a: UnitOfMeasure, b: UnitOfMeasure)
        requires
            a.code() == b.code(),
        ensures
            a == b,
    {
        reveal_strlit("UNIT");
        reveal_strlit("SQ_FT");
        reveal_strlit("KG");
        reveal_strlit("PIECE");
        reveal_strlit("METER");
        reveal_strlit("LITER");
        assert("UNIT"@.len() == 4);
        assert("KG"@.len() == 2);
        assert("SQ_FT"@.len() == 5 && "SQ_FT"@[0] == 'S');
        assert("PIECE"@.len() == 5 && "PIECE"@[0] == 'P');
        assert("METER"@.len() == 5 && "METER"@[0] == 'M');
        assert("LITER"@.len() == 5 && "LITER"@[0] == 'L');
    }
}

/// A product. Its `stock_quantity` is derived: it is the signed sum of the
/// ledger's entries for the product.
#[derive(Debug, PartialEq)]
pub struct Product {
    pub id: u128,
    pub tenant_id: u128,
    pub name: String,
    pub sku: String,
    pub description: Option<String>,
    pub unit_of_measure: UnitOfMeasure,
    pub price: Decimal,
    pub cost_price: Decimal,
    pub stock_quantity: Decimal,
}

/// What is given to create a product.
#[derive(Debug, PartialEq)]
pub struct CreateProduct {
    pub name: String,
    pub sku: String,
    pub description: Option<String>,
    pub unit_of_measure: UnitOfMeasure,
    pub price: Decimal,
    pub cost_price: Decimal,
}

impl Clone for Product {
    fn clone(&self) -> (r: Product)
        ensures
            r == *self,
    {
        Product {
            id: self.id,
            tenant_id: self.tenant_id,
            name: self.name.clone(),
            sku: self.sku.clone(),
            description: clone_optional(&self.description),
            unit_of_measure: self.unit_of_measure,
            price: self.price,
            cost_price: self.cost_price,
            stock_quantity: self.stock_quantity,
        }
    }
}

impl Clone for CreateProduct {
    fn clone(&self) -> (r: CreateProduct)
        ensures
            r == *self,
    {
        CreateProduct {
            name: self.name.clone(),
            sku: self.sku.clone(),
            description: clone_optional(&self.description),
            unit_of_measure: self.unit_of_measure,
            price: self.price,
            cost_price: self.cost_price,
        }
    }
}

impl Product {
    /// The product that creating `input` for `tenant_id` gives: nothing in
    /// stock yet.
    pub open spec fn created(id: u128, tenant_id: u128, input: CreateProduct) -> Product {
        Product {
            id,
            tenant_id,
            name: input.name,
            sku: input.sku,
            description: input.description,
            unit_of_measure: input.unit_of_measure,
            price: input.price,
            cost_price: input.cost_price,
            stock_quantity: Decimal::zero_spec(),
        }
    }

    /// Makes the product that `input` describes, with nothing in stock.
    pub fn create(id: u128, tenant_id: u128, input: CreateProduct) -> (r: Product)
        ensures
            r == Product::created(id, tenant_id, input),
    {
        Product {
            id,
            tenant_id,
            name: input.name,
            sku: input.sku,
            description: input.description,
            unit_of_measure: input.unit_of_measure,
            price: input.price,
            cost_price: input.cost_price,
            stock_quantity: Decimal::zero(),
        }
    }
}

impl Row for Product {
    open spec fn tenant_spec(&self) -> u128 {
        self.tenant_id
    }

    open spec fn id_spec(&self) -> u128 {
        self.id
    }

    fn tenant(&self) -> (r: u128) {
        self.tenant_id
    }

    fn id(&self) -> (r: u128) {
        self.id
    }

    fn duplicate(&self) -> (r: Product) {
        self.clone()
    }
}

impl Sortable for Product {
    /// Products are listed by name.
    open spec fn sort_key_spec(&self) -> SortKeyView {
        name_key(self.name@)
    }

    fn sort_key(&self) -> (r: SortKey) {
        key_of_name(&self.name)
    }

    fn replica(&self) -> (r: Product) {
        self.duplicate()
    }
}

} // verus!
