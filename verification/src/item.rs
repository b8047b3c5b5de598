//! The kinds of item whose use can be logged.

use vstd::prelude::*;

verus! {

/// The closed set of items that the ledger knows.
#[derive(Clone, Copy, Debug, PartialEq, Eq, Structural)]
pub enum InventoryItem {
    Milk,
    Coffee,
    Mugs,
    Sugar,
    Sticks,
    Thermos,
}

/// The name under which an item stands in the ledger. Lines already written
/// carry these names, so they never change.
pub open spec fn item_text(item: InventoryItem) -> Seq<char> {
    match item {
        InventoryItem::Milk => "Milk"@,
        InventoryItem::Coffee => "Coffee"@,
        InventoryItem::Mugs => "Mugs"@,
        InventoryItem::Sugar => "Sugar"@,
        InventoryItem::Sticks => "Sticks"@,
        InventoryItem::Thermos => "Thermos"@,
    }
}

impl InventoryItem {
    /// The item's name as it is written to the ledger.
    pub fn name(&self) -> (out: &'static str)
        ensures
            out@ == item_text(*self),
    {
        match self {
            InventoryItem::Milk => "Milk",
            InventoryItem::Coffee => "Coffee",
            InventoryItem::Mugs => "Mugs",
            InventoryItem::Sugar => "Sugar",
            InventoryItem::Sticks => "Sticks",
            InventoryItem::Thermos => "Thermos",
        }
    }
}

/// No item's name holds a comma, so a ledger line splits into its three
/// columns without quoting.
pub proof fn item_text_has_no_comma(item: InventoryItem)
    ensures
        !item_text(item).contains(','),
{
    reveal_strlit("Milk");
    reveal_strlit("Coffee");
    reveal_strlit("Mugs");
    reveal_strlit("Sugar");
    reveal_strlit("Sticks");
    reveal_strlit("Thermos");
    let text = item_text(item);
    assert forall|i: int| 0 <= i < text.len() implies text[i] != ',' by {}
}

} // verus!
