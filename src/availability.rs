use vstd::prelude::*;

verus! {

/// Lifecycle state of a listed item.
#[derive(Debug, Clone, Copy, PartialEq, Eq, Structural)]
pub enum Availability {
    Available,
    Preorder,
    NotAvailable,
    Deleted,
}

impl Availability {
    /// An item counts as available while it can be bought or preordered.
    pub open spec fn spec_is_available(self) -> bool {
        self is Available || self is Preorder
    }

    pub fn is_available(&self) -> (r: bool)
        ensures
            r == self.spec_is_available(),
    {
        match self {
            Availability::Available | Availability::Preorder => true,
            Availability::NotAvailable | Availability::Deleted => false,
        }
    }

    /// The variant's name, as it is stored and shown.
    pub open spec fn spec_name(self) -> Seq<char> {
        match self {
            Availability::Available => "Available"@,
            Availability::Preorder => "Preorder"@,
            Availability::NotAvailable => "NotAvailable"@,
            Availability::Deleted => "Deleted"@,
        }
    }

    pub fn name(&self) -> (r: &'static str)
        ensures
            r@ == self.spec_name(),
    {
        match self {
            Availability::Available => "Available",
            Availability::Preorder => "Preorder",
            Availability::NotAvailable => "NotAvailable",
            Availability::Deleted => "Deleted",
        }
    }

    /// The variant whose name is `text`, if any.
    pub open spec fn spec_from_name(text: Seq<char>) -> Option<Availability> {
        if text == "Available"@ {
            Some(Availability::Available)
        } else if text == "Preorder"@ {
            Some(Availability::Preorder)
        } else if text == "NotAvailable"@ {
            Some(Availability::NotAvailable)
        } else if text == "Deleted"@ {
            Some(Availability::Deleted)
        } else {
            None
        }
    }

    pub fn from_name(text: &str) -> (r: Option<Availability>)
        ensures
            r == Self::spec_from_name(text@),
    {
        let t = String::from_str(text);
        if t == String::from_str("Available") {
            Some(Availability::Available)
        } else if t == String::from_str("Preorder") {
            Some(Availability::Preorder)
        } else if t == String::from_str("NotAvailable") {
            Some(Availability::NotAvailable)
        } else if t == String::from_str("Deleted") {
            Some(Availability::Deleted)
        } else {
            None
        }
    }

    /// The availability that a stock label on an item page stands for.
    pub open spec fn spec_from_stock_label(text: Seq<char>) -> Option<Availability> {
        if text == "-"@ {
            Some(Availability::NotAvailable)
        } else if text == "好評受付中"@ {
            Some(Availability::Preorder)
        } else if text == "残りわずか"@ || text == "在庫あり"@ || text == "発売中"@ {
            Some(Availability::Available)
        } else {
            None
        }
    }

    pub fn from_stock_label(text: &str) -> (r: Option<Availability>)
        ensures
            r == Self::spec_from_stock_label(text@),
    {
        let t = String::from_str(text);
        if t == String::from_str("-") {
            Some(Availability::NotAvailable)
        } else if t == String::from_str("好評受付中") {
            Some(Availability::Preorder)
        } else if t == String::from_str("残りわずか") || t == String::from_str("在庫あり") || t
            == String::from_str("発売中") {
            Some(Availability::Available)
        } else {
            None
        }
    }

    /// The availability that a listing's stock flags stand for: in stock
    /// first, then preorder, else not available.
    pub fn from_stock_flags(in_stock: i64, preorder: i64) -> (r: Availability)
        ensures
            r == (if in_stock == 1 {
                Availability::Available
            } else if preorder == 1 {
                Availability::Preorder
            } else {
                Availability::NotAvailable
            }),
    {
        if in_stock == 1 {
            Availability::Available
        } else if preorder == 1 {
            Availability::Preorder
        } else {
            Availability::NotAvailable
        }
    }
}

} // verus!
