//! Data model for the ticket-tracking side: the card a branch name refers
//! to.

use vstd::prelude::*;

verus! {

/// A ticket fetched from the tracker; only its rich-text description is
/// used.
#[derive(Debug, Clone)]
pub struct Card {
    pub description: String,
}

/// Why a card response could not be turned into a [`Card`].
#[derive(Debug, Clone, PartialEq, Eq, Structural)]
pub enum CardConvertError {
    /// The response carried no card data.
    DataMissing,
}

impl CardConvertError {
    /// A human-readable description, for the surrounding program's logs.
    pub fn message(&self) -> (r: String)
        ensures
            r@ == "card has no data"@,
    {
        "card has no data".to_owned()
    }
}

impl Card {
    /// Builds a [`Card`] from the fields a card response carries: a response
    /// without data is rejected, a missing description is read as empty.
    pub fn from_parts(data_found: bool, description: Option<String>) -> (r: Result<Card, CardConvertError>)
        ensures
            !data_found ==> r == Result::<Card, CardConvertError>::Err(CardConvertError::DataMissing),
            data_found ==> r is Ok && r->Ok_0.description@ == (match description {
                Option::Some(d) => d@,
                Option::None => Seq::<char>::empty(),
            }),
    {
        if !data_found {
            return Result::Err(CardConvertError::DataMissing);
        }
        Result::Ok(Card {
            description: match description {
                Option::Some(d) => d,
                Option::None => String::new(),
            },
        })
    }
}

} // verus!
