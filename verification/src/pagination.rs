//! The shape of a paginated query.

use vstd::prelude::*;

verus! {

/// How many transactions the benchmark asks a node for.
pub const LATEST_TRANSACTIONS_PAGE_SIZE: i32 = 10;

/// The way a paginated query walks an ordered result set.
#[derive(Debug, Clone, Copy, PartialEq, Eq, Structural)]
pub enum PageDirection {
    Forward,
    Backward,
}

/// A request for one page of results.
#[derive(Debug, PartialEq, Eq)]
pub struct PaginationRequest {
    /// Where a previous page ended; `None` starts at the edge of the set.
    pub cursor: Option<String>,
    /// The number of results to take.
    pub results: i32,
    /// The way to walk from the cursor.
    pub direction: PageDirection,
}

/// A [`PaginationRequest`] in contracts, the cursor by its characters.
pub struct PaginationShape {
    pub cursor: Option<Seq<char>>,
    pub results: int,
    pub direction: PageDirection,
}

/// The page the benchmark asks for: the ten most recent transactions, from
/// the newest backwards.
pub open spec fn latest_transactions_shape() -> PaginationShape {
    PaginationShape {
        cursor: None,
        results: LATEST_TRANSACTIONS_PAGE_SIZE as int,
        direction: PageDirection::Backward,
    }
}

impl View for PaginationRequest {
    type V = PaginationShape;

    open spec fn view(&self) -> PaginationShape {
        PaginationShape {
            cursor: match self.cursor {
                Some(cursor) => Some(cursor@),
                None => None,
            },
            results: self.results as int,
            direction: self.direction,
        }
    }
}

impl PaginationRequest {
    /// The request for the most recent transactions.
    pub fn latest_transactions() -> (request: PaginationRequest)
        ensures
            request@ == latest_transactions_shape(),
            request.cursor is None,
            request.results == 10,
            request.direction == PageDirection::Backward,
    {
        PaginationRequest {
            cursor: None,
            results: LATEST_TRANSACTIONS_PAGE_SIZE,
            direction: PageDirection::Backward,
        }
    }
}

} // verus!
