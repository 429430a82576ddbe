//! The answers of the conversion endpoints: the comparison's answer and the
//! report of each endpoint's failures.
use crate::errors::{ApiError, ErrorBody, ErrorBodyView};
use vstd::prelude::*;
use vstd::string::*;

verus! {

/// The name of a comparison's answer.
pub open spec fn relation_name(result: int) -> Seq<char> {
    if result < 0 {
        "less_than"@
    } else if result == 0 {
        "equal"@
    } else {
        "greater_than"@
    }
}

/// The answer of the comparison endpoint: -1, 0 or 1, and its name.
#[derive(Debug, Clone, PartialEq, Eq)]
pub struct CompareResponse {
    pub result: i8,
    pub relation: String,
}

impl CompareResponse {
    /// The answer for a comparison that gave -1, 0 or 1.
    pub fn new(result: i8) -> (response: CompareResponse)
        requires
            -1 <= result <= 1,
        ensures
            response.result == result,
            response.relation@ == relation_name(result as int),
    {
        let relation = if result < 0 {
            "less_than"
        } else if result == 0 {
            "equal"
        } else {
            "greater_than"
        };
        CompareResponse { result, relation: String::from_str(relation) }
    }
}

/// The report of a failure to list the categories: always an internal
/// error.
pub open spec fn categories_failure_of(error: ApiError) -> ErrorBodyView {
    ErrorBodyView {
        status: 500,
        error: "failed_to_list_categories"@,
        message: error.heading_of() + error.message_view(),
    }
}

/// The report of a failure to list a category's units: not found where the
/// category is unknown, else an internal error.
pub open spec fn units_failure_of(error: ApiError) -> ErrorBodyView {
    match error {
        ApiError::NotFound(_) => ErrorBodyView {
            status: 404,
            error: "category_not_found"@,
            message: error.heading_of() + error.message_view(),
        },
        _ => ErrorBodyView {
            status: 500,
            error: "failed_to_list_units"@,
            message: error.heading_of() + error.message_view(),
        },
    }
}

/// The report of a failed conversion: not found where a unit is unknown, a
/// bad request where the units cannot be converted into each other, else an
/// internal error.
pub open spec fn conversion_failure_of(error: ApiError) -> ErrorBodyView {
    match error {
        ApiError::NotFound(_) => ErrorBodyView {
            status: 404,
            error: "unit_not_found"@,
            message: error.heading_of() + error.message_view(),
        },
        ApiError::BadRequest(_) => ErrorBodyView {
            status: 400,
            error: "invalid_conversion"@,
            message: error.heading_of() + error.message_view(),
        },
        _ => ErrorBodyView {
            status: 500,
            error: "conversion_failed"@,
            message: error.heading_of() + error.message_view(),
        },
    }
}

/// The report of a failed comparison: not found where a unit or the
/// category is unknown, else an internal error.
pub open spec fn comparison_failure_of(error: ApiError) -> ErrorBodyView {
    match error {
        ApiError::NotFound(_) => ErrorBodyView {
            status: 404,
            error: "unit_or_category_not_found"@,
            message: error.heading_of() + error.message_view(),
        },
        _ => ErrorBodyView {
            status: 500,
            error: "comparison_failed"@,
            message: error.heading_of() + error.message_view(),
        },
    }
}

/// The report of a failure to list the categories.
pub fn categories_failure(error: &ApiError) -> (body: ErrorBody)
    ensures
        body@ == categories_failure_of(*error),
{
    ErrorBody {
        status: 500,
        error: String::from_str("failed_to_list_categories"),
        message: error.to_string(),
    }
}

/// The report of a failure to list a category's units.
pub fn units_failure(error: &ApiError) -> (body: ErrorBody)
    ensures
        body@ == units_failure_of(*error),
{
    match error {
        ApiError::NotFound(_) => ErrorBody {
            status: 404,
            error: String::from_str("category_not_found"),
            message: error.to_string(),
        },
        _ => ErrorBody {
            status: 500,
            error: String::from_str("failed_to_list_units"),
            message: error.to_string(),
        },
    }
}

/// The report of a failed conversion.
pub fn conversion_failure(error: &ApiError) -> (body: ErrorBody)
    ensures
        body@ == conversion_failure_of(*error),
{
    match error {
        ApiError::NotFound(_) => ErrorBody {
            status: 404,
            error: String::from_str("unit_not_found"),
            message: error.to_string(),
        },
        ApiError::BadRequest(_) => ErrorBody {
            status: 400,
            error: String::from_str("invalid_conversion"),
            message: error.to_string(),
        },
        _ => ErrorBody {
            status: 500,
            error: String::from_str("conversion_failed"),
            message: error.to_string(),
        },
    }
}

/// The report of a failed comparison.
pub fn comparison_failure(error: &ApiError) -> (body: ErrorBody)
    ensures
        body@ == comparison_failure_of(*error),
{
    match error {
        ApiError::NotFound(_) => ErrorBody {
            status: 404,
            error: String::from_str("unit_or_category_not_found"),
            message: error.to_string(),
        },
        _ => ErrorBody {
            status: 500,
            error: String::from_str("comparison_failed"),
            message: error.to_string(),
        },
    }
}

} // verus!
