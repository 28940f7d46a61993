//! Parameters of the suppression-entry administration.

use vstd::prelude::*;
use crate::admin::{parse_info, InfoError, InfoOption};

verus! {

/// Count query on suppression entries: "total" or "active".
#[derive(Clone, Debug, PartialEq, Eq)]
pub struct ReadInfoParams {
    pub option: Option<String>,
}

impl ReadInfoParams {
    pub fn info(&self) -> (r: Result<InfoOption, InfoError>)
        ensures
            self.option is None ==> r == Err::<InfoOption, InfoError>(InfoError::Missing),
            self.option matches Some(o) ==> r == (if o@ == "total"@ {
                Ok::<InfoOption, InfoError>(InfoOption::Total)
            } else if o@ == "active"@ {
                Ok(InfoOption::Active)
            } else {
                Err(InfoError::Unknown)
            }),
    {
        parse_info(&self.option, "active", InfoOption::Active)
    }
}

/// Deletion of the suppression entry with the given id.
#[derive(Clone, Debug, PartialEq, Eq)]
pub struct DeleteParams {
    pub id: Option<i32>,
}

} // verus!
