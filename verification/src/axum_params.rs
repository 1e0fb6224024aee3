//! The query parameters the axum handlers read.

use vstd::prelude::*;

verus! {

/// The query parameters of a `GET` request to the axum handler.
#[derive(Debug)]
pub struct GetParams {
    pub batch: Option<i32>,
    pub input: Option<String>,
    pub margs: Option<String>,
}

/// The query parameters of a `POST` request to the axum handler.
#[derive(Debug)]
pub struct PostParams {
    pub batch: Option<i32>,
}

impl GetParams {
    /// The raw input of the request, if it has one; a request without one runs its
    /// procedure with `null`.
    pub fn input_text(&self) -> (r: Option<&String>)
        ensures
            match r {
                Some(s) => self.input == Some(*s),
                None => self.input is None,
            },
    {
        match &self.input {
            Some(s) => Some(s),
            None => None,
        }
    }
}

/// The query parameters of a `GET` request to the first axum handler, where both are required.
#[derive(Debug)]
pub struct StrictGetParams {
    pub batch: i32,
    pub input: String,
}

/// The query parameters of a `POST` request to the first axum handler.
#[derive(Debug)]
pub struct StrictPostParams {
    pub batch: i32,
}

} // verus!
