use vstd::prelude::*;

use crate::jsonio::num_repr;

verus! {

// In a result, "absent" and "present" are kept apart for every field, since
// upstream data may be sparse: a missing value stays missing, it is never
// coerced to a default. Numeric values are carried through as
// `serde_json::Number`, never computed with; their model is their canonical
// decimal rendering.

pub open spec fn opt_str_view(o: Option<String>) -> Option<Seq<char>> {
    match o {
        Some(s) => Some(s@),
        None => None,
    }
}

pub open spec fn opt_i32_view(o: Option<i32>) -> Option<int> {
    match o {
        Some(v) => Some(v as int),
        None => None,
    }
}

pub open spec fn num_cell_view(o: Option<serde_json::Number>) -> Option<Seq<char>> {
    match o {
        Some(n) => Some(num_repr(n)),
        None => None,
    }
}

pub open spec fn numseq_view(o: Option<Vec<Option<serde_json::Number>>>) -> Option<
    Seq<Option<Seq<char>>>,
> {
    match o {
        Some(v) => Some(v@.map_values(|c: Option<serde_json::Number>| num_cell_view(c))),
        None => None,
    }
}

pub open spec fn strseq_view(o: Option<Vec<String>>) -> Option<Seq<Seq<char>>> {
    match o {
        Some(v) => Some(v.deep_view()),
        None => None,
    }
}

/// The model of a time-series / seasonality result.
pub struct SeasonalityModel {
    pub success: bool,
    pub message: Option<Seq<char>>,
    pub rows_added: Option<int>,
    pub last_date: Option<Seq<char>>,
    pub avg_2yr: Option<Seq<Option<Seq<char>>>>,
    pub avg_5yr: Option<Seq<Option<Seq<char>>>>,
    pub avg_6yr: Option<Seq<Option<Seq<char>>>>,
    pub avg_10yr: Option<Seq<Option<Seq<char>>>>,
    pub actual: Option<Seq<Option<Seq<char>>>>,
    pub target_year: Option<int>,
}

/// A decoded time-series / seasonality result.
#[derive(Debug)]
pub struct SeasonalityResult {
    pub success: bool,
    pub message: Option<String>,
    pub rows_added: Option<i32>,
    pub last_date: Option<String>,
    pub avg_2yr: Option<Vec<Option<serde_json::Number>>>,
    pub avg_5yr: Option<Vec<Option<serde_json::Number>>>,
    pub avg_6yr: Option<Vec<Option<serde_json::Number>>>,
    pub avg_10yr: Option<Vec<Option<serde_json::Number>>>,
    pub actual: Option<Vec<Option<serde_json::Number>>>,
    pub target_year: Option<i32>,
}

impl View for SeasonalityResult {
    type V = SeasonalityModel;

    open spec fn view(&self) -> SeasonalityModel {
        SeasonalityModel {
            success: self.success,
            message: opt_str_view(self.message),
            rows_added: opt_i32_view(self.rows_added),
            last_date: opt_str_view(self.last_date),
            avg_2yr: numseq_view(self.avg_2yr),
            avg_5yr: numseq_view(self.avg_5yr),
            avg_6yr: numseq_view(self.avg_6yr),
            avg_10yr: numseq_view(self.avg_10yr),
            actual: numseq_view(self.actual),
            target_year: opt_i32_view(self.target_year),
        }
    }
}

/// The model of a Commitment-of-Traders result.
pub struct COTModel {
    pub success: bool,
    pub message: Option<Seq<char>>,
    pub rows_added: Option<int>,
    pub last_date: Option<Seq<char>>,
    pub dates: Option<Seq<Seq<char>>>,
    pub open_interest: Option<Seq<Option<Seq<char>>>>,
    pub noncomm_net: Option<Seq<Option<Seq<char>>>>,
    pub comm_net: Option<Seq<Option<Seq<char>>>>,
    pub noncomm_long: Option<Seq<Option<Seq<char>>>>,
    pub noncomm_short: Option<Seq<Option<Seq<char>>>>,
    pub comm_long: Option<Seq<Option<Seq<char>>>>,
    pub comm_short: Option<Seq<Option<Seq<char>>>>,
    pub noncomm_net_change: Option<Seq<Option<Seq<char>>>>,
    pub comm_net_change: Option<Seq<Option<Seq<char>>>>,
    pub oi_change: Option<Seq<Option<Seq<char>>>>,
}

/// A decoded Commitment-of-Traders result.
#[derive(Debug)]
pub struct COTResult {
    pub success: bool,
    pub message: Option<String>,
    pub rows_added: Option<i32>,
    pub last_date: Option<String>,
    pub dates: Option<Vec<String>>,
    pub open_interest: Option<Vec<Option<serde_json::Number>>>,
    pub noncomm_net: Option<Vec<Option<serde_json::Number>>>,
    pub comm_net: Option<Vec<Option<serde_json::Number>>>,
    pub noncomm_long: Option<Vec<Option<serde_json::Number>>>,
    pub noncomm_short: Option<Vec<Option<serde_json::Number>>>,
    pub comm_long: Option<Vec<Option<serde_json::Number>>>,
    pub comm_short: Option<Vec<Option<serde_json::Number>>>,
    pub noncomm_net_change: Option<Vec<Option<serde_json::Number>>>,
    pub comm_net_change: Option<Vec<Option<serde_json::Number>>>,
    pub oi_change: Option<Vec<Option<serde_json::Number>>>,
}

impl View for COTResult {
    type V = COTModel;

    open spec fn view(&self) -> COTModel {
        COTModel {
            success: self.success,
            message: opt_str_view(self.message),
            rows_added: opt_i32_view(self.rows_added),
            last_date: opt_str_view(self.last_date),
            dates: strseq_view(self.dates),
            open_interest: numseq_view(self.open_interest),
            noncomm_net: numseq_view(self.noncomm_net),
            comm_net: numseq_view(self.comm_net),
            noncomm_long: numseq_view(self.noncomm_long),
            noncomm_short: numseq_view(self.noncomm_short),
            comm_long: numseq_view(self.comm_long),
            comm_short: numseq_view(self.comm_short),
            noncomm_net_change: numseq_view(self.noncomm_net_change),
            comm_net_change: numseq_view(self.comm_net_change),
            oi_change: numseq_view(self.oi_change),
        }
    }
}

} // verus!
