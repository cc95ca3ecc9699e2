use vstd::prelude::*;

use crate::jmodel::Json;
use crate::jsonio::get_field;
use crate::jsonio::int_value;
use crate::jsonio::json_model;

verus! {

// ---------------------------------------------------------------------------
// Trimming the stdout accumulator.
// ---------------------------------------------------------------------------
/// The whitespace bytes that may surround a JSON document.
pub open spec fn is_ws(b: u8) -> bool {
    b == 32 || b == 9 || b == 10 || b == 13
}

pub open spec fn trim_front(s: Seq<u8>) -> Seq<u8>
    decreases s.len(),
{
    if s.len() > 0 && is_ws(s[0]) {
        trim_front(s.drop_first())
    } else {
        s
    }
}

pub open spec fn trim_back(s: Seq<u8>) -> Seq<u8>
    decreases s.len(),
{
    if s.len() > 0 && is_ws(s.last()) {
        trim_back(s.drop_last())
    } else {
        s
    }
}

/// The stdout buffer with leading and trailing whitespace removed.
pub open spec fn trim_ascii(s: Seq<u8>) -> Seq<u8> {
    trim_back(trim_front(s))
}

fn is_ws_byte(b: u8) -> (r: bool)
    ensures
        r == is_ws(b),
{
    b == 32 || b == 9 || b == 10 || b == 13
}

proof fn lemma_trim_front_skip(s: Seq<u8>, k: int)
    requires
        0 <= k <= s.len(),
        forall|i: int| 0 <= i < k ==> is_ws(s[i]),
        k == s.len() || !is_ws(s[k]),
    ensures
        trim_front(s) == s.skip(k),
    decreases k,
{
    if k == 0 {
        assert(s.skip(0) =~= s);
    } else {
        assert(is_ws(s[0]));
        lemma_trim_front_skip(s.drop_first(), k - 1);
        assert(s.drop_first().skip(k - 1) =~= s.skip(k));
    }
}

proof fn lemma_trim_back_take(s: Seq<u8>, k: int)
    requires
        0 <= k <= s.len(),
        forall|i: int| k <= i < s.len() ==> is_ws(s[i]),
        k == 0 || !is_ws(s[k - 1]),
    ensures
        trim_back(s) == s.take(k),
    decreases s.len(),
{
    if k == s.len() {
        assert(s.take(k) =~= s);
    } else {
        assert(is_ws(s.last()));
        lemma_trim_back_take(s.drop_last(), k);
        assert(s.drop_last() =~= s.take(s.len() - 1));
        assert(s.take(s.len() - 1).take(k) =~= s.take(k));
    }
}

/// Remove leading and trailing whitespace from a byte buffer.
pub fn trim_bytes(v: &Vec<u8>) -> (r: Vec<u8>)
    ensures
        r@ == trim_ascii(v@),
{
    let n = v.len();
    let mut lo: usize = 0;
    while lo < n && is_ws_byte(v[lo])
        invariant
            n == v@.len(),
            0 <= lo <= n,
            forall|i: int| 0 <= i < lo ==> is_ws(v@[i]),
        decreases n - lo,
    {
        lo = lo + 1;
    }
    let mut hi: usize = n;
    while hi > lo && is_ws_byte(v[hi - 1])
        invariant
            n == v@.len(),
            0 <= lo <= hi <= n,
            forall|i: int| hi <= i < n ==> is_ws(v@[i]),
        decreases hi,
    {
        hi = hi - 1;
    }
    let mut r: Vec<u8> = Vec::new();
    let mut i: usize = lo;
    while i < hi
        invariant
            lo <= i <= hi <= n,
            n == v@.len(),
            r@ == v@.subrange(lo as int, i as int),
        decreases hi - i,
    {
        r.push(v[i]);
        assert(r@ =~= v@.subrange(lo as int, i + 1));
        i = i + 1;
    }
    proof {
        lemma_trim_front_skip(v@, lo as int);
        lemma_trim_back_take(v@.skip(lo as int), hi - lo);
        assert(v@.skip(lo as int).take(hi - lo) =~= v@.subrange(lo as int, hi as int));
        assert(r@ =~= trim_ascii(v@));
    }
    r
}

// ---------------------------------------------------------------------------
// The result schemas: which JSON documents decode, and to what. A field that
// is absent or null reads as missing; a field of the wrong type fails the
// whole decode.
// ---------------------------------------------------------------------------
pub open spec fn req_bool_field(m: Map<Seq<char>, Json>, key: Seq<char>) -> Option<bool> {
    if m.dom().contains(key) && m[key] is Bool {
        Some(m[key]->Bool_0)
    } else {
        None
    }
}

pub open spec fn opt_str_field(m: Map<Seq<char>, Json>, key: Seq<char>) -> Option<
    Option<Seq<char>>,
> {
    if !m.dom().contains(key) {
        Some(None)
    } else {
        match m[key] {
            Json::Null => Some(None),
            Json::Str(s) => Some(Some(s)),
            _ => None,
        }
    }
}

pub open spec fn in_i32_range(v: int) -> bool {
    -0x8000_0000 <= v <= 0x7fff_ffff
}

pub open spec fn opt_i32_field(m: Map<Seq<char>, Json>, key: Seq<char>) -> Option<Option<int>> {
    if !m.dom().contains(key) {
        Some(None)
    } else {
        match m[key] {
            Json::Null => Some(None),
            Json::Num(t) => match int_value(t) {
                Some(v) => if in_i32_range(v) {
                    Some(Some(v))
                } else {
                    None
                },
                None => None,
            },
            _ => None,
        }
    }
}

/// One element of a sequence of optional numbers.
pub open spec fn num_cell_of(j: Json) -> Option<Option<Seq<char>>> {
    match j {
        Json::Null => Some(None),
        Json::Num(t) => Some(Some(t)),
        _ => None,
    }
}

pub open spec fn numseq_of(elts: Seq<Json>) -> Option<Seq<Option<Seq<char>>>> {
    if forall|i: int| 0 <= i < elts.len() ==> (#[trigger] num_cell_of(elts[i])) is Some {
        Some(Seq::new(elts.len(), |i: int| num_cell_of(elts[i])->Some_0))
    } else {
        None
    }
}

pub open spec fn opt_numseq_field(m: Map<Seq<char>, Json>, key: Seq<char>) -> Option<
    Option<Seq<Option<Seq<char>>>>,
> {
    if !m.dom().contains(key) {
        Some(None)
    } else {
        match m[key] {
            Json::Null => Some(None),
            Json::Arr(elts) => match numseq_of(elts) {
                Some(s) => Some(Some(s)),
                None => None,
            },
            _ => None,
        }
    }
}

pub open spec fn strseq_of(elts: Seq<Json>) -> Option<Seq<Seq<char>>> {
    if forall|i: int| 0 <= i < elts.len() ==> (#[trigger] elts[i]) is Str {
        Some(Seq::new(elts.len(), |i: int| elts[i]->Str_0))
    } else {
        None
    }
}

pub open spec fn opt_strseq_field(m: Map<Seq<char>, Json>, key: Seq<char>) -> Option<
    Option<Seq<Seq<char>>>,
> {
    if !m.dom().contains(key) {
        Some(None)
    } else {
        match m[key] {
            Json::Null => Some(None),
            Json::Arr(elts) => match strseq_of(elts) {
                Some(s) => Some(Some(s)),
                None => None,
            },
            _ => None,
        }
    }
}

// ---------------------------------------------------------------------------
// Verified field extraction over a parsed `serde_json::Value`.
// ---------------------------------------------------------------------------
fn get_req_bool(v: &serde_json::Value, key: &str) -> (r: Result<bool, ()>)
    requires
        json_model(*v) is Obj,
    ensures
        json_model(*v) matches Json::Obj(m) ==> (match r {
            Ok(b) => req_bool_field(m, key@) == Some(b),
            Err(_) => req_bool_field(m, key@) is None,
        }),
{
    match get_field(v, key) {
        None => Err(()),
        Some(f) => match f.as_bool() {
            Some(b) => Ok(b),
            None => Err(()),
        },
    }
}

fn get_opt_str(v: &serde_json::Value, key: &str) -> (r: Result<Option<String>, ()>)
    requires
        json_model(*v) is Obj,
    ensures
        json_model(*v) matches Json::Obj(m) ==> (match r {
            Ok(x) => opt_str_field(m, key@) == Some(crate::results::opt_str_view(x)),
            Err(_) => opt_str_field(m, key@) is None,
        }),
{
    match get_field(v, key) {
        None => Ok(None),
        Some(f) => {
            if f.is_null() {
                Ok(None)
            } else {
                match f.as_str() {
                    Some(s) => Ok(Some(s.to_owned())),
                    None => Err(()),
                }
            }
        },
    }
}

fn get_opt_i32(v: &serde_json::Value, key: &str) -> (r: Result<Option<i32>, ()>)
    requires
        json_model(*v) is Obj,
    ensures
        json_model(*v) matches Json::Obj(m) ==> (match r {
            Ok(x) => opt_i32_field(m, key@) == Some(crate::results::opt_i32_view(x)),
            Err(_) => opt_i32_field(m, key@) is None,
        }),
{
    match get_field(v, key) {
        None => Ok(None),
        Some(f) => {
            if f.is_null() {
                Ok(None)
            } else {
                match f.as_i64() {
                    Some(x) => {
                        if -0x8000_0000i64 <= x && x <= 0x7fff_ffffi64 {
                            Ok(Some(x as i32))
                        } else {
                            Err(())
                        }
                    },
                    None => Err(()),
                }
            }
        },
    }
}

#[verifier::loop_isolation(false)]
fn get_opt_numseq(v: &serde_json::Value, key: &str) -> (r: Result<
    Option<Vec<Option<serde_json::Number>>>,
    (),
>)
    requires
        json_model(*v) is Obj,
    ensures
        json_model(*v) matches Json::Obj(m) ==> (match r {
            Ok(x) => opt_numseq_field(m, key@) == Some(crate::results::numseq_view(x)),
            Err(_) => opt_numseq_field(m, key@) is None,
        }),
{
    match get_field(v, key) {
        None => Ok(None),
        Some(f) => {
            if f.is_null() {
                return Ok(None);
            }
            match f.as_array() {
                None => Err(()),
                Some(arr) => {
                    let ghost elts = json_model(*f)->Arr_0;
                    let n = arr.len();
                    let mut out: Vec<Option<serde_json::Number>> = Vec::new();
                    let mut i: usize = 0;
                    while i < n
                        invariant
                            json_model(*f) == Json::Arr(elts),
                            n == arr@.len(),
                            elts.len() == n,
                            forall|k: int|
                                0 <= k < n ==> json_model(#[trigger] arr@[k]) == elts[k],
                            0 <= i <= n,
                            out@.len() == i,
                            forall|k: int|
                                0 <= k < i ==> ((#[trigger] num_cell_of(elts[k])) matches Some(c)
                                    && c == crate::results::num_cell_view(out@[k])),
                        decreases n - i,
                    {
                        let e = &arr[i];
                        if e.is_null() {
                            out.push(None);
                        } else {
                            match e.as_number() {
                                Some(num) => out.push(Some(num.clone())),
                                None => {
                                    proof {
                                        assert(num_cell_of(elts[i as int]) is None);
                                        assert(numseq_of(elts) is None);
                                    }
                                    return Err(());
                                },
                            }
                        }
                        i = i + 1;
                    }
                    proof {
                        let s = Seq::new(elts.len(), |k: int| num_cell_of(elts[k])->Some_0);
                        assert(numseq_of(elts) == Some(s));
                        assert(out@.map_values(
                            |c: Option<serde_json::Number>| crate::results::num_cell_view(c),
                        ) =~= s);
                    }
                    Ok(Some(out))
                },
            }
        },
    }
}

#[verifier::loop_isolation(false)]
fn get_opt_strseq(v: &serde_json::Value, key: &str) -> (r: Result<Option<Vec<String>>, ()>)
    requires
        json_model(*v) is Obj,
    ensures
        json_model(*v) matches Json::Obj(m) ==> (match r {
            Ok(x) => opt_strseq_field(m, key@) == Some(crate::results::strseq_view(x)),
            Err(_) => opt_strseq_field(m, key@) is None,
        }),
{
    match get_field(v, key) {
        None => Ok(None),
        Some(f) => {
            if f.is_null() {
                return Ok(None);
            }
            match f.as_array() {
                None => Err(()),
                Some(arr) => {
                    let ghost elts = json_model(*f)->Arr_0;
                    let n = arr.len();
                    let mut out: Vec<String> = Vec::new();
                    let mut i: usize = 0;
                    while i < n
                        invariant
                            json_model(*f) == Json::Arr(elts),
                            n == arr@.len(),
                            elts.len() == n,
                            forall|k: int|
                                0 <= k < n ==> json_model(#[trigger] arr@[k]) == elts[k],
                            0 <= i <= n,
                            out@.len() == i,
                            forall|k: int|
                                0 <= k < i ==> ((#[trigger] elts[k]) is Str && elts[k]->Str_0
                                    == out@[k]@),
                        decreases n - i,
                    {
                        let e = &arr[i];
                        match e.as_str() {
                            Some(s) => out.push(s.to_owned()),
                            None => {
                                proof {
                                    assert(!(elts[i as int] is Str));
                                    assert(strseq_of(elts) is None);
                                }
                                return Err(());
                            },
                        }
                        i = i + 1;
                    }
                    proof {
                        let s = Seq::new(elts.len(), |k: int| elts[k]->Str_0);
                        assert(strseq_of(elts) == Some(s));
                        assert(out.deep_view() =~~= s);
                    }
                    Ok(Some(out))
                },
            }
        },
    }
}

// ---------------------------------------------------------------------------
// The two result shapes.
// ---------------------------------------------------------------------------
/// Which documents decode as a time-series / seasonality result, and to
/// what: the document must be an object whose `success` field is a boolean;
/// every other field may be absent or null, and reads as missing then; a
/// field of the wrong type fails the decode.
pub open spec fn seasonality_of(j: Json) -> Option<crate::results::SeasonalityModel> {
    match j {
        Json::Obj(m) => {
            if req_bool_field(m, "success"@) is Some && opt_str_field(m, "message"@) is Some
                && opt_i32_field(m, "rows_added"@) is Some && opt_str_field(m, "last_date"@)
                is Some && opt_numseq_field(m, "avg_2yr"@) is Some && opt_numseq_field(
                m,
                "avg_5yr"@,
            ) is Some && opt_numseq_field(m, "avg_6yr"@) is Some && opt_numseq_field(
                m,
                "avg_10yr"@,
            ) is Some && opt_numseq_field(m, "actual"@) is Some && opt_i32_field(
                m,
                "target_year"@,
            ) is Some {
                Some(
                    crate::results::SeasonalityModel {
                        success: req_bool_field(m, "success"@)->Some_0,
                        message: opt_str_field(m, "message"@)->Some_0,
                        rows_added: opt_i32_field(m, "rows_added"@)->Some_0,
                        last_date: opt_str_field(m, "last_date"@)->Some_0,
                        avg_2yr: opt_numseq_field(m, "avg_2yr"@)->Some_0,
                        avg_5yr: opt_numseq_field(m, "avg_5yr"@)->Some_0,
                        avg_6yr: opt_numseq_field(m, "avg_6yr"@)->Some_0,
                        avg_10yr: opt_numseq_field(m, "avg_10yr"@)->Some_0,
                        actual: opt_numseq_field(m, "actual"@)->Some_0,
                        target_year: opt_i32_field(m, "target_year"@)->Some_0,
                    },
                )
            } else {
                None
            }
        },
        _ => None,
    }
}

/// Decode a parsed document as a time-series / seasonality result.
pub fn decode_seasonality(v: &serde_json::Value) -> (r: Result<
    crate::results::SeasonalityResult,
    (),
>)
    ensures
        r is Ok <==> seasonality_of(json_model(*v)) is Some,
        r matches Ok(res) ==> seasonality_of(json_model(*v)) == Some(res@),
{
    if !v.is_object() {
        return Err(());
    }
    let success = match get_req_bool(v, "success") {
        Ok(x) => x,
        Err(_) => {
            return Err(());
        },
    };
    let message = match get_opt_str(v, "message") {
        Ok(x) => x,
        Err(_) => {
            return Err(());
        },
    };
    let rows_added = match get_opt_i32(v, "rows_added") {
        Ok(x) => x,
        Err(_) => {
            return Err(());
        },
    };
    let last_date = match get_opt_str(v, "last_date") {
        Ok(x) => x,
        Err(_) => {
            return Err(());
        },
    };
    let avg_2yr = match get_opt_numseq(v, "avg_2yr") {
        Ok(x) => x,
        Err(_) => {
            return Err(());
        },
    };
    let avg_5yr = match get_opt_numseq(v, "avg_5yr") {
        Ok(x) => x,
        Err(_) => {
            return Err(());
        },
    };
    let avg_6yr = match get_opt_numseq(v, "avg_6yr") {
        Ok(x) => x,
        Err(_) => {
            return Err(());
        },
    };
    let avg_10yr = match get_opt_numseq(v, "avg_10yr") {
        Ok(x) => x,
        Err(_) => {
            return Err(());
        },
    };
    let actual = match get_opt_numseq(v, "actual") {
        Ok(x) => x,
        Err(_) => {
            return Err(());
        },
    };
    let target_year = match get_opt_i32(v, "target_year") {
        Ok(x) => x,
        Err(_) => {
            return Err(());
        },
    };
    let res = crate::results::SeasonalityResult {
        success,
        message,
        rows_added,
        last_date,
        avg_2yr,
        avg_5yr,
        avg_6yr,
        avg_10yr,
        actual,
        target_year,
    };
    proof {
        assert(seasonality_of(json_model(*v)) == Some(res@));
    }
    Ok(res)
}

/// Which documents decode as a Commitment-of-Traders result, under the same
/// reading of absent, null and mistyped fields.
pub open spec fn cot_of(j: Json) -> Option<crate::results::COTModel> {
    match j {
        Json::Obj(m) => {
            if req_bool_field(m, "success"@) is Some && opt_str_field(m, "message"@) is Some
                && opt_i32_field(m, "rows_added"@) is Some && opt_str_field(m, "last_date"@)
                is Some && opt_strseq_field(m, "dates"@) is Some && opt_numseq_field(
                m,
                "open_interest"@,
            ) is Some && opt_numseq_field(m, "noncomm_net"@) is Some && opt_numseq_field(
                m,
                "comm_net"@,
            ) is Some && opt_numseq_field(m, "noncomm_long"@) is Some && opt_numseq_field(
                m,
                "noncomm_short"@,
            ) is Some && opt_numseq_field(m, "comm_long"@) is Some && opt_numseq_field(
                m,
                "comm_short"@,
            ) is Some && opt_numseq_field(m, "noncomm_net_change"@) is Some && opt_numseq_field(
                m,
                "comm_net_change"@,
            ) is Some && opt_numseq_field(m, "oi_change"@) is Some {
                Some(
                    crate::results::COTModel {
                        success: req_bool_field(m, "success"@)->Some_0,
                        message: opt_str_field(m, "message"@)->Some_0,
                        rows_added: opt_i32_field(m, "rows_added"@)->Some_0,
                        last_date: opt_str_field(m, "last_date"@)->Some_0,
                        dates: opt_strseq_field(m, "dates"@)->Some_0,
                        open_interest: opt_numseq_field(m, "open_interest"@)->Some_0,
                        noncomm_net: opt_numseq_field(m, "noncomm_net"@)->Some_0,
                        comm_net: opt_numseq_field(m, "comm_net"@)->Some_0,
                        noncomm_long: opt_numseq_field(m, "noncomm_long"@)->Some_0,
                        noncomm_short: opt_numseq_field(m, "noncomm_short"@)->Some_0,
                        comm_long: opt_numseq_field(m, "comm_long"@)->Some_0,
                        comm_short: opt_numseq_field(m, "comm_short"@)->Some_0,
                        noncomm_net_change: opt_numseq_field(m, "noncomm_net_change"@)->Some_0,
                        comm_net_change: opt_numseq_field(m, "comm_net_change"@)->Some_0,
                        oi_change: opt_numseq_field(m, "oi_change"@)->Some_0,
                    },
                )
            } else {
                None
            }
        },
        _ => None,
    }
}

/// Decode a parsed document as a Commitment-of-Traders result.
pub fn decode_cot(v: &serde_json::Value) -> (r: Result<crate::results::COTResult, ()>)
    ensures
        r is Ok <==> cot_of(json_model(*v)) is Some,
        r matches Ok(res) ==> cot_of(json_model(*v)) == Some(res@),
{
    if !v.is_object() {
        return Err(());
    }
    let success = match get_req_bool(v, "success") {
        Ok(x) => x,
        Err(_) => {
            return Err(());
        },
    };
    let message = match get_opt_str(v, "message") {
        Ok(x) => x,
        Err(_) => {
            return Err(());
        },
    };
    let rows_added = match get_opt_i32(v, "rows_added") {
        Ok(x) => x,
        Err(_) => {
            return Err(());
        },
    };
    let last_date = match get_opt_str(v, "last_date") {
        Ok(x) => x,
        Err(_) => {
            return Err(());
        },
    };
    let dates = match get_opt_strseq(v, "dates") {
        Ok(x) => x,
        Err(_) => {
            return Err(());
        },
    };
    let open_interest = match get_opt_numseq(v, "open_interest") {
        Ok(x) => x,
        Err(_) => {
            return Err(());
        },
    };
    let noncomm_net = match get_opt_numseq(v, "noncomm_net") {
        Ok(x) => x,
        Err(_) => {
            return Err(());
        },
    };
    let comm_net = match get_opt_numseq(v, "comm_net") {
        Ok(x) => x,
        Err(_) => {
            return Err(());
        },
    };
    let noncomm_long = match get_opt_numseq(v, "noncomm_long") {
        Ok(x) => x,
        Err(_) => {
            return Err(());
        },
    };
    let noncomm_short = match get_opt_numseq(v, "noncomm_short") {
        Ok(x) => x,
        Err(_) => {
            return Err(());
        },
    };
    let comm_long = match get_opt_numseq(v, "comm_long") {
        Ok(x) => x,
        Err(_) => {
            return Err(());
        },
    };
    let comm_short = match get_opt_numseq(v, "comm_short") {
        Ok(x) => x,
        Err(_) => {
            return Err(());
        },
    };
    let noncomm_net_change = match get_opt_numseq(v, "noncomm_net_change") {
        Ok(x) => x,
        Err(_) => {
            return Err(());
        },
    };
    let comm_net_change = match get_opt_numseq(v, "comm_net_change") {
        Ok(x) => x,
        Err(_) => {
            return Err(());
        },
    };
    let oi_change = match get_opt_numseq(v, "oi_change") {
        Ok(x) => x,
        Err(_) => {
            return Err(());
        },
    };
    let res = crate::results::COTResult {
        success,
        message,
        rows_added,
        last_date,
        dates,
        open_interest,
        noncomm_net,
        comm_net,
        noncomm_long,
        noncomm_short,
        comm_long,
        comm_short,
        noncomm_net_change,
        comm_net_change,
        oi_change,
    };
    proof {
        assert(cot_of(json_model(*v)) == Some(res@));
    }
    Ok(res)
}

} // verus!
