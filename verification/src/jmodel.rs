use vstd::prelude::*;

verus! {

/// Mathematical model of a JSON document, used by the contracts of the
/// decoding layer. Numbers are modelled by their canonical decimal
/// rendering, since this library never computes with them: it only carries
/// them from the worker's output to the caller.
pub enum Json {
    Null,
    Bool(bool),
    Num(Seq<char>),
    Str(Seq<char>),
    Arr(Seq<Json>),
    Obj(Map<Seq<char>, Json>),
}

} // verus!
