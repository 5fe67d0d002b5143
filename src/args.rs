//! Extraction of arguments from an argument sequence.
//!
//! The interpreter builds the sequence in declared parameter order, so the
//! argument pushed last is at the back. Every native function takes its
//! arguments from the back, last parameter first. Each extraction removes one
//! element; a missing element or one of the wrong kind gives `None`.
use vstd::prelude::*;
use std::collections::VecDeque;
use crate::types::Value;

verus! {

/// The bytes of each argument, when there are exactly `n` arguments and all of
/// them are byte arrays.
pub open spec fn byte_array_args(args: Seq<Value>, n: nat) -> Option<Seq<Seq<u8>>> {
    if args.len() == n && forall|i: int| 0 <= i < n ==> (#[trigger] args[i]) is ByteArray {
        Some(args.map_values(|v: Value| v->ByteArray_0@))
    } else {
        None
    }
}

/// What one extraction from the back leaves of the sequence.
pub open spec fn after_pop(args: Seq<Value>) -> Seq<Value> {
    if args.len() == 0 {
        args
    } else {
        args.drop_last()
    }
}

/// Removes the last argument and returns its bytes if it is a byte array.
pub fn pop_byte_array(args: &mut VecDeque<Value>) -> (r: Option<Vec<u8>>)
    ensures
        final(args)@ == after_pop(old(args)@),
        r is Some <==> (old(args)@.len() > 0 && old(args)@.last() is ByteArray),
        r matches Some(b) ==> old(args)@.last() == Value::ByteArray(b),
{
    match args.pop_back() {
        Some(Value::ByteArray(b)) => Some(b),
        _ => None,
    }
}

/// Removes the last argument and returns its bytes if it is an address.
pub fn pop_address(args: &mut VecDeque<Value>) -> (r: Option<Vec<u8>>)
    ensures
        final(args)@ == after_pop(old(args)@),
        r is Some <==> (old(args)@.len() > 0 && old(args)@.last() is Address),
        r matches Some(a) ==> old(args)@.last() == Value::Address(a),
{
    match args.pop_back() {
        Some(Value::Address(a)) => Some(a),
        _ => None,
    }
}

/// Removes the last argument and returns it if it is a `u64`.
pub fn pop_u64(args: &mut VecDeque<Value>) -> (r: Option<u64>)
    ensures
        final(args)@ == after_pop(old(args)@),
        r is Some <==> (old(args)@.len() > 0 && old(args)@.last() is U64),
        r matches Some(x) ==> old(args)@.last() == Value::U64(x),
{
    match args.pop_back() {
        Some(Value::U64(x)) => Some(x),
        _ => None,
    }
}

/// Removes the last argument and returns its elements if it is a container.
pub fn pop_vector(args: &mut VecDeque<Value>) -> (r: Option<Vec<Value>>)
    ensures
        final(args)@ == after_pop(old(args)@),
        r is Some <==> (old(args)@.len() > 0 && old(args)@.last() is Vector),
        r matches Some(v) ==> old(args)@.last() == Value::Vector(v),
{
    match args.pop_back() {
        Some(Value::Vector(v)) => Some(v),
        _ => None,
    }
}

} // verus!
