//! Laws that relate registration, lookup and calls.
use vstd::prelude::*;
use crate::args::byte_array_args;
use crate::dispatch::{NativeFunction, NativeOp};
use crate::status::NativeReturnStatus;
use crate::types::Value;

verus! {

/// Registering two different functions under one module keeps both: each
/// pair maps to its own record, and every other pair keeps what it had.
pub proof fn lemma_register_two_functions(
    t: Map<(Seq<char>, Seq<char>), NativeFunction>,
    module: Seq<char>,
    first: Seq<char>,
    second: Seq<char>,
    first_record: NativeFunction,
    second_record: NativeFunction,
)
    requires
        first != second,
    ensures
        ({
            let after = t.insert((module, first), first_record).insert((module, second), second_record);
            &&& after.contains_key((module, first))
            &&& after[(module, first)] == first_record
            &&& after.contains_key((module, second))
            &&& after[(module, second)] == second_record
            &&& forall|k: (Seq<char>, Seq<char>)|
                k != (module, first) && k != (module, second) ==> (#[trigger] after.contains_key(k)
                    == t.contains_key(k) && (t.contains_key(k) ==> after[k] == t[k]))
        }),
{
}

/// Registering a pair again replaces its record: the registry is the same as
/// if only the second registration had been made.
pub proof fn lemma_register_replaces(
    t: Map<(Seq<char>, Seq<char>), NativeFunction>,
    key: (Seq<char>, Seq<char>),
    earlier: NativeFunction,
    later: NativeFunction,
)
    ensures
        t.insert(key, earlier).insert(key, later) == t.insert(key, later),
        t.insert(key, earlier).insert(key, later)[key] == later,
{
    assert(t.insert(key, earlier).insert(key, later) =~= t.insert(key, later));
}

/// SHA3-256 on one byte array succeeds at a positive cost and returns exactly
/// one byte array, of 32 bytes.
pub proof fn lemma_sha3_256_on_byte_array(args: Seq<Value>, r: NativeReturnStatus)
    requires
        NativeOp::Sha3_256.spec_result(args, r),
        args.len() == 1,
        args[0] is ByteArray,
    ensures
        r matches NativeReturnStatus::Success { cost, return_values } && cost > 0
            && return_values@.len() == 1 && return_values@[0] is ByteArray
            && return_values@[0]->ByteArray_0@.len() == 32,
{
    assert(byte_array_args(args, 1) is Some);
}

} // verus!
