//! The table of built-in native functions.
use vstd::prelude::*;
use crate::dispatch::{is_registration, NativeFunction, NativeFunctionMap, NativeOp};
use crate::types::{SignatureToken, StructHandleIndex};

verus! {

/// `n` byte-array types.
pub open spec fn byte_array_types(n: nat) -> Seq<SignatureToken> {
    Seq::new(n, |_i: int| SignatureToken::ByteArray)
}

/// The type of the container argument of `Vector.length`: a reference to
/// the struct of handle index zero, with no type arguments.
pub open spec fn is_container_ref(t: SignatureToken) -> bool {
    &&& t matches SignatureToken::Reference(inner)
    &&& *inner matches SignatureToken::Struct(idx, params)
    &&& idx == StructHandleIndex(0)
    &&& params@.len() == 0
}

/// `t` maps the pair to the record that registering `op` with these types
/// makes.
pub open spec fn holds_entry(
    t: Map<(Seq<char>, Seq<char>), NativeFunction>,
    module: Seq<char>,
    name: Seq<char>,
    op: NativeOp,
    arg_types: Seq<SignatureToken>,
    return_types: Seq<SignatureToken>,
) -> bool {
    t.contains_key((module, name)) && is_registration(t[(module, name)], op, arg_types, return_types)
}

/// The (module, function) pairs of the built-in table.
pub open spec fn builtin_keys() -> Set<(Seq<char>, Seq<char>)> {
    set![
        ("Hash"@, "keccak256"@),
        ("Hash"@, "ripemd160"@),
        ("Hash"@, "sha2_256"@),
        ("Hash"@, "sha3_256"@),
        ("Signature"@, "ed25519_verify"@),
        ("Signature"@, "ed25519_threshold_verify"@),
        ("AddressUtil"@, "address_to_bytes"@),
        ("U64Util"@, "u64_to_bytes"@),
        ("BytearrayUtil"@, "bytearray_concat"@),
        ("Vector"@, "length"@),
    ]
}

/// The built-in table: each pair, its operation, its argument types and its
/// return types.
pub open spec fn is_builtin_table(t: Map<(Seq<char>, Seq<char>), NativeFunction>) -> bool {
    let bytes = SignatureToken::ByteArray;
    &&& t.dom() == builtin_keys()
    &&& holds_entry(t, "Hash"@, "keccak256"@, NativeOp::Keccak256, seq![bytes], seq![bytes])
    &&& holds_entry(t, "Hash"@, "ripemd160"@, NativeOp::Ripemd160, seq![bytes], seq![bytes])
    &&& holds_entry(t, "Hash"@, "sha2_256"@, NativeOp::Sha2_256, seq![bytes], seq![bytes])
    &&& holds_entry(t, "Hash"@, "sha3_256"@, NativeOp::Sha3_256, seq![bytes], seq![bytes])
    &&& holds_entry(
        t,
        "Signature"@,
        "ed25519_verify"@,
        NativeOp::Ed25519Verify,
        byte_array_types(3),
        seq![SignatureToken::Bool],
    )
    &&& holds_entry(
        t,
        "Signature"@,
        "ed25519_threshold_verify"@,
        NativeOp::Ed25519ThresholdVerify,
        byte_array_types(4),
        seq![SignatureToken::U64],
    )
    &&& holds_entry(
        t,
        "AddressUtil"@,
        "address_to_bytes"@,
        NativeOp::AddressToBytes,
        seq![SignatureToken::Address],
        seq![bytes],
    )
    &&& holds_entry(
        t,
        "U64Util"@,
        "u64_to_bytes"@,
        NativeOp::U64ToBytes,
        seq![SignatureToken::U64],
        seq![bytes],
    )
    &&& holds_entry(
        t,
        "BytearrayUtil"@,
        "bytearray_concat"@,
        NativeOp::BytearrayConcat,
        byte_array_types(2),
        seq![bytes],
    )
    &&& t.contains_key(("Vector"@, "length"@))
    &&& t[("Vector"@, "length"@)].dispatch == NativeOp::VectorLength
    &&& t[("Vector"@, "length"@)].expected_signature.arg_types@.len() == 1
    &&& is_container_ref(t[("Vector"@, "length"@)].expected_signature.arg_types@[0])
    &&& t[("Vector"@, "length"@)].expected_signature.return_types@ == seq![SignatureToken::U64]
    &&& t[("Vector"@, "length"@)].expected_signature.kind_constraints@.len() == 0
}

fn one_type(t: SignatureToken) -> (r: Vec<SignatureToken>)
    ensures
        r@ == seq![t],
{
    let mut v: Vec<SignatureToken> = Vec::new();
    v.push(t);
    assert(v@ =~= seq![t]);
    v
}

fn byte_arrays(n: usize) -> (r: Vec<SignatureToken>)
    ensures
        r@ == byte_array_types(n as nat),
{
    let mut v: Vec<SignatureToken> = Vec::new();
    let mut i: usize = 0;
    while i < n
        invariant
            i <= n,
            v@ == byte_array_types(i as nat),
        decreases n - i,
    {
        v.push(SignatureToken::ByteArray);
        i = i + 1;
        assert(v@ =~= byte_array_types(i as nat));
    }
    v
}

/// Builds the registry of built-in native functions. It is built once,
/// before any lookup, and only read afterwards.
pub fn native_function_map() -> (r: NativeFunctionMap)
    ensures
        r.wf(),
        is_builtin_table(r@),
{
    // The contents of the name literals tell the keys apart.
    proof {
        reveal_strlit("Hash");
        reveal_strlit("Signature");
        reveal_strlit("AddressUtil");
        reveal_strlit("U64Util");
        reveal_strlit("BytearrayUtil");
        reveal_strlit("Vector");
        reveal_strlit("keccak256");
        reveal_strlit("ripemd160");
        reveal_strlit("sha2_256");
        reveal_strlit("sha3_256");
        reveal_strlit("ed25519_verify");
        reveal_strlit("ed25519_threshold_verify");
        reveal_strlit("address_to_bytes");
        reveal_strlit("u64_to_bytes");
        reveal_strlit("bytearray_concat");
        reveal_strlit("length");
        assert("Hash"@.len() == 4);
        assert("Signature"@.len() == 9);
        assert("AddressUtil"@.len() == 11);
        assert("U64Util"@.len() == 7);
        assert("BytearrayUtil"@.len() == 13);
        assert("Vector"@.len() == 6);
        assert("keccak256"@.len() == 9);
        assert("ripemd160"@.len() == 9);
        assert("sha2_256"@.len() == 8);
        assert("sha3_256"@.len() == 8);
        assert("ed25519_verify"@.len() == 14);
        assert("ed25519_threshold_verify"@.len() == 24);
        assert("address_to_bytes"@.len() == 16);
        assert("u64_to_bytes"@.len() == 12);
        assert("bytearray_concat"@.len() == 16);
        assert("length"@.len() == 6);
        assert("keccak256"@[0] != "ripemd160"@[0]);
        assert("sha2_256"@[3] != "sha3_256"@[3]);
        assert(byte_array_types(1) =~= seq![SignatureToken::ByteArray]);
    }
    let mut m = NativeFunctionMap::new();
    // Hash
    m.register("Hash", "keccak256", NativeOp::Keccak256, byte_arrays(1), byte_arrays(1));
    m.register("Hash", "ripemd160", NativeOp::Ripemd160, byte_arrays(1), byte_arrays(1));
    m.register("Hash", "sha2_256", NativeOp::Sha2_256, byte_arrays(1), byte_arrays(1));
    m.register("Hash", "sha3_256", NativeOp::Sha3_256, byte_arrays(1), byte_arrays(1));
    // Signature
    m.register(
        "Signature",
        "ed25519_verify",
        NativeOp::Ed25519Verify,
        byte_arrays(3),
        one_type(SignatureToken::Bool),
    );
    m.register(
        "Signature",
        "ed25519_threshold_verify",
        NativeOp::Ed25519ThresholdVerify,
        byte_arrays(4),
        one_type(SignatureToken::U64),
    );
    // AddressUtil
    m.register(
        "AddressUtil",
        "address_to_bytes",
        NativeOp::AddressToBytes,
        one_type(SignatureToken::Address),
        byte_arrays(1),
    );
    // U64Util
    m.register(
        "U64Util",
        "u64_to_bytes",
        NativeOp::U64ToBytes,
        one_type(SignatureToken::U64),
        byte_arrays(1),
    );
    // BytearrayUtil
    m.register(
        "BytearrayUtil",
        "bytearray_concat",
        NativeOp::BytearrayConcat,
        byte_arrays(2),
        byte_arrays(1),
    );
    // Vector
    let container = SignatureToken::Reference(
        Box::new(SignatureToken::Struct(StructHandleIndex(0), Vec::new())),
    );
    m.register(
        "Vector",
        "length",
        NativeOp::VectorLength,
        one_type(container),
        one_type(SignatureToken::U64),
    );
    proof {
        assert(m@.dom() =~= builtin_keys());
    }
    m
}

} // verus!
