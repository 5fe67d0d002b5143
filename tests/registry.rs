use std::collections::VecDeque;
use vm_runtime_types::builtins::native_function_map;
use vm_runtime_types::dispatch::{dispatch_native_function, NativeFunctionMap, NativeOp};
use vm_runtime_types::status::NativeReturnStatus;
use vm_runtime_types::types::{SignatureToken, StructHandleIndex, Value};

#[test]
fn lookup_keccak256_is_present() {
    let m = native_function_map();
    let f = dispatch_native_function(&m, "Hash", "keccak256").expect("registered");
    assert_eq!(f.num_args(), 1);
    assert_eq!(f.dispatch, NativeOp::Keccak256);
    assert_eq!(f.expected_signature.arg_types, vec![SignatureToken::ByteArray]);
    assert_eq!(f.expected_signature.return_types, vec![SignatureToken::ByteArray]);
    assert!(f.expected_signature.kind_constraints.is_empty());
}

#[test]
fn lookup_unknown_module_is_absent() {
    let m = native_function_map();
    assert!(dispatch_native_function(&m, "Nope", "foo").is_none());
}

#[test]
fn lookup_unknown_function_in_known_module_is_absent() {
    let m = native_function_map();
    assert!(dispatch_native_function(&m, "Hash", "foo").is_none());
}

#[test]
fn lookup_ed25519_verify() {
    let m = native_function_map();
    let f = dispatch_native_function(&m, "Signature", "ed25519_verify").expect("registered");
    assert_eq!(f.num_args(), 3);
    assert_eq!(f.expected_signature.return_types, vec![SignatureToken::Bool]);
}

#[test]
fn lookup_ed25519_threshold_verify() {
    let m = native_function_map();
    let f = dispatch_native_function(&m, "Signature", "ed25519_threshold_verify").expect("registered");
    assert_eq!(f.num_args(), 4);
    assert_eq!(f.expected_signature.return_types, vec![SignatureToken::U64]);
}

#[test]
fn lookup_every_builtin() {
    let m = native_function_map();
    let table: Vec<(&str, &str, NativeOp, usize)> = vec![
        ("Hash", "keccak256", NativeOp::Keccak256, 1),
        ("Hash", "ripemd160", NativeOp::Ripemd160, 1),
        ("Hash", "sha2_256", NativeOp::Sha2_256, 1),
        ("Hash", "sha3_256", NativeOp::Sha3_256, 1),
        ("Signature", "ed25519_verify", NativeOp::Ed25519Verify, 3),
        ("Signature", "ed25519_threshold_verify", NativeOp::Ed25519ThresholdVerify, 4),
        ("AddressUtil", "address_to_bytes", NativeOp::AddressToBytes, 1),
        ("U64Util", "u64_to_bytes", NativeOp::U64ToBytes, 1),
        ("BytearrayUtil", "bytearray_concat", NativeOp::BytearrayConcat, 2),
        ("Vector", "length", NativeOp::VectorLength, 1),
    ];
    for (module, name, op, n) in table {
        let f = dispatch_native_function(&m, module, name).expect("registered");
        assert_eq!(f.dispatch, op);
        assert_eq!(f.num_args(), n);
        assert_eq!(f.num_args(), f.expected_signature.arg_types.len());
        assert_eq!(f.expected_signature.return_types.len(), 1);
    }
    let f = dispatch_native_function(&m, "Vector", "length").expect("registered");
    assert_eq!(
        f.expected_signature.arg_types,
        vec![SignatureToken::Reference(Box::new(SignatureToken::Struct(StructHandleIndex(0), vec![])))]
    );
    assert!(dispatch_native_function(&m, "hash", "keccak256").is_none());
    assert!(dispatch_native_function(&m, "", "").is_none());
}

#[test]
fn num_args_follows_declared_arguments() {
    let mut m = NativeFunctionMap::new();
    m.register("M", "none", NativeOp::Keccak256, vec![], vec![]);
    m.register(
        "M",
        "five",
        NativeOp::Keccak256,
        vec![SignatureToken::U64, SignatureToken::Bool, SignatureToken::Address, SignatureToken::String, SignatureToken::TypeParameter(0)],
        vec![],
    );
    assert_eq!(dispatch_native_function(&m, "M", "none").unwrap().num_args(), 0);
    assert_eq!(dispatch_native_function(&m, "M", "five").unwrap().num_args(), 5);
}

#[test]
fn register_two_functions_in_one_module() {
    let mut m = NativeFunctionMap::new();
    m.register("Mod", "a", NativeOp::Sha2_256, vec![SignatureToken::ByteArray], vec![SignatureToken::ByteArray]);
    m.register("Mod", "b", NativeOp::U64ToBytes, vec![SignatureToken::U64], vec![SignatureToken::ByteArray]);
    let a = dispatch_native_function(&m, "Mod", "a").expect("a registered");
    let b = dispatch_native_function(&m, "Mod", "b").expect("b registered");
    assert_eq!(a.dispatch, NativeOp::Sha2_256);
    assert_eq!(a.expected_signature.arg_types, vec![SignatureToken::ByteArray]);
    assert_eq!(b.dispatch, NativeOp::U64ToBytes);
    assert_eq!(b.expected_signature.arg_types, vec![SignatureToken::U64]);
    assert!(dispatch_native_function(&m, "Mod", "c").is_none());
    assert!(dispatch_native_function(&m, "Other", "a").is_none());
}

#[test]
fn register_again_replaces_the_record() {
    let mut m = NativeFunctionMap::new();
    m.register("Mod", "f", NativeOp::Sha2_256, vec![SignatureToken::ByteArray], vec![SignatureToken::ByteArray]);
    m.register("Mod", "g", NativeOp::VectorLength, vec![SignatureToken::U64], vec![SignatureToken::U64]);
    m.register(
        "Mod",
        "f",
        NativeOp::BytearrayConcat,
        vec![SignatureToken::ByteArray, SignatureToken::ByteArray],
        vec![SignatureToken::Bool],
    );
    let f = dispatch_native_function(&m, "Mod", "f").expect("registered");
    assert_eq!(f.dispatch, NativeOp::BytearrayConcat);
    assert_eq!(f.num_args(), 2);
    assert_eq!(f.expected_signature.return_types, vec![SignatureToken::Bool]);
    let g = dispatch_native_function(&m, "Mod", "g").expect("registered");
    assert_eq!(g.dispatch, NativeOp::VectorLength);
}

#[test]
fn short_argument_sequence_is_invalid() {
    let m = native_function_map();
    let cases: Vec<(&str, &str)> = vec![
        ("Hash", "keccak256"),
        ("Hash", "sha3_256"),
        ("Signature", "ed25519_verify"),
        ("Signature", "ed25519_threshold_verify"),
        ("BytearrayUtil", "bytearray_concat"),
        ("U64Util", "u64_to_bytes"),
    ];
    for (module, name) in cases {
        let f = dispatch_native_function(&m, module, name).expect("registered");
        let mut args = VecDeque::new();
        for _ in 1..f.num_args() {
            args.push_back(Value::ByteArray(vec![1, 2, 3]));
        }
        assert!(matches!(f.call(args), NativeReturnStatus::InvalidArguments));
        assert!(matches!(f.call(VecDeque::new()), NativeReturnStatus::InvalidArguments));
    }
}

#[test]
fn long_argument_sequence_is_invalid() {
    let m = native_function_map();
    let f = dispatch_native_function(&m, "Hash", "sha2_256").expect("registered");
    let args: VecDeque<Value> = vec![Value::ByteArray(vec![]), Value::ByteArray(vec![])].into();
    assert!(matches!(f.call(args), NativeReturnStatus::InvalidArguments));
}

#[test]
fn sha3_256_through_the_registry() {
    let m = native_function_map();
    let f = dispatch_native_function(&m, "Hash", "sha3_256").expect("registered");
    let args: VecDeque<Value> = vec![Value::ByteArray(b"abc".to_vec())].into();
    match f.call(args) {
        NativeReturnStatus::Success { cost, return_values } => {
            assert!(cost > 0);
            assert_eq!(return_values.len(), 1);
            match &return_values[0] {
                Value::ByteArray(d) => {
                    assert_eq!(d.len(), 32);
                    assert_eq!(
                        d,
                        &hex("3a985da74fe225b2045c172d6bd390bd855f086e3e9d525b46bfe24511431532")
                    );
                }
                other => panic!("unexpected return value {:?}", other),
            }
        }
        other => panic!("unexpected outcome {:?}", other),
    }
}

fn hex(s: &str) -> Vec<u8> {
    (0..s.len()).step_by(2).map(|i| u8::from_str_radix(&s[i..i + 2], 16).unwrap()).collect()
}
