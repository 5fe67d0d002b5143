//! The built-in native operations. Each one takes its arguments from the back
//! of the sequence (see `args`), checks that there are exactly as many as it
//! declares and that each has the kind it expects, and otherwise returns
//! `InvalidArguments`.
use vstd::prelude::*;
use std::collections::VecDeque;
use crate::args::{byte_array_args, pop_address, pop_byte_array, pop_u64, pop_vector};
use crate::crypto::{
    ed25519_check, ed25519_outcome, keccak256, keccak256_of, ripemd160, ripemd160_of, sha2_256,
    sha2_256_of, sha3_256, sha3_256_of,
};
use crate::status::NativeReturnStatus;
use crate::types::Value;

verus! {

/// The error code of an abort raised by a signature check.
pub const SIGNATURE_ERROR_CODE: u64 = 0x0ED2_5519;

/// The gas cost of a native operation that does not depend on its input.
pub const FIXED_COST: u64 = 1;

/// The gas cost of an operation over `n` bytes: one unit per byte plus one,
/// capped at `u64::MAX`.
pub open spec fn byte_cost(n: nat) -> u64 {
    if n + 1 > u64::MAX {
        u64::MAX
    } else {
        (n + 1) as u64
    }
}

fn cost_of_bytes(n: usize) -> (r: u64)
    ensures
        r == byte_cost(n as nat),
{
    (n as u64).saturating_add(1)
}

/// `r` is a success at cost `cost` that returns the one value `v`.
pub open spec fn returns_one(r: NativeReturnStatus, cost: u64, v: Value) -> bool {
    r matches NativeReturnStatus::Success { cost: c, return_values } && c == cost
        && return_values@.len() == 1 && return_values@[0] == v
}

/// `r` is a success at cost `cost` that returns one byte array holding `out`.
pub open spec fn returns_bytes(r: NativeReturnStatus, cost: u64, out: Seq<u8>) -> bool {
    r matches NativeReturnStatus::Success { cost: c, return_values } && c == cost
        && return_values@.len() == 1 && return_values@[0] is ByteArray
        && return_values@[0]->ByteArray_0@ == out
}

/// The outcome of a hash native over its arguments, with `digest` the hash
/// and `size` the length of a digest.
pub open spec fn hash_result(
    args: Seq<Value>,
    r: NativeReturnStatus,
    digest: spec_fn(Seq<u8>) -> Seq<u8>,
    size: nat,
) -> bool {
    match byte_array_args(args, 1) {
        Some(a) => returns_bytes(r, byte_cost(a[0].len()), digest(a[0])) && digest(a[0]).len()
            == size,
        None => r is InvalidArguments,
    }
}

fn one_byte_array(arguments: &mut VecDeque<Value>) -> (r: Option<Vec<u8>>)
    ensures
        match byte_array_args(old(arguments)@, 1) {
            Some(a) => r matches Some(b) && b@ == a[0],
            None => r is None,
        },
{
    if arguments.len() != 1 {
        return None;
    }
    let r = pop_byte_array(arguments);
    proof {
        if r is None {
            assert(!(old(arguments)@[0] is ByteArray));
        }
    }
    r
}

/// Keccak-256 of one byte array.
pub fn native_keccak_256(arguments: VecDeque<Value>) -> (r: NativeReturnStatus)
    ensures
        hash_result(arguments@, r, |b: Seq<u8>| keccak256_of(b), 32),
{
    let mut arguments = arguments;
    match one_byte_array(&mut arguments) {
        Some(b) => {
            let cost = cost_of_bytes(b.len());
            let digest = keccak256(b.as_slice());
            NativeReturnStatus::Success { cost, return_values: vec![Value::ByteArray(digest)] }
        },
        None => NativeReturnStatus::InvalidArguments,
    }
}

/// RIPEMD-160 of one byte array.
pub fn native_ripemd_160(arguments: VecDeque<Value>) -> (r: NativeReturnStatus)
    ensures
        hash_result(arguments@, r, |b: Seq<u8>| ripemd160_of(b), 20),
{
    let mut arguments = arguments;
    match one_byte_array(&mut arguments) {
        Some(b) => {
            let cost = cost_of_bytes(b.len());
            let digest = ripemd160(b.as_slice());
            NativeReturnStatus::Success { cost, return_values: vec![Value::ByteArray(digest)] }
        },
        None => NativeReturnStatus::InvalidArguments,
    }
}

/// SHA-256 of one byte array.
pub fn native_sha2_256(arguments: VecDeque<Value>) -> (r: NativeReturnStatus)
    ensures
        hash_result(arguments@, r, |b: Seq<u8>| sha2_256_of(b), 32),
{
    let mut arguments = arguments;
    match one_byte_array(&mut arguments) {
        Some(b) => {
            let cost = cost_of_bytes(b.len());
            let digest = sha2_256(b.as_slice());
            NativeReturnStatus::Success { cost, return_values: vec![Value::ByteArray(digest)] }
        },
        None => NativeReturnStatus::InvalidArguments,
    }
}

/// SHA3-256 of one byte array.
pub fn native_sha3_256(arguments: VecDeque<Value>) -> (r: NativeReturnStatus)
    ensures
        hash_result(arguments@, r, |b: Seq<u8>| sha3_256_of(b), 32),
{
    let mut arguments = arguments;
    match one_byte_array(&mut arguments) {
        Some(b) => {
            let cost = cost_of_bytes(b.len());
            let digest = sha3_256(b.as_slice());
            NativeReturnStatus::Success { cost, return_values: vec![Value::ByteArray(digest)] }
        },
        None => NativeReturnStatus::InvalidArguments,
    }
}

fn three_byte_arrays(arguments: &mut VecDeque<Value>) -> (r: Option<(Vec<u8>, Vec<u8>, Vec<u8>)>)
    ensures
        match byte_array_args(old(arguments)@, 3) {
            Some(a) => r matches Some((x, y, z)) && x@ == a[0] && y@ == a[1] && z@ == a[2],
            None => r is None,
        },
{
    if arguments.len() != 3 {
        return None;
    }
    let ghost s = arguments@;
    let z = match pop_byte_array(arguments) {
        Some(z) => z,
        None => {
            assert(!(s[2] is ByteArray));
            return None;
        },
    };
    let y = match pop_byte_array(arguments) {
        Some(y) => y,
        None => {
            assert(!(s[1] is ByteArray));
            return None;
        },
    };
    let x = match pop_byte_array(arguments) {
        Some(x) => x,
        None => {
            assert(!(s[0] is ByteArray));
            return None;
        },
    };
    assert(forall|i: int| 0 <= i < 3 ==> (#[trigger] s[i]) is ByteArray);
    Some((x, y, z))
}

/// The outcome of checking the Ed25519 signature `a[0]` of message `a[2]`
/// under public key `a[1]`.
pub open spec fn ed25519_verify_result(args: Seq<Value>, r: NativeReturnStatus) -> bool {
    match byte_array_args(args, 3) {
        Some(a) => match ed25519_outcome(a[0], a[1], a[2]) {
            Some(holds) => returns_one(r, byte_cost(a[2].len()), Value::Bool(holds)),
            None => r == (NativeReturnStatus::Aborted {
                cost: byte_cost(a[2].len()),
                error_code: SIGNATURE_ERROR_CODE,
            }),
        },
        None => r is InvalidArguments,
    }
}

/// Checks an Ed25519 signature; the arguments are the signature, the public
/// key and the message. Returns whether the signature holds, and aborts when
/// the signature or the key does not parse.
pub fn native_ed25519_signature_verification(arguments: VecDeque<Value>) -> (r: NativeReturnStatus)
    ensures
        ed25519_verify_result(arguments@, r),
{
    let mut arguments = arguments;
    match three_byte_arrays(&mut arguments) {
        Some((signature, public_key, message)) => {
            let cost = cost_of_bytes(message.len());
            match ed25519_check(signature.as_slice(), public_key.as_slice(), message.as_slice()) {
                Some(holds) => NativeReturnStatus::Success {
                    cost,
                    return_values: vec![Value::Bool(holds)],
                },
                None => NativeReturnStatus::Aborted { cost, error_code: SIGNATURE_ERROR_CODE },
            }
        },
        None => NativeReturnStatus::InvalidArguments,
    }
}

/// The number of bytes of a signer bitmap; its bits, most significant first,
/// stand for the public keys in order.
pub const BITMAP_SIZE: usize = 4;

/// The number of bytes of one Ed25519 signature.
pub const SIGNATURE_SIZE: usize = 64;

/// The number of bytes of one Ed25519 public key.
pub const PUBLIC_KEY_SIZE: usize = 32;

/// Bit `i` of a signer bitmap, counting from the most significant bit of
/// its first byte.
pub open spec fn bit_set(bitmap: Seq<u8>, i: int) -> bool {
    (bitmap[i / 8] >> ((7 - i % 8) as u8)) & 1u8 == 1u8
}

/// From bit `i` of the bitmap on, with `j` signatures already used: for each
/// set bit, in order, the next signature holds under the public key that the
/// bit stands for, and at the end every signature has been used.
pub open spec fn threshold_walk(
    bitmap: Seq<u8>,
    signatures: Seq<u8>,
    public_keys: Seq<u8>,
    message: Seq<u8>,
    i: nat,
    j: nat,
) -> bool
    decreases 8 * BITMAP_SIZE - i,
{
    if i >= 8 * BITMAP_SIZE {
        j == signatures.len() / (SIGNATURE_SIZE as nat)
    } else if bit_set(bitmap, i as int) {
        &&& i < public_keys.len() / (PUBLIC_KEY_SIZE as nat)
        &&& j < signatures.len() / (SIGNATURE_SIZE as nat)
        &&& ed25519_outcome(
            signatures.subrange(64 * j as int, 64 * j + 64 as int),
            public_keys.subrange(32 * i as int, 32 * i + 32 as int),
            message,
        ) == Some(true)
        &&& threshold_walk(bitmap, signatures, public_keys, message, i + 1, j + 1)
    } else {
        threshold_walk(bitmap, signatures, public_keys, message, i + 1, j)
    }
}

/// Whether a threshold signature holds: the bitmap has its fixed size, the
/// signatures and public keys are whole numbers of their sizes, there are no
/// more public keys than bits, and the walk over the set bits succeeds.
pub open spec fn threshold_accepts(
    bitmap: Seq<u8>,
    signatures: Seq<u8>,
    public_keys: Seq<u8>,
    message: Seq<u8>,
) -> bool {
    &&& bitmap.len() == BITMAP_SIZE
    &&& signatures.len() % (SIGNATURE_SIZE as nat) == 0
    &&& public_keys.len() % (PUBLIC_KEY_SIZE as nat) == 0
    &&& public_keys.len() / (PUBLIC_KEY_SIZE as nat) <= 8 * BITMAP_SIZE
    &&& threshold_walk(bitmap, signatures, public_keys, message, 0, 0)
}

/// Decides `threshold_accepts` by checking each signature in turn.
pub fn threshold_check(bitmap: &[u8], signatures: &[u8], public_keys: &[u8], message: &[u8]) -> (r:
    bool)
    ensures
        r == threshold_accepts(bitmap@, signatures@, public_keys@, message@),
{
    if bitmap.len() != BITMAP_SIZE || signatures.len() % SIGNATURE_SIZE != 0
        || public_keys.len() % PUBLIC_KEY_SIZE != 0 || public_keys.len() / PUBLIC_KEY_SIZE > 8
        * BITMAP_SIZE {
        return false;
    }
    let n_signatures = signatures.len() / SIGNATURE_SIZE;
    let n_keys = public_keys.len() / PUBLIC_KEY_SIZE;
    let mut i: usize = 0;
    let mut j: usize = 0;
    while i < 8 * BITMAP_SIZE
        invariant
            i <= 8 * BITMAP_SIZE,
            bitmap@.len() == BITMAP_SIZE,
            n_signatures == signatures@.len() / (SIGNATURE_SIZE as nat),
            n_keys == public_keys@.len() / (PUBLIC_KEY_SIZE as nat),
            threshold_walk(bitmap@, signatures@, public_keys@, message@, 0, 0) == threshold_walk(
                bitmap@,
                signatures@,
                public_keys@,
                message@,
                i as nat,
                j as nat,
            ),
            j <= i,
        decreases 8 * BITMAP_SIZE - i,
    {
        let shift: u8 = (7 - i % 8) as u8;
        if (bitmap[i / 8] >> shift) & 1u8 == 1u8 {
            if i >= n_keys || j >= n_signatures {
                return false;
            }
            assert(64 * j + 64 <= signatures@.len()) by (nonlinear_arith)
                requires
                    j < n_signatures,
                    n_signatures == signatures@.len() / 64,
            ;
            assert(32 * i + 32 <= public_keys@.len()) by (nonlinear_arith)
                requires
                    i < n_keys,
                    n_keys == public_keys@.len() / 32,
            ;
            let signature = vstd::slice::slice_subrange(signatures, 64 * j, 64 * j + 64);
            let key = vstd::slice::slice_subrange(public_keys, 32 * i, 32 * i + 32);
            match ed25519_check(signature, key, message) {
                Some(true) => {},
                _ => {
                    return false;
                },
            }
            j = j + 1;
        }
        i = i + 1;
    }
    j == n_signatures
}

fn four_byte_arrays(arguments: &mut VecDeque<Value>) -> (r: Option<
    (Vec<u8>, Vec<u8>, Vec<u8>, Vec<u8>),
>)
    ensures
        match byte_array_args(old(arguments)@, 4) {
            Some(a) => r matches Some((w, x, y, z)) && w@ == a[0] && x@ == a[1] && y@ == a[2]
                && z@ == a[3],
            None => r is None,
        },
{
    if arguments.len() != 4 {
        return None;
    }
    let ghost s = arguments@;
    let z = match pop_byte_array(arguments) {
        Some(z) => z,
        None => {
            assert(!(s[3] is ByteArray));
            return None;
        },
    };
    let y = match pop_byte_array(arguments) {
        Some(y) => y,
        None => {
            assert(!(s[2] is ByteArray));
            return None;
        },
    };
    let x = match pop_byte_array(arguments) {
        Some(x) => x,
        None => {
            assert(!(s[1] is ByteArray));
            return None;
        },
    };
    let w = match pop_byte_array(arguments) {
        Some(w) => w,
        None => {
            assert(!(s[0] is ByteArray));
            return None;
        },
    };
    assert(forall|i: int| 0 <= i < 4 ==> (#[trigger] s[i]) is ByteArray);
    Some((w, x, y, z))
}

/// The outcome of a threshold signature check over a signer bitmap `a[0]`,
/// signatures `a[1]`, public keys `a[2]` and a message `a[3]`.
pub open spec fn threshold_verify_result(args: Seq<Value>, r: NativeReturnStatus) -> bool {
    match byte_array_args(args, 4) {
        Some(a) => if threshold_accepts(a[0], a[1], a[2], a[3]) {
            returns_one(
                r,
                byte_cost(a[3].len()),
                Value::U64((a[1].len() / (SIGNATURE_SIZE as nat)) as u64),
            )
        } else {
            r == (NativeReturnStatus::Aborted {
                cost: byte_cost(a[3].len()),
                error_code: SIGNATURE_ERROR_CODE,
            })
        },
        None => r is InvalidArguments,
    }
}

/// Checks a threshold signature; the arguments are the signer bitmap, the
/// concatenated signatures, the concatenated public keys and the message.
/// Returns the number of signatures, all of which hold, and aborts otherwise.
pub fn native_ed25519_threshold_signature_verification(arguments: VecDeque<Value>) -> (r:
    NativeReturnStatus)
    ensures
        threshold_verify_result(arguments@, r),
{
    let mut arguments = arguments;
    match four_byte_arrays(&mut arguments) {
        Some((bitmap, signatures, public_keys, message)) => {
            let cost = cost_of_bytes(message.len());
            if threshold_check(
                bitmap.as_slice(),
                signatures.as_slice(),
                public_keys.as_slice(),
                message.as_slice(),
            ) {
                let count = (signatures.len() / SIGNATURE_SIZE) as u64;
                NativeReturnStatus::Success { cost, return_values: vec![Value::U64(count)] }
            } else {
                NativeReturnStatus::Aborted { cost, error_code: SIGNATURE_ERROR_CODE }
            }
        },
        None => NativeReturnStatus::InvalidArguments,
    }
}

/// The first `n` bytes of the little-endian encoding of `v`.
pub open spec fn le_bytes(v: nat, n: nat) -> Seq<u8>
    decreases n,
{
    if n == 0 {
        seq![]
    } else {
        seq![(v % 256) as u8] + le_bytes(v / 256, (n - 1) as nat)
    }
}

fn u64_le_bytes(v: u64) -> (r: Vec<u8>)
    ensures
        r@ == le_bytes(v as nat, 8),
{
    let mut out: Vec<u8> = Vec::new();
    let mut x: u64 = v;
    let mut i: usize = 0;
    while i < 8
        invariant
            i <= 8,
            out@ + le_bytes(x as nat, (8 - i) as nat) == le_bytes(v as nat, 8),
        decreases 8 - i,
    {
        let ghost rest = le_bytes((x / 256) as nat, (8 - i - 1) as nat);
        assert(le_bytes(x as nat, (8 - i) as nat) == seq![(x % 256) as u8] + rest);
        assert(out@.push((x % 256) as u8) + rest =~= out@ + (seq![(x % 256) as u8] + rest));
        out.push((x % 256) as u8);
        x = x / 256;
        i = i + 1;
    }
    assert(out@ + le_bytes(x as nat, 0) =~= out@);
    out
}

/// The outcome of encoding one `u64` as bytes.
pub open spec fn u64_to_bytes_result(args: Seq<Value>, r: NativeReturnStatus) -> bool {
    if args.len() == 1 && args[0] is U64 {
        returns_bytes(r, FIXED_COST, le_bytes(args[0]->U64_0 as nat, 8))
    } else {
        r is InvalidArguments
    }
}

/// The little-endian bytes of one `u64`, at a fixed cost.
pub fn native_u64_to_bytes(arguments: VecDeque<Value>) -> (r: NativeReturnStatus)
    ensures
        u64_to_bytes_result(arguments@, r),
{
    let mut arguments = arguments;
    if arguments.len() != 1 {
        return NativeReturnStatus::InvalidArguments;
    }
    match pop_u64(&mut arguments) {
        Some(x) => NativeReturnStatus::Success {
            cost: FIXED_COST,
            return_values: vec![Value::ByteArray(u64_le_bytes(x))],
        },
        None => NativeReturnStatus::InvalidArguments,
    }
}

/// The outcome of turning one address into bytes.
pub open spec fn address_to_bytes_result(args: Seq<Value>, r: NativeReturnStatus) -> bool {
    if args.len() == 1 && args[0] is Address {
        returns_bytes(r, FIXED_COST, args[0]->Address_0@)
    } else {
        r is InvalidArguments
    }
}

/// The bytes of one address, at a fixed cost.
pub fn native_address_to_bytes(arguments: VecDeque<Value>) -> (r: NativeReturnStatus)
    ensures
        address_to_bytes_result(arguments@, r),
{
    let mut arguments = arguments;
    if arguments.len() != 1 {
        return NativeReturnStatus::InvalidArguments;
    }
    match pop_address(&mut arguments) {
        Some(a) => NativeReturnStatus::Success {
            cost: FIXED_COST,
            return_values: vec![Value::ByteArray(a)],
        },
        None => NativeReturnStatus::InvalidArguments,
    }
}

/// The outcome of concatenating two byte arrays.
pub open spec fn concat_result(args: Seq<Value>, r: NativeReturnStatus) -> bool {
    match byte_array_args(args, 2) {
        Some(a) => returns_bytes(r, byte_cost(a[0].len() + a[1].len()), a[0] + a[1]),
        None => r is InvalidArguments,
    }
}

/// The concatenation of two byte arrays, first argument first, at one unit
/// of cost per byte of the result plus one.
pub fn native_bytearray_concat(arguments: VecDeque<Value>) -> (r: NativeReturnStatus)
    ensures
        concat_result(arguments@, r),
{
    let mut arguments = arguments;
    if arguments.len() != 2 {
        return NativeReturnStatus::InvalidArguments;
    }
    let ghost s = arguments@;
    let mut second = match pop_byte_array(&mut arguments) {
        Some(b) => b,
        None => {
            assert(!(s[1] is ByteArray));
            return NativeReturnStatus::InvalidArguments;
        },
    };
    let mut first = match pop_byte_array(&mut arguments) {
        Some(b) => b,
        None => {
            assert(!(s[0] is ByteArray));
            return NativeReturnStatus::InvalidArguments;
        },
    };
    assert(forall|i: int| 0 <= i < 2 ==> (#[trigger] s[i]) is ByteArray);
    first.append(&mut second);
    let cost = cost_of_bytes(first.len());
    NativeReturnStatus::Success { cost, return_values: vec![Value::ByteArray(first)] }
}

/// The outcome of taking the length of one container.
pub open spec fn length_result(args: Seq<Value>, r: NativeReturnStatus) -> bool {
    if args.len() == 1 && args[0] is Vector {
        returns_one(r, FIXED_COST, Value::U64(args[0]->Vector_0@.len() as u64))
    } else {
        r is InvalidArguments
    }
}

/// The number of elements of one container, at a fixed cost.
pub fn native_length(arguments: VecDeque<Value>) -> (r: NativeReturnStatus)
    ensures
        length_result(arguments@, r),
{
    let mut arguments = arguments;
    if arguments.len() != 1 {
        return NativeReturnStatus::InvalidArguments;
    }
    match pop_vector(&mut arguments) {
        Some(v) => NativeReturnStatus::Success {
            cost: FIXED_COST,
            return_values: vec![Value::U64(v.len() as u64)],
        },
        None => NativeReturnStatus::InvalidArguments,
    }
}

} // verus!
