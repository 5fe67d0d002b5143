//! Native function records and the registry that maps a module name and a
//! function name to one of them.
use vstd::prelude::*;
use std::collections::VecDeque;
use crate::crypto::{keccak256_of, ripemd160_of, sha2_256_of, sha3_256_of};
use crate::natives::{
    address_to_bytes_result, concat_result, ed25519_verify_result, hash_result, length_result,
    native_address_to_bytes, native_bytearray_concat, native_ed25519_signature_verification,
    native_ed25519_threshold_signature_verification, native_keccak_256, native_length,
    native_ripemd_160, native_sha2_256, native_sha3_256, native_u64_to_bytes,
    threshold_verify_result, u64_to_bytes_result,
};
use crate::status::NativeReturnStatus;
use crate::types::{FunctionSignature, SignatureToken, Value};

verus! {

/// The entry point of a native function: which native operation runs.
#[derive(Clone, Copy, Debug, PartialEq, Eq, Structural)]
pub enum NativeOp {
    Keccak256,
    Ripemd160,
    Sha2_256,
    Sha3_256,
    Ed25519Verify,
    Ed25519ThresholdVerify,
    AddressToBytes,
    U64ToBytes,
    BytearrayConcat,
    VectorLength,
}

impl NativeOp {
    /// What running the operation on `args` returns.
    pub open spec fn spec_result(self, args: Seq<Value>, r: NativeReturnStatus) -> bool {
        match self {
            NativeOp::Keccak256 => hash_result(args, r, |b: Seq<u8>| keccak256_of(b), 32),
            NativeOp::Ripemd160 => hash_result(args, r, |b: Seq<u8>| ripemd160_of(b), 20),
            NativeOp::Sha2_256 => hash_result(args, r, |b: Seq<u8>| sha2_256_of(b), 32),
            NativeOp::Sha3_256 => hash_result(args, r, |b: Seq<u8>| sha3_256_of(b), 32),
            NativeOp::Ed25519Verify => ed25519_verify_result(args, r),
            NativeOp::Ed25519ThresholdVerify => threshold_verify_result(args, r),
            NativeOp::AddressToBytes => address_to_bytes_result(args, r),
            NativeOp::U64ToBytes => u64_to_bytes_result(args, r),
            NativeOp::BytearrayConcat => concat_result(args, r),
            NativeOp::VectorLength => length_result(args, r),
        }
    }

    /// Runs the operation on an argument sequence.
    pub fn call(self, arguments: VecDeque<Value>) -> (r: NativeReturnStatus)
        ensures
            self.spec_result(arguments@, r),
    {
        match self {
            NativeOp::Keccak256 => native_keccak_256(arguments),
            NativeOp::Ripemd160 => native_ripemd_160(arguments),
            NativeOp::Sha2_256 => native_sha2_256(arguments),
            NativeOp::Sha3_256 => native_sha3_256(arguments),
            NativeOp::Ed25519Verify => native_ed25519_signature_verification(arguments),
            NativeOp::Ed25519ThresholdVerify => native_ed25519_threshold_signature_verification(
                arguments,
            ),
            NativeOp::AddressToBytes => native_address_to_bytes(arguments),
            NativeOp::U64ToBytes => native_u64_to_bytes(arguments),
            NativeOp::BytearrayConcat => native_bytearray_concat(arguments),
            NativeOp::VectorLength => native_length(arguments),
        }
    }
}

/// A native function: its entry point and its declared signature.
#[derive(Debug)]
pub struct NativeFunction {
    /// The operation that runs on a call.
    pub dispatch: NativeOp,
    /// The signature as declared in its module. The struct handle indexes in
    /// it are those of the declaring module.
    pub expected_signature: FunctionSignature,
}

impl NativeFunction {
    /// The number of arguments, read from the declared signature.
    pub open spec fn spec_num_args(&self) -> nat {
        self.expected_signature.arg_types@.len()
    }

    /// Returns the number of arguments of the function, which is the number of
    /// argument types in its declared signature.
    pub fn num_args(&self) -> (r: usize)
        ensures
            r == self.spec_num_args(),
            r == self.expected_signature.arg_types@.len(),
    {
        self.expected_signature.arg_types.len()
    }

    /// Calls the function on an argument sequence. A sequence that does not
    /// hold exactly `num_args()` values gives `InvalidArguments` and nothing
    /// runs.
    pub fn call(&self, arguments: VecDeque<Value>) -> (r: NativeReturnStatus)
        ensures
            arguments@.len() != self.spec_num_args() ==> r is InvalidArguments,
            arguments@.len() == self.spec_num_args() ==> self.dispatch.spec_result(
                arguments@,
                r,
            ),
    {
        if arguments.len() != self.num_args() {
            return NativeReturnStatus::InvalidArguments;
        }
        self.dispatch.call(arguments)
    }
}

/// One registration: a function name within a module, and its record.
#[derive(Debug)]
struct Entry {
    module: String,
    name: String,
    function: NativeFunction,
}

spec fn entry_key(e: Entry) -> (Seq<char>, Seq<char>) {
    (e.module@, e.name@)
}

spec fn keys_unique(s: Seq<Entry>) -> bool {
    forall|i: int, j: int|
        0 <= i < j < s.len() ==> entry_key(#[trigger] s[i]) != entry_key(#[trigger] s[j])
}

spec fn entries_view(s: Seq<Entry>) -> Map<(Seq<char>, Seq<char>), NativeFunction>
    decreases s.len(),
{
    if s.len() == 0 {
        Map::empty()
    } else {
        entries_view(s.drop_last()).insert(entry_key(s.last()), s.last().function)
    }
}

proof fn lemma_entries_view_get(s: Seq<Entry>, k: (Seq<char>, Seq<char>))
    requires
        keys_unique(s),
    ensures
        entries_view(s).contains_key(k) <==> exists|i: int|
            0 <= i < s.len() && entry_key(#[trigger] s[i]) == k,
        forall|i: int|
            0 <= i < s.len() && entry_key(#[trigger] s[i]) == k ==> entries_view(s)[k]
                == s[i].function,
    decreases s.len(),
{
    if s.len() > 0 {
        let t = s.drop_last();
        assert(keys_unique(t));
        lemma_entries_view_get(t, k);
        assert forall|i: int| 0 <= i < t.len() implies #[trigger] t[i] == s[i] by {}
        if entries_view(s).contains_key(k) && entry_key(s.last()) != k {
            let i = choose|i: int| 0 <= i < t.len() && entry_key(#[trigger] t[i]) == k;
            assert(entry_key(s[i]) == k);
        }
        if exists|i: int| 0 <= i < s.len() && entry_key(#[trigger] s[i]) == k {
            let i = choose|i: int| 0 <= i < s.len() && entry_key(#[trigger] s[i]) == k;
            if i < s.len() - 1 {
                assert(entry_key(t[i]) == k);
            }
        }
    }
}

proof fn lemma_entries_view_update(s: Seq<Entry>, i: int, e: Entry)
    requires
        keys_unique(s),
        0 <= i < s.len(),
        entry_key(e) == entry_key(s[i]),
    ensures
        entries_view(s.update(i, e)) == entries_view(s).insert(entry_key(e), e.function),
    decreases s.len(),
{
    let u = s.update(i, e);
    let t = s.drop_last();
    if i == s.len() - 1 {
        assert(u.drop_last() =~= t);
        assert(entries_view(u) =~= entries_view(s).insert(entry_key(e), e.function));
    } else {
        assert(u.drop_last() =~= t.update(i, e));
        assert(keys_unique(t));
        lemma_entries_view_update(t, i, e);
        assert(entry_key(s.last()) != entry_key(e));
        assert(entries_view(u) =~= entries_view(s).insert(entry_key(e), e.function));
    }
}

/// The registry of native functions: for a module name and a function name,
/// at most one record. Registering a pair that is already there replaces its
/// record.
#[derive(Debug)]
pub struct NativeFunctionMap {
    entries: Vec<Entry>,
}

impl View for NativeFunctionMap {
    type V = Map<(Seq<char>, Seq<char>), NativeFunction>;

    closed spec fn view(&self) -> Self::V {
        entries_view(self.entries@)
    }
}

/// `f` is the record that registering `dispatch` with these argument and
/// return types makes: no kind constraints.
pub open spec fn is_registration(
    f: NativeFunction,
    dispatch: NativeOp,
    arg_types: Seq<SignatureToken>,
    return_types: Seq<SignatureToken>,
) -> bool {
    &&& f.dispatch == dispatch
    &&& f.expected_signature.arg_types@ == arg_types
    &&& f.expected_signature.return_types@ == return_types
    &&& f.expected_signature.kind_constraints@.len() == 0
}

impl NativeFunctionMap {
    /// The registry keeps one record per (module, function) pair.
    pub closed spec fn wf(&self) -> bool {
        keys_unique(self.entries@)
    }

    /// An empty registry.
    pub fn new() -> (r: NativeFunctionMap)
        ensures
            r.wf(),
            r@ == Map::<(Seq<char>, Seq<char>), NativeFunction>::empty(),
    {
        NativeFunctionMap { entries: Vec::new() }
    }

    fn find(&self, module_name: &String, function_name: &String) -> (r: Option<usize>)
        requires
            self.wf(),
        ensures
            match r {
                Some(i) => i < self.entries@.len() && entry_key(self.entries@[i as int]) == (
                    module_name@,
                    function_name@,
                ),
                None => forall|i: int|
                    0 <= i < self.entries@.len() ==> entry_key(#[trigger] self.entries@[i]) != (
                        module_name@,
                        function_name@,
                    ),
            },
    {
        let mut i: usize = 0;
        while i < self.entries.len()
            invariant
                i <= self.entries@.len(),
                forall|j: int|
                    0 <= j < i ==> entry_key(#[trigger] self.entries@[j]) != (
                        module_name@,
                        function_name@,
                    ),
            decreases self.entries@.len() - i,
        {
            let e = &self.entries[i];
            if e.module == *module_name && e.name == *function_name {
                return Some(i);
            }
            i = i + 1;
        }
        None
    }

    /// Registers a native function under a module name and a function name,
    /// with its entry point and its argument and return types. A pair that is
    /// already registered gets the new record; every other pair keeps its own.
    pub fn register(
        &mut self,
        module_name: &str,
        function_name: &str,
        dispatch: NativeOp,
        arg_types: Vec<SignatureToken>,
        return_types: Vec<SignatureToken>,
    )
        requires
            old(self).wf(),
        ensures
            final(self).wf(),
            final(self)@ == old(self)@.insert(
                (module_name@, function_name@),
                final(self)@[(module_name@, function_name@)],
            ),
            is_registration(
                final(self)@[(module_name@, function_name@)],
                dispatch,
                arg_types@,
                return_types@,
            ),
    {
        let module: String = module_name.to_owned();
        let name: String = function_name.to_owned();
        let expected_signature = FunctionSignature {
            return_types,
            arg_types,
            kind_constraints: Vec::new(),
        };
        let function = NativeFunction { dispatch, expected_signature };
        let found = self.find(&module, &name);
        let entry = Entry { module, name, function };
        let ghost k = entry_key(entry);
        let ghost f = entry.function;
        match found {
            Some(i) => {
                proof {
                    lemma_entries_view_update(self.entries@, i as int, entry);
                }
                self.entries.set(i, entry);
                assert(keys_unique(self.entries@));
            },
            None => {
                self.entries.push(entry);
                assert(self.entries@.drop_last() =~= old(self).entries@);
                assert(keys_unique(self.entries@));
            },
        }
        assert(self@ == old(self)@.insert(k, f));
    }
}

/// Looks up the native function registered under a module name and a
/// function name. An unknown module, or an unknown function in a known module,
/// gives `None`.
pub fn dispatch_native_function<'a>(
    map: &'a NativeFunctionMap,
    module_name: &str,
    function_name: &str,
) -> (r: Option<&'a NativeFunction>)
    requires
        map.wf(),
    ensures
        r is Some <==> map@.contains_key((module_name@, function_name@)),
        r matches Some(f) ==> *f == map@[(module_name@, function_name@)],
{
    let module: String = module_name.to_owned();
    let name: String = function_name.to_owned();
    let found = map.find(&module, &name);
    proof {
        lemma_entries_view_get(map.entries@, (module_name@, function_name@));
    }
    match found {
        Some(i) => Some(&map.entries[i].function),
        None => None,
    }
}

} // verus!
