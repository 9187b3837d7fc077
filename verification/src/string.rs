//! Strings: making one from sixteen-bit code units, and the options for
//! reading one back.

use vstd::prelude::*;
use vstd::std_specs::convert::FromSpec;
use crate::dispatch::Operation;
use crate::handle_scope::HandleScopeOpaque;
use crate::output::write_output;
use crate::scope_stack::ScopeStack;

verus! {

/// Local handle of a string: one machine word, the bits of the engine's own
/// local handle.
#[derive(Debug, Clone, Copy, PartialEq, Eq, Structural)]
pub struct LocalStringOpaque(pub usize);

impl View for LocalStringOpaque {
    type V = usize;

    open spec fn view(&self) -> usize {
        self.0
    }
}

impl From<usize> for LocalStringOpaque {
    fn from(value: usize) -> (r: Self) {
        LocalStringOpaque(value)
    }
}

impl vstd::std_specs::convert::FromSpecImpl<usize> for LocalStringOpaque {
    open spec fn obeys_from_spec() -> bool {
        true
    }

    open spec fn from_spec(v: usize) -> Self {
        LocalStringOpaque(v)
    }
}

impl From<LocalStringOpaque> for usize {
    fn from(value: LocalStringOpaque) -> (r: Self) {
        value.0
    }
}

impl vstd::std_specs::convert::FromSpecImpl<LocalStringOpaque> for usize {
    open spec fn obeys_from_spec() -> bool {
        true
    }

    open spec fn from_spec(v: LocalStringOpaque) -> Self {
        v.0
    }
}

/// Slots of the string table, in their order.
#[derive(Debug, Clone, Copy, PartialEq, Eq, Structural)]
pub struct StringVTable {
    pub ctor_utf16: Operation,
    pub len: Operation,
    pub read_utf16: Operation,
}

impl StringVTable {
    /// The string table.
    pub open spec fn table() -> StringVTable {
        StringVTable {
            ctor_utf16: Operation::StringNewUtf16,
            len: Operation::StringLen,
            read_utf16: Operation::StringReadUtf16,
        }
    }

    /// Number of the slots of the table that hold `op`.
    pub open spec fn count(self, op: Operation) -> nat {
        op.in_slot(self.ctor_utf16) + op.in_slot(self.len) + op.in_slot(self.read_utf16)
    }
}

/// The string table.
pub fn string_vtable() -> (vt: StringVTable)
    ensures
        vt == StringVTable::table(),
{
    StringVTable {
        ctor_utf16: Operation::StringNewUtf16,
        len: Operation::StringLen,
        read_utf16: Operation::StringReadUtf16,
    }
}

/// No option.
pub const NO_OPTIONS: i32 = 0;

/// Many writes of the same string are to be expected.
pub const HINT_MANY_WRITES_EXPECTED: i32 = 1;

/// Write no terminating zero.
pub const NO_NULL_TERMINATION: i32 = 2;

/// Keep a zero inside a one-byte string.
pub const PRESERVE_ONE_BYTE_NULL: i32 = 4;

/// Replace what is not valid by the replacement character.
pub const REPLACE_INVALID_UTF8: i32 = 8;

/// The options for writing a string out: a set of the flags above.
#[derive(Debug, Clone, Copy, PartialEq, Eq, Structural)]
pub struct WriteOptions {
    bits: i32,
}

impl View for WriteOptions {
    type V = i32;

    closed spec fn view(&self) -> i32 {
        self.bits
    }
}

impl WriteOptions {
    /// `bits` sets no bit but those of the four flags: it is one of the
    /// sixteen sums of distinct flags.
    pub open spec fn recognized(bits: i32) -> bool {
        0 <= bits <= HINT_MANY_WRITES_EXPECTED + NO_NULL_TERMINATION + PRESERVE_ONE_BYTE_NULL
            + REPLACE_INVALID_UTF8
    }

    /// The bits that stand for a caller's request: the request itself where
    /// it is recognized, else the default, which sets no option.
    pub open spec fn resolve(bits: i32) -> i32 {
        if WriteOptions::recognized(bits) {
            bits
        } else {
            NO_OPTIONS
        }
    }

    /// The options with the given bits, if every bit that is set is a flag.
    pub fn from_bits(bits: i32) -> (r: Option<WriteOptions>)
        ensures
            r is Some <==> WriteOptions::recognized(bits),
            r matches Some(options) ==> options@ == bits,
    {
        if 0 <= bits && bits <= 15 {
            Some(WriteOptions { bits })
        } else {
            None
        }
    }

    /// The bits of the options.
    pub fn bits(&self) -> (r: i32)
        ensures
            r == self@,
            WriteOptions::recognized(r),
    {
        proof {
            use_type_invariant(self);
        }
        self.bits
    }

    #[verifier::type_invariant]
    spec fn inv(self) -> bool {
        WriteOptions::recognized(self.bits)
    }

    /// The recognized requests are those that set no bit outside the four
    /// flags.
    pub proof fn lemma_recognized_sets_only_flags(bits: i32)
        ensures
            WriteOptions::recognized(bits) <==> bits & !(HINT_MANY_WRITES_EXPECTED
                | NO_NULL_TERMINATION | PRESERVE_ONE_BYTE_NULL | REPLACE_INVALID_UTF8) == 0,
    {
        assert((0 <= bits && bits <= 15) <==> bits & !(1i32 | 2i32 | 4i32 | 8i32) == 0)
            by (bit_vector);
    }
}

impl Default for WriteOptions {
    fn default() -> (r: Self)
        ensures
            r@ == NO_OPTIONS,
    {
        WriteOptions { bits: 0 }
    }
}

/// The options under which a string is read back, from the bits that the
/// caller passed: the caller's options where they are recognized, else the
/// default. An unrecognized request is no error.
pub fn string_write_options(options: i32) -> (r: WriteOptions)
    ensures
        r@ == WriteOptions::resolve(options),
{
    match WriteOptions::from_bits(options) {
        Some(recognized) => recognized,
        None => WriteOptions::default(),
    }
}

/// Hands back what the engine made of building a string from sixteen-bit
/// code units inside `scope`. `created` holds the native bits of the string,
/// or nothing when the engine rejected the input. On success the string's
/// handle is written to `ret`, is valid from now on, and the result is
/// `true`; on failure `ret` is left as it was and the result is `false`.
pub fn string_new_utf16(
    scopes: &mut ScopeStack,
    scope: &HandleScopeOpaque,
    created: Option<usize>,
    ret: &mut LocalStringOpaque,
) -> (ok: bool)
    requires
        old(scopes).wf(),
        old(scopes)@.is_innermost(scope@),
    ensures
        ok == created.is_some(),
        created matches Some(native) ==> final(ret)@ == native && final(scopes)@ == old(
            scopes,
        )@.with_local(native),
        created is None ==> *final(ret) == *old(ret) && final(scopes)@ == old(scopes)@,
        final(scopes).wf(),
{
    let s = match created {
        Some(native) => {
            scopes.adopt_local(native);
            Some(LocalStringOpaque::from(native))
        },
        None => None,
    };
    write_output(s, ret)
}

/// A string handle's native bits and its token determine each other: converting
/// either way and back gives what one started from.
pub proof fn lemma_local_string_round_trip(native: usize, token: LocalStringOpaque)
    ensures
        LocalStringOpaque::from_spec(native)@ == native,
        usize::from_spec(LocalStringOpaque::from_spec(native)) == native,
        LocalStringOpaque::from_spec(usize::from_spec(token)) == token,
{
}

} // verus!
