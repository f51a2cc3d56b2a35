//! The options of an open attempt, as the engine's bit set.

use libc::c_int;
use vstd::prelude::*;

verus! {

/// One option of an open attempt.
#[derive(Clone, Copy, Debug, PartialEq, Eq, Structural)]
pub enum OpenOption {
    /// The database is opened for reading only.
    ReadOnly,
    /// The database is opened for reading and writing.
    ReadWrite,
    /// The database is created if it does not exist yet.
    Create,
    /// The filename may be a URI.
    Uri,
    /// The database is opened in memory.
    Memory,
    /// The connection is used without its mutexes.
    NoMutex,
    /// The connection serialises its callers.
    FullMutex,
    /// The connection takes part in the shared cache.
    SharedCache,
    /// The connection keeps a cache of its own.
    PrivateCache,
}

impl OpenOption {
    /// The engine's bit for this option.
    pub open spec fn bit_spec(self) -> c_int {
        match self {
            OpenOption::ReadOnly => 0x0000_0001,
            OpenOption::ReadWrite => 0x0000_0002,
            OpenOption::Create => 0x0000_0004,
            OpenOption::Uri => 0x0000_0040,
            OpenOption::Memory => 0x0000_0080,
            OpenOption::NoMutex => 0x0000_8000,
            OpenOption::FullMutex => 0x0001_0000,
            OpenOption::SharedCache => 0x0002_0000,
            OpenOption::PrivateCache => 0x0004_0000,
        }
    }

    /// The engine's bit for this option.
    #[verifier::when_used_as_spec(bit_spec)]
    pub fn bit(self) -> (bit: c_int)
        ensures
            bit == self.bit_spec(),
    {
        match self {
            OpenOption::ReadOnly => 0x0000_0001,
            OpenOption::ReadWrite => 0x0000_0002,
            OpenOption::Create => 0x0000_0004,
            OpenOption::Uri => 0x0000_0040,
            OpenOption::Memory => 0x0000_0080,
            OpenOption::NoMutex => 0x0000_8000,
            OpenOption::FullMutex => 0x0001_0000,
            OpenOption::SharedCache => 0x0002_0000,
            OpenOption::PrivateCache => 0x0004_0000,
        }
    }
}

/// Every bit that stands for an option; no other bit may be set.
pub const OPEN_ALL: c_int = 0x0007_80C7;

/// The bits of the default flags: read-write, and create.
pub const OPEN_DEFAULT: c_int = 0x0000_0006;

/// The options that a bit pattern holds.
pub open spec fn options_of(bits: c_int) -> Set<OpenOption> {
    Set::new(|option: OpenOption| bits & option.bit_spec() != 0)
}

/// The bit pattern that holds exactly the given options.
pub open spec fn bits_of(options: Set<OpenOption>) -> c_int {
    (if options.contains(OpenOption::ReadOnly) { 0x0000_0001 as c_int } else { 0 })
    | (if options.contains(OpenOption::ReadWrite) { 0x0000_0002 as c_int } else { 0 })
    | (if options.contains(OpenOption::Create) { 0x0000_0004 as c_int } else { 0 })
    | (if options.contains(OpenOption::Uri) { 0x0000_0040 as c_int } else { 0 })
    | (if options.contains(OpenOption::Memory) { 0x0000_0080 as c_int } else { 0 })
    | (if options.contains(OpenOption::NoMutex) { 0x0000_8000 as c_int } else { 0 })
    | (if options.contains(OpenOption::FullMutex) { 0x0001_0000 as c_int } else { 0 })
    | (if options.contains(OpenOption::SharedCache) { 0x0002_0000 as c_int } else { 0 })
    | (if options.contains(OpenOption::PrivateCache) { 0x0004_0000 as c_int } else { 0 })
}

/// A bit pattern without a stray bit is the pattern of the options it holds.
pub proof fn lemma_bits_of_options(bits: c_int)
    requires
        bits & !OPEN_ALL == 0,
    ensures
        bits_of(options_of(bits)) == bits,
{
    let s = options_of(bits);
    assert(s.contains(OpenOption::ReadOnly) == (bits & 0x0000_0001 != 0));
    assert(s.contains(OpenOption::ReadWrite) == (bits & 0x0000_0002 != 0));
    assert(s.contains(OpenOption::Create) == (bits & 0x0000_0004 != 0));
    assert(s.contains(OpenOption::Uri) == (bits & 0x0000_0040 != 0));
    assert(s.contains(OpenOption::Memory) == (bits & 0x0000_0080 != 0));
    assert(s.contains(OpenOption::NoMutex) == (bits & 0x0000_8000 != 0));
    assert(s.contains(OpenOption::FullMutex) == (bits & 0x0001_0000 != 0));
    assert(s.contains(OpenOption::SharedCache) == (bits & 0x0002_0000 != 0));
    assert(s.contains(OpenOption::PrivateCache) == (bits & 0x0004_0000 != 0));
    assert(bits == (if bits & 0x0000_0001 != 0 { 0x0000_0001 as i32 } else { 0 })
        | (if bits & 0x0000_0002 != 0 { 0x0000_0002 as i32 } else { 0 })
        | (if bits & 0x0000_0004 != 0 { 0x0000_0004 as i32 } else { 0 })
        | (if bits & 0x0000_0040 != 0 { 0x0000_0040 as i32 } else { 0 })
        | (if bits & 0x0000_0080 != 0 { 0x0000_0080 as i32 } else { 0 })
        | (if bits & 0x0000_8000 != 0 { 0x0000_8000 as i32 } else { 0 })
        | (if bits & 0x0001_0000 != 0 { 0x0001_0000 as i32 } else { 0 })
        | (if bits & 0x0002_0000 != 0 { 0x0002_0000 as i32 } else { 0 })
        | (if bits & 0x0004_0000 != 0 { 0x0004_0000 as i32 } else { 0 })) by (bit_vector)
        requires
            bits & !0x0007_80C7i32 == 0,
    ;
}

/// Single bits: setting one option's bit changes no other option.
proof fn lemma_with_bit(bits: c_int, option: OpenOption, other: OpenOption)
    ensures
        ((bits | option.bit_spec()) & other.bit_spec() != 0) == (other == option || bits
            & other.bit_spec() != 0),
        (bits & !OPEN_ALL == 0) ==> ((bits | option.bit_spec()) & !OPEN_ALL == 0),
{
    let m = option.bit_spec();
    let n = other.bit_spec();
    assert(m == 0x1 || m == 0x2 || m == 0x4 || m == 0x40 || m == 0x80 || m == 0x8000 || m
        == 0x1_0000 || m == 0x2_0000 || m == 0x4_0000);
    assert(n == 0x1 || n == 0x2 || n == 0x4 || n == 0x40 || n == 0x80 || n == 0x8000 || n
        == 0x1_0000 || n == 0x2_0000 || n == 0x4_0000);
    assert(((bits | m) & n != 0) == (m == n || bits & n != 0)) by (bit_vector)
        requires
            m == 0x1 || m == 0x2 || m == 0x4 || m == 0x40 || m == 0x80 || m == 0x8000 || m
                == 0x1_0000 || m == 0x2_0000 || m == 0x4_0000,
            n == 0x1 || n == 0x2 || n == 0x4 || n == 0x40 || n == 0x80 || n == 0x8000 || n
                == 0x1_0000 || n == 0x2_0000 || n == 0x4_0000,
    ;
    assert((bits & !0x0007_80C7i32 == 0) ==> ((bits | m) & !0x0007_80C7i32 == 0)) by (bit_vector)
        requires
            m == 0x1 || m == 0x2 || m == 0x4 || m == 0x40 || m == 0x80 || m == 0x8000 || m
                == 0x1_0000 || m == 0x2_0000 || m == 0x4_0000,
    ;
}

/// The options of one open attempt: a set of `OpenOption`, kept as the bit
/// pattern that the engine reads. No bit outside `OPEN_ALL` is ever set.
#[derive(Clone, Copy, Debug, PartialEq, Eq, Structural)]
pub struct OpenFlags {
    bits: c_int,
}

impl View for OpenFlags {
    type V = Set<OpenOption>;

    /// The options that are set.
    open spec fn view(&self) -> Set<OpenOption> {
        options_of(self.bits_spec())
    }
}

impl OpenFlags {
    #[verifier::type_invariant]
    spec fn within_mask(self) -> bool {
        self.bits & !OPEN_ALL == 0
    }

    /// The bit pattern, as the engine reads it.
    pub closed spec fn bits_spec(&self) -> c_int {
        self.bits
    }

    /// No option at all.
    pub fn empty() -> (flags: OpenFlags)
        ensures
            flags.bits_spec() == 0,
            flags@ == Set::<OpenOption>::empty(),
    {
        assert(0i32 & !0x0007_80C7i32 == 0) by (bit_vector);
        let flags = OpenFlags { bits: 0 };
        assert(forall|option: OpenOption| 0i32 & #[trigger] option.bit_spec() == 0) by {
            assert(forall|n: i32| 0i32 & n == 0) by (bit_vector);
        }
        assert(flags@ =~= Set::<OpenOption>::empty());
        flags
    }

    /// The flags with the given bit pattern, unless it holds a bit that
    /// stands for no option.
    pub fn from_bits(bits: c_int) -> (flags: Option<OpenFlags>)
        ensures
            flags is Some <==> bits & !OPEN_ALL == 0,
            flags is Some ==> flags.unwrap().bits_spec() == bits,
    {
        if bits & !OPEN_ALL == 0 {
            Some(OpenFlags { bits })
        } else {
            None
        }
    }

    /// The bit pattern to hand to the engine: exactly the bits of the
    /// options that are set.
    #[verifier::when_used_as_spec(bits_spec)]
    pub fn bits(&self) -> (bits: c_int)
        ensures
            bits == self.bits_spec(),
            bits == bits_of(self@),
            bits & !OPEN_ALL == 0,
    {
        proof {
            use_type_invariant(self);
            lemma_bits_of_options(self.bits);
        }
        self.bits
    }

    /// Whether the option is set.
    pub fn contains(&self, option: OpenOption) -> (set: bool)
        ensures
            set == self@.contains(option),
    {
        self.bits & option.bit() != 0
    }

    /// These flags and the option.
    pub fn with(self, option: OpenOption) -> (flags: OpenFlags)
        ensures
            flags@ == self@.insert(option),
            flags.bits_spec() == self.bits_spec() | option.bit_spec(),
    {
        proof {
            use_type_invariant(self);
            lemma_with_bit(self.bits, option, option);
        }
        let flags = OpenFlags { bits: self.bits | option.bit() };
        assert forall|other: OpenOption| flags@.contains(other) == self@.insert(option).contains(
            other,
        ) by {
            lemma_with_bit(self.bits, option, other);
        }
        assert(flags@ =~= self@.insert(option));
        flags
    }
}

impl Default for OpenFlags {
    /// Read-write, and the database is created if it is missing.
    fn default() -> (flags: OpenFlags)
        ensures
            flags@ == set![OpenOption::ReadWrite, OpenOption::Create],
            flags.bits_spec() == OPEN_DEFAULT,
    {
        let flags = OpenFlags::empty().with(OpenOption::ReadWrite).with(OpenOption::Create);
        assert(0i32 | 0x2i32 | 0x4i32 == 0x6i32) by (bit_vector);
        assert(flags@ =~= set![OpenOption::ReadWrite, OpenOption::Create]);
        flags
    }
}

} // verus!
