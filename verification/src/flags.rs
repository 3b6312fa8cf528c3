//! Flag sets for opening databases and for writes.
//!
//! A flag set is a 32-bit word in which only named bits may be set. The engine
//! takes and returns the raw word; these types keep unnamed bits out.

use vstd::prelude::*;

verus! {

/// Keys are compared in reverse byte order.
pub const MDBX_REVERSEKEY: u32 = 0x02;

/// A key may have several values, kept sorted.
pub const MDBX_DUPSORT: u32 = 0x04;

/// Keys are native integers.
pub const MDBX_INTEGERKEY: u32 = 0x08;

/// With `MDBX_DUPSORT`: all values have one size.
pub const MDBX_DUPFIXED: u32 = 0x10;

/// With `MDBX_DUPSORT`: values are native integers.
pub const MDBX_INTEGERDUP: u32 = 0x20;

/// With `MDBX_DUPSORT`: values are compared in reverse byte order.
pub const MDBX_REVERSEDUP: u32 = 0x40;

/// Create the database if it does not exist.
pub const MDBX_CREATE: u32 = 0x40000;

/// Open an existing database with whatever flags it was created with.
pub const MDBX_DB_ACCEDE: u32 = 0x4000_0000;

/// Every bit that a [`DatabaseFlags`] may hold.
pub const DATABASE_FLAGS_ALL: u32 = MDBX_REVERSEKEY | MDBX_DUPSORT | MDBX_INTEGERKEY | MDBX_DUPFIXED
    | MDBX_INTEGERDUP | MDBX_REVERSEDUP | MDBX_CREATE | MDBX_DB_ACCEDE;

/// The bits of a [`DatabaseFlags`] that the engine stores with the database
/// and reports back; the others only steer the opening.
pub const DATABASE_FLAGS_STORED: u32 = MDBX_REVERSEKEY | MDBX_DUPSORT | MDBX_INTEGERKEY
    | MDBX_DUPFIXED | MDBX_INTEGERDUP | MDBX_REVERSEDUP;

/// Fail if the key exists already.
pub const MDBX_NOOVERWRITE: u32 = 0x10;

/// With `MDBX_DUPSORT`: fail if the key/value pair exists already.
pub const MDBX_NODUPDATA: u32 = 0x20;

/// Overwrite the value at the current position.
pub const MDBX_CURRENT: u32 = 0x40;

/// With `MDBX_DUPSORT`: act on all values of the key.
pub const MDBX_ALLDUPS: u32 = 0x80;

/// Allocate room for the value and hand it back unfilled.
pub const MDBX_RESERVE: u32 = 0x10000;

/// The key sorts after all keys present.
pub const MDBX_APPEND: u32 = 0x20000;

/// With `MDBX_DUPSORT`: the value sorts after all values present.
pub const MDBX_APPENDDUP: u32 = 0x40000;

/// With `MDBX_DUPFIXED`: store several values in one call.
pub const MDBX_MULTIPLE: u32 = 0x80000;

/// Every bit that a [`WriteFlags`] may hold.
pub const WRITE_FLAGS_ALL: u32 = MDBX_NOOVERWRITE | MDBX_NODUPDATA | MDBX_CURRENT | MDBX_ALLDUPS
    | MDBX_RESERVE | MDBX_APPEND | MDBX_APPENDDUP | MDBX_MULTIPLE;

/// The options of a database: how it is opened and how it orders its entries.
#[derive(Clone, Copy, Debug, PartialEq, Eq, Structural)]
pub struct DatabaseFlags {
    bits: u32,
}

impl DatabaseFlags {
    /// The raw word.
    pub closed spec fn spec_bits(self) -> u32 {
        self.bits
    }

    /// Only named bits are set.
    pub open spec fn wf(self) -> bool {
        self.spec_bits() & !DATABASE_FLAGS_ALL == 0
    }

    #[verifier::type_invariant]
    spec fn named_bits_only(self) -> bool {
        self.wf()
    }

    /// The flag set with the named bits of a word, the others dropped.
    pub closed spec fn truncated(bits: u32) -> DatabaseFlags {
        DatabaseFlags { bits: bits & DATABASE_FLAGS_ALL }
    }

    /// The set without any flag.
    pub fn empty() -> (flags: DatabaseFlags)
        ensures
            flags.wf(),
            flags.spec_bits() == 0,
    {
        assert(0u32 & !DATABASE_FLAGS_ALL == 0) by (bit_vector);
        DatabaseFlags { bits: 0 }
    }

    /// The raw word, as the engine takes it.
    #[verifier::when_used_as_spec(spec_bits)]
    pub fn bits(self) -> (bits: u32)
        ensures
            bits == self.spec_bits(),
            bits & !DATABASE_FLAGS_ALL == 0,
    {
        proof {
            use_type_invariant(&self);
        }
        self.bits
    }

    /// The flag set of a raw word, if the word has named bits only.
    pub fn from_bits(bits: u32) -> (flags: Option<DatabaseFlags>)
        ensures
            flags is Some <==> bits & !DATABASE_FLAGS_ALL == 0,
            flags matches Some(f) ==> f.wf() && f.spec_bits() == bits,
    {
        if bits & !DATABASE_FLAGS_ALL == 0 {
            Some(DatabaseFlags { bits })
        } else {
            None
        }
    }

    /// The flag set of a raw word, any unnamed bit dropped.
    pub fn from_bits_truncate(bits: u32) -> (flags: DatabaseFlags)
        ensures
            flags == Self::truncated(bits),
            flags.wf(),
            flags.spec_bits() == bits & DATABASE_FLAGS_ALL,
    {
        assert((bits & DATABASE_FLAGS_ALL) & !DATABASE_FLAGS_ALL == 0) by (bit_vector);
        DatabaseFlags { bits: bits & DATABASE_FLAGS_ALL }
    }

    /// Whether every flag of `other` is in this set.
    pub fn contains(self, other: DatabaseFlags) -> (all: bool)
        ensures
            all <==> self.spec_bits() & other.spec_bits() == other.spec_bits(),
    {
        self.bits & other.bits == other.bits
    }

    /// The flags of both sets.
    pub fn union(self, other: DatabaseFlags) -> (flags: DatabaseFlags)
        ensures
            flags.wf(),
            flags.spec_bits() == self.spec_bits() | other.spec_bits(),
    {
        proof {
            use_type_invariant(&self);
            use_type_invariant(&other);
        }
        let a: u32 = self.bits;
        let b: u32 = other.bits;
        assert((a | b) & !DATABASE_FLAGS_ALL == 0) by (bit_vector)
            requires
                a & !DATABASE_FLAGS_ALL == 0,
                b & !DATABASE_FLAGS_ALL == 0,
        ;
        DatabaseFlags { bits: a | b }
    }

    /// What `truncated` holds: the named bits of the word, and nothing else.
    pub proof fn lemma_truncated(bits: u32)
        ensures
            Self::truncated(bits).wf(),
            Self::truncated(bits).spec_bits() == bits & DATABASE_FLAGS_ALL,
            bits & !DATABASE_FLAGS_ALL == 0 ==> Self::truncated(bits).spec_bits() == bits,
    {
        assert((bits & DATABASE_FLAGS_ALL) & !DATABASE_FLAGS_ALL == 0) by (bit_vector);
        assert(bits & !DATABASE_FLAGS_ALL == 0 ==> bits & DATABASE_FLAGS_ALL == bits)
            by (bit_vector);
    }

    /// A flag set survives the way through its raw word: reading back the word
    /// of a set gives the same set.
    pub proof fn lemma_round_trip(flags: DatabaseFlags)
        requires
            flags.wf(),
        ensures
            Self::truncated(flags.spec_bits()) == flags,
    {
        let b: u32 = flags.bits;
        assert(b & !DATABASE_FLAGS_ALL == 0 ==> b & DATABASE_FLAGS_ALL == b) by (bit_vector);
    }

    /// A database reports the stored bits of the flags it was opened with.
    /// Read back, they give a set with exactly those bits: each stored flag
    /// is in it if and only if it was asked for.
    pub proof fn lemma_stored_flags_read_back(requested: DatabaseFlags)
        requires
            requested.wf(),
        ensures
            Self::truncated(requested.spec_bits() & DATABASE_FLAGS_STORED).spec_bits()
                == requested.spec_bits() & DATABASE_FLAGS_STORED,
    {
        let r: u32 = requested.bits;
        assert((r & DATABASE_FLAGS_STORED) & DATABASE_FLAGS_ALL == r & DATABASE_FLAGS_STORED)
            by (bit_vector);
    }
}

/// The options of one write.
#[derive(Clone, Copy, Debug, PartialEq, Eq, Structural)]
pub struct WriteFlags {
    bits: u32,
}

impl WriteFlags {
    /// The raw word.
    pub closed spec fn spec_bits(self) -> u32 {
        self.bits
    }

    /// Only named bits are set.
    pub open spec fn wf(self) -> bool {
        self.spec_bits() & !WRITE_FLAGS_ALL == 0
    }

    #[verifier::type_invariant]
    spec fn named_bits_only(self) -> bool {
        self.wf()
    }

    /// The flag set with the named bits of a word, the others dropped.
    pub closed spec fn truncated(bits: u32) -> WriteFlags {
        WriteFlags { bits: bits & WRITE_FLAGS_ALL }
    }

    /// The set without any flag: a plain insert or update.
    pub fn empty() -> (flags: WriteFlags)
        ensures
            flags.wf(),
            flags.spec_bits() == 0,
    {
        assert(0u32 & !WRITE_FLAGS_ALL == 0) by (bit_vector);
        WriteFlags { bits: 0 }
    }

    /// The raw word, as the engine takes it.
    #[verifier::when_used_as_spec(spec_bits)]
    pub fn bits(self) -> (bits: u32)
        ensures
            bits == self.spec_bits(),
            bits & !WRITE_FLAGS_ALL == 0,
    {
        proof {
            use_type_invariant(&self);
        }
        self.bits
    }

    /// The flag set of a raw word, if the word has named bits only.
    pub fn from_bits(bits: u32) -> (flags: Option<WriteFlags>)
        ensures
            flags is Some <==> bits & !WRITE_FLAGS_ALL == 0,
            flags matches Some(f) ==> f.wf() && f.spec_bits() == bits,
    {
        if bits & !WRITE_FLAGS_ALL == 0 {
            Some(WriteFlags { bits })
        } else {
            None
        }
    }

    /// The flag set of a raw word, any unnamed bit dropped.
    pub fn from_bits_truncate(bits: u32) -> (flags: WriteFlags)
        ensures
            flags == Self::truncated(bits),
            flags.wf(),
            flags.spec_bits() == bits & WRITE_FLAGS_ALL,
    {
        assert((bits & WRITE_FLAGS_ALL) & !WRITE_FLAGS_ALL == 0) by (bit_vector);
        WriteFlags { bits: bits & WRITE_FLAGS_ALL }
    }

    /// Whether every flag of `other` is in this set.
    pub fn contains(self, other: WriteFlags) -> (all: bool)
        ensures
            all <==> self.spec_bits() & other.spec_bits() == other.spec_bits(),
    {
        self.bits & other.bits == other.bits
    }
}

} // verus!
