use vstd::prelude::*;

verus! {

/// An enum whose values each own one bit of a flag set.
pub trait FlagIndex: Copy {
    /// The bit the value owns.
    spec fn spec_flag_index(self) -> usize;

    fn flag_index(&self) -> (r: usize)
        ensures
            r == self.spec_flag_index(),
    ;
}

/// The bit position a flag value occupies.
pub open spec fn flag_bit<Enum: FlagIndex>(flag: Enum) -> usize {
    flag.spec_flag_index()
}

/// A flag whose bit fits in a `usize` mask.
pub open spec fn flag_is_valid<Enum: FlagIndex>(flag: Enum) -> bool {
    flag_bit(flag) < usize::BITS
}

/// Whether bit `i` is set in `value`.
pub open spec fn bit_is_set(value: usize, i: usize) -> bool {
    value & (1usize << i) != 0
}

/// A set of enum values stored as one bit per value.
#[derive(Debug)]
pub struct EnumFlags<Enum: FlagIndex> {
    value: usize,
    _phantom: std::marker::PhantomData<Enum>,
}

impl<Enum: FlagIndex> Clone for EnumFlags<Enum> {
    fn clone(&self) -> (r: Self)
        ensures
            r == *self,
    {
        Self { value: self.value, _phantom: std::marker::PhantomData }
    }
}

impl<Enum: FlagIndex> EnumFlags<Enum> {
    /// Whether the bit at position `i` is set.
    pub closed spec fn has_bit(&self, i: usize) -> bool {
        bit_is_set(self.value, i)
    }

    /// Whether `flag` belongs to the set.
    pub open spec fn contains(&self, flag: Enum) -> bool {
        self.has_bit(flag_bit(flag))
    }

    /// The set with no bit set.
    pub closed spec fn spec_new() -> Self {
        EnumFlags { value: 0, _phantom: std::marker::PhantomData }
    }

    /// The set with every bit set.
    pub closed spec fn spec_all() -> Self {
        EnumFlags { value: !0usize, _phantom: std::marker::PhantomData }
    }

    /// This set with the bit of `flag` added.
    pub closed spec fn spec_set(self, flag: Enum) -> Self {
        EnumFlags { value: self.value | (1usize << flag_bit(flag)), _phantom: self._phantom }
    }

    /// This set with the bit of `flag` removed.
    pub closed spec fn spec_unset(self, flag: Enum) -> Self {
        EnumFlags { value: self.value & !(1usize << flag_bit(flag)), _phantom: self._phantom }
    }

    /// The empty set.
    pub fn new() -> (r: Self)
        ensures
            r == Self::spec_new(),
    {
        Self { value: 0, _phantom: std::marker::PhantomData }
    }

    /// Adds `flag`; returns the set for chaining.
    pub fn set(&mut self, flag: &Enum) -> (r: &Self)
        requires
            flag_is_valid(*flag),
        ensures
            *final(self) == old(self).spec_set(*flag),
            *r == *final(self),
    {
        let enum_usize: usize = flag.flag_index();
        self.value = self.value | (1usize << enum_usize);
        self
    }

    /// Removes `flag`; returns the set for chaining.
    pub fn unset(&mut self, flag: &Enum) -> (r: &Self)
        requires
            flag_is_valid(*flag),
        ensures
            *final(self) == old(self).spec_unset(*flag),
            *r == *final(self),
    {
        let enum_usize: usize = flag.flag_index();
        self.value = self.value & !(1usize << enum_usize);
        self
    }

    /// Whether `flag` is in the set.
    pub fn is_set(&self, flag: &Enum) -> (r: bool)
        requires
            flag_is_valid(*flag),
        ensures
            r == self.contains(*flag),
    {
        let enum_usize: usize = flag.flag_index();
        self.value & (1usize << enum_usize) != 0
    }

    /// The set of every flag.
    pub fn all() -> (r: Self)
        ensures
            r == Self::spec_all(),
    {
        Self { value: !0usize, _phantom: std::marker::PhantomData }
    }
}

impl<Enum: FlagIndex> Default for EnumFlags<Enum> {
    fn default() -> (r: Self)
        ensures
            r == Self::spec_new(),
    {
        Self::new()
    }
}

/// A new set holds no flag, and the full set holds every flag.
pub proof fn lemma_new_empty_all_full<Enum: FlagIndex>(flag: Enum)
    requires
        flag_is_valid(flag),
    ensures
        !EnumFlags::<Enum>::spec_new().contains(flag),
        EnumFlags::<Enum>::spec_all().contains(flag),
{
    let b = flag_bit(flag);
    assert(!bit_is_set(0usize, b)) by (bit_vector);
    assert(bit_is_set(!0usize, b)) by (bit_vector)
        requires
            b < usize::BITS,
    ;
}

/// After a flag is set it is in the set, and after it is unset it is not, whatever the set held
/// before.
pub proof fn lemma_set_then_contains<Enum: FlagIndex>(flags: EnumFlags<Enum>, flag: Enum)
    requires
        flag_is_valid(flag),
    ensures
        flags.spec_set(flag).contains(flag),
        !flags.spec_unset(flag).contains(flag),
{
    let v = flags.value;
    let b = flag_bit(flag);
    assert(bit_is_set(v | (1usize << b), b)) by (bit_vector)
        requires
            b < usize::BITS,
    ;
    assert(!bit_is_set(v & !(1usize << b), b)) by (bit_vector)
        requires
            b < usize::BITS,
    ;
}

/// Setting or unsetting one flag leaves the membership of every flag on another bit unchanged.
pub proof fn lemma_set_unset_other_unchanged<Enum: FlagIndex>(
    flags: EnumFlags<Enum>,
    flag: Enum,
    other: Enum,
)
    requires
        flag_is_valid(flag),
        flag_is_valid(other),
        flag_bit(flag) != flag_bit(other),
    ensures
        flags.spec_set(flag).contains(other) == flags.contains(other),
        flags.spec_unset(flag).contains(other) == flags.contains(other),
{
    let v = flags.value;
    let b = flag_bit(flag);
    let c = flag_bit(other);
    assert(bit_is_set(v | (1usize << b), c) == bit_is_set(v, c)) by (bit_vector)
        requires
            b < usize::BITS,
            c < usize::BITS,
            b != c,
    ;
    assert(bit_is_set(v & !(1usize << b), c) == bit_is_set(v, c)) by (bit_vector)
        requires
            b < usize::BITS,
            c < usize::BITS,
            b != c,
    ;
}

/// Setting a flag twice is the same as setting it once, and unsetting undoes a set of a flag
/// that was not in the set.
pub proof fn lemma_set_idempotent_unset_undoes<Enum: FlagIndex>(
    flags: EnumFlags<Enum>,
    flag: Enum,
)
    requires
        flag_is_valid(flag),
    ensures
        flags.spec_set(flag).spec_set(flag) == flags.spec_set(flag),
        !flags.contains(flag) ==> flags.spec_set(flag).spec_unset(flag) == flags,
{
    let v = flags.value;
    let b = flag_bit(flag);
    assert((v | (1usize << b)) | (1usize << b) == v | (1usize << b)) by (bit_vector);
    assert(!bit_is_set(v, b) ==> (v | (1usize << b)) & !(1usize << b) == v) by (bit_vector)
        requires
            b < usize::BITS,
    ;
}

} // verus!
