//! A three-valued logic type: definitive truth, definitive falsity, or an
//! unknown truth value. `TriState` carries the same information as an
//! `Option<bool>` and converts to and from it losslessly; convenience
//! predicates name each of the three states at call sites.

use vstd::prelude::*;

verus! {

use vstd::std_specs::cmp::PartialOrdSpec;

/// A three-valued type equivalent to `Option<bool>`.
///
/// Values are plain copyable tags. The declaration order fixes the total
/// order used for sorting: `Yes < No < Unknown`.
#[derive(Clone, Copy, Debug, Eq, PartialEq, Structural, Ord)]
pub enum TriState {
    /// The tri-state value signifying definitive truth.
    Yes,
    /// The tri-state value signifying definitive falsity.
    No,
    /// The tri-state value signifying an unknown truth value.
    Unknown,
}

impl TriState {
    /// The optional boolean that `self` stands for: `Yes` is a present
    /// `true`, `No` a present `false`, `Unknown` an absent value.
    pub open spec fn spec_to_bool(self) -> Option<bool> {
        match self {
            TriState::Yes => Some(true),
            TriState::No => Some(false),
            TriState::Unknown => None,
        }
    }

    /// The tri-state value standing for a plain boolean: `true` is `Yes`,
    /// `false` is `No`. No boolean maps to `Unknown`.
    pub open spec fn spec_from_bool(b: bool) -> TriState {
        if b {
            TriState::Yes
        } else {
            TriState::No
        }
    }

    /// The tri-state value standing for an optional boolean: a present
    /// boolean as `spec_from_bool` has it, an absent one as `Unknown`.
    pub open spec fn spec_from_option_bool(o: Option<bool>) -> TriState {
        match o {
            Some(b) => TriState::spec_from_bool(b),
            None => TriState::Unknown,
        }
    }

    /// The position of the variant in the declaration order, which is the
    /// order `partial_cmp` and `cmp` compare by.
    pub open spec fn spec_rank(self) -> int {
        match self {
            TriState::Yes => 0,
            TriState::No => 1,
            TriState::Unknown => 2,
        }
    }

    /// Is `self` equal to `Yes`?
    pub fn yes(self) -> (r: bool)
        ensures
            r == (self == TriState::Yes),
    {
        self == TriState::Yes
    }

    /// Is `self` equal to `No`?
    pub fn no(self) -> (r: bool)
        ensures
            r == (self == TriState::No),
    {
        self == TriState::No
    }

    /// Is `self` equal to `Unknown`?
    pub fn unknown(self) -> (r: bool)
        ensures
            r == (self == TriState::Unknown),
    {
        self == TriState::Unknown
    }

    /// A mnemonic for `yes()`.
    pub fn definitely(self) -> (r: bool)
        ensures
            r == (self == TriState::Yes),
    {
        self.yes()
    }

    /// A mnemonic for `no()`.
    pub fn definitely_not(self) -> (r: bool)
        ensures
            r == (self == TriState::No),
    {
        self.no()
    }

    /// A mnemonic for `unknown()`.
    pub fn maybe(self) -> (r: bool)
        ensures
            r == (self == TriState::Unknown),
    {
        self.unknown()
    }

    /// Converts `self` to an `Option<bool>`. Equivalent to
    /// `Option::<bool>::from(self)`.
    pub fn to_bool(self) -> (r: Option<bool>)
        ensures
            r == self.spec_to_bool(),
    {
        match self {
            TriState::Yes => Some(true),
            TriState::No => Some(false),
            TriState::Unknown => None,
        }
    }
}

impl From<TriState> for Option<bool> {
    fn from(t: TriState) -> (r: Option<bool>) {
        t.to_bool()
    }
}

impl vstd::std_specs::convert::FromSpecImpl<TriState> for Option<bool> {
    open spec fn obeys_from_spec() -> bool {
        true
    }

    open spec fn from_spec(t: TriState) -> Option<bool> {
        t.spec_to_bool()
    }
}

impl From<Option<bool>> for TriState {
    fn from(b: Option<bool>) -> (r: TriState) {
        match b {
            Some(true) => TriState::Yes,
            Some(false) => TriState::No,
            None => TriState::Unknown,
        }
    }
}

impl vstd::std_specs::convert::FromSpecImpl<Option<bool>> for TriState {
    open spec fn obeys_from_spec() -> bool {
        true
    }

    open spec fn from_spec(b: Option<bool>) -> TriState {
        TriState::spec_from_option_bool(b)
    }
}

impl From<bool> for TriState {
    fn from(b: bool) -> (r: TriState) {
        match b {
            true => TriState::Yes,
            false => TriState::No,
        }
    }
}

impl vstd::std_specs::convert::FromSpecImpl<bool> for TriState {
    open spec fn obeys_from_spec() -> bool {
        true
    }

    open spec fn from_spec(b: bool) -> TriState {
        TriState::spec_from_bool(b)
    }
}

impl PartialOrd for TriState {
    fn partial_cmp(&self, other: &TriState) -> (r: Option<core::cmp::Ordering>) {
        let a: u8 = match self {
            TriState::Yes => 0,
            TriState::No => 1,
            TriState::Unknown => 2,
        };
        let b: u8 = match other {
            TriState::Yes => 0,
            TriState::No => 1,
            TriState::Unknown => 2,
        };
        if a < b {
            Some(core::cmp::Ordering::Less)
        } else if a == b {
            Some(core::cmp::Ordering::Equal)
        } else {
            Some(core::cmp::Ordering::Greater)
        }
    }
}

impl vstd::std_specs::cmp::PartialOrdSpecImpl for TriState {
    open spec fn obeys_partial_cmp_spec() -> bool {
        true
    }

    open spec fn partial_cmp_spec(&self, other: &TriState) -> Option<core::cmp::Ordering> {
        if self.spec_rank() < other.spec_rank() {
            Some(core::cmp::Ordering::Less)
        } else if self.spec_rank() == other.spec_rank() {
            Some(core::cmp::Ordering::Equal)
        } else {
            Some(core::cmp::Ordering::Greater)
        }
    }
}

/// Exactly one of the three variant tests holds of any tri-state value:
/// every value is `Yes`, `No` or `Unknown`, and no value is two of them.
pub proof fn lemma_exactly_one_variant(v: TriState)
    ensures
        (v == TriState::Yes) || (v == TriState::No) || (v == TriState::Unknown),
        !((v == TriState::Yes) && (v == TriState::No)),
        !((v == TriState::Yes) && (v == TriState::Unknown)),
        !((v == TriState::No) && (v == TriState::Unknown)),
{
}

/// Exactly one of `v.yes()`, `v.no()` and `v.unknown()` returns `true` for
/// any tri-state value `v`: whatever results the three queries return for
/// the same value, one and only one of them is `true`.
pub proof fn lemma_exactly_one_query(v: TriState, r_yes: bool, r_no: bool, r_unknown: bool)
    requires
        call_ensures(TriState::yes, (v,), r_yes),
        call_ensures(TriState::no, (v,), r_no),
        call_ensures(TriState::unknown, (v,), r_unknown),
    ensures
        r_yes || r_no || r_unknown,
        !(r_yes && r_no),
        !(r_yes && r_unknown),
        !(r_no && r_unknown),
{
}

/// The alias methods are exact synonyms of their counterparts: for the same
/// value, `definitely` returns what `yes` returns, `definitely_not` what
/// `no` returns, and `maybe` what `unknown` returns.
pub proof fn lemma_aliases_agree(v: TriState, r_alias: bool, r_query: bool)
    ensures
        call_ensures(TriState::definitely, (v,), r_alias) && call_ensures(
            TriState::yes,
            (v,),
            r_query,
        ) ==> r_alias == r_query,
        call_ensures(TriState::definitely_not, (v,), r_alias) && call_ensures(
            TriState::no,
            (v,),
            r_query,
        ) ==> r_alias == r_query,
        call_ensures(TriState::maybe, (v,), r_alias) && call_ensures(
            TriState::unknown,
            (v,),
            r_query,
        ) ==> r_alias == r_query,
{
}

/// Round trip through `TriState`: converting any optional boolean to a
/// tri-state value and back returns the original optional boolean.
pub proof fn lemma_option_bool_round_trip(o: Option<bool>)
    ensures
        TriState::spec_from_option_bool(o).spec_to_bool() == o,
{
}

/// Round trip through `Option<bool>`: converting any tri-state value to an
/// optional boolean and back returns the original tri-state value.
pub proof fn lemma_tri_state_round_trip(v: TriState)
    ensures
        TriState::spec_from_option_bool(v.spec_to_bool()) == v,
{
}

/// Conversion from a plain boolean: `true` gives the truth variant, `false`
/// the falsity variant, and no boolean input ever gives `Unknown`.
pub proof fn lemma_from_bool_never_unknown(b: bool)
    ensures
        TriState::spec_from_bool(b) == (if b {
            TriState::Yes
        } else {
            TriState::No
        }),
        TriState::spec_from_bool(b) != TriState::Unknown,
{
}

/// The order of tri-state values: `Yes` compares below `No`, which compares
/// below `Unknown`; `partial_cmp` is total, reports equality exactly between
/// identical variants, and orders values by their rank.
pub proof fn lemma_ordering(a: TriState, b: TriState)
    ensures
        TriState::Yes.partial_cmp_spec(&TriState::No) == Some(core::cmp::Ordering::Less),
        TriState::No.partial_cmp_spec(&TriState::Unknown) == Some(core::cmp::Ordering::Less),
        TriState::Yes.partial_cmp_spec(&TriState::Unknown) == Some(core::cmp::Ordering::Less),
        a.partial_cmp_spec(&b) is Some,
        (a.partial_cmp_spec(&b) == Some(core::cmp::Ordering::Equal)) == (a == b),
        (a.partial_cmp_spec(&b) == Some(core::cmp::Ordering::Less)) == (a.spec_rank()
            < b.spec_rank()),
{
}

} // verus!
