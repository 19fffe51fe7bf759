use crate::color::Color;
use vstd::prelude::*;

verus! {

/// The bits of the nine named text attributes together.
pub const ALL_BITS: u16 = 0x1ff;

/// A set of text attributes, stored as a 16-bit pattern.
///
/// Values built by the checked constructors carry only the bits of `ALL_BITS`;
/// `from_bits_unchecked` is the one way to carry other bits.
#[derive(Debug, Clone, Copy, PartialEq, Eq, Structural, PartialOrd, Ord, Hash)]
pub struct Modifier {
    bits: u16,
}

impl View for Modifier {
    type V = u16;

    closed spec fn view(&self) -> u16 {
        self.bits
    }
}

/// The facts that tie a set to its bit pattern.
pub broadcast group group_modifier_view {
    Modifier::lemma_view_of_bits,
    Modifier::lemma_eq_by_view,
}

impl Modifier {
    // One bit for each named attribute.
    pub const BOLD_BITS: u16 = 0x001;
    pub const DIM_BITS: u16 = 0x002;
    pub const ITALIC_BITS: u16 = 0x004;
    pub const UNDERLINED_BITS: u16 = 0x008;
    pub const SLOW_BLINK_BITS: u16 = 0x010;
    pub const RAPID_BLINK_BITS: u16 = 0x020;
    pub const REVERSED_BITS: u16 = 0x040;
    pub const HIDDEN_BITS: u16 = 0x080;
    pub const CROSSED_OUT_BITS: u16 = 0x100;

    /// The set whose bit pattern is `bits`.
    pub closed spec fn of_bits(bits: u16) -> Modifier {
        Modifier { bits }
    }

    /// The set built from a bit pattern has that pattern.
    pub broadcast proof fn lemma_view_of_bits(bits: u16)
        ensures
            #[trigger] Modifier::of_bits(bits)@ == bits,
    {
    }

    /// Two sets with the same bit pattern are equal.
    pub broadcast proof fn lemma_eq_by_view(a: Modifier, b: Modifier)
        requires
            a@ == b@,
        ensures
            #![trigger a@, b@]
            a == b,
    {
    }

    /// The set with no bit.
    pub open spec fn spec_empty() -> Modifier {
        Modifier::of_bits(0)
    }

    /// The set of the nine named attributes.
    pub open spec fn spec_all() -> Modifier {
        Modifier::of_bits(ALL_BITS)
    }

    /// The bits set in both sets.
    pub open spec fn spec_intersection(self, other: Modifier) -> Modifier {
        Modifier::of_bits(self@ & other@)
    }

    /// The bits set in either set.
    pub open spec fn spec_union(self, other: Modifier) -> Modifier {
        Modifier::of_bits(self@ | other@)
    }

    /// The bits of `self` that are not in `other`.
    pub open spec fn spec_difference(self, other: Modifier) -> Modifier {
        Modifier::of_bits(self@ & !other@)
    }

    /// The bits set in exactly one of the two sets.
    pub open spec fn spec_symmetric_difference(self, other: Modifier) -> Modifier {
        Modifier::of_bits(self@ ^ other@)
    }

    /// The named attributes that are not in `self`.
    pub open spec fn spec_complement(self) -> Modifier {
        Modifier::of_bits(!self@ & ALL_BITS)
    }

    /// What `from_bits` returns: a set only where `bits` holds no bit outside `ALL_BITS`.
    pub open spec fn spec_from_bits(bits: u16) -> Option<Modifier> {
        if bits & !ALL_BITS == 0 {
            Some(Modifier::of_bits(bits))
        } else {
            None
        }
    }

    /// Whether every bit of `other` is in `self`, for a non-empty `other`.
    pub open spec fn spec_contains(self, other: Modifier) -> bool {
        other@ != 0 && self@ & other@ == other@
    }

    /// Whether the set holds only named attributes.
    pub open spec fn valid(self) -> bool {
        self@ & !ALL_BITS == 0
    }

    /// The set holding only the bold attribute.
    pub fn bold() -> (r: Modifier)
        ensures
            r@ == Self::BOLD_BITS,
    {
        Modifier { bits: Self::BOLD_BITS }
    }

    /// The set holding only the dim attribute.
    pub fn dim() -> (r: Modifier)
        ensures
            r@ == Self::DIM_BITS,
    {
        Modifier { bits: Self::DIM_BITS }
    }

    /// The set holding only the italic attribute.
    pub fn italic() -> (r: Modifier)
        ensures
            r@ == Self::ITALIC_BITS,
    {
        Modifier { bits: Self::ITALIC_BITS }
    }

    /// The set holding only the underlined attribute.
    pub fn underlined() -> (r: Modifier)
        ensures
            r@ == Self::UNDERLINED_BITS,
    {
        Modifier { bits: Self::UNDERLINED_BITS }
    }

    /// The set holding only the slowly blinking attribute.
    pub fn slow_blink() -> (r: Modifier)
        ensures
            r@ == Self::SLOW_BLINK_BITS,
    {
        Modifier { bits: Self::SLOW_BLINK_BITS }
    }

    /// The set holding only the rapidly blinking attribute.
    pub fn rapid_blink() -> (r: Modifier)
        ensures
            r@ == Self::RAPID_BLINK_BITS,
    {
        Modifier { bits: Self::RAPID_BLINK_BITS }
    }

    /// The set holding only the reversed (swapped colors) attribute.
    pub fn reversed() -> (r: Modifier)
        ensures
            r@ == Self::REVERSED_BITS,
    {
        Modifier { bits: Self::REVERSED_BITS }
    }

    /// The set holding only the hidden attribute.
    pub fn hidden() -> (r: Modifier)
        ensures
            r@ == Self::HIDDEN_BITS,
    {
        Modifier { bits: Self::HIDDEN_BITS }
    }

    /// The set holding only the crossed-out attribute.
    pub fn crossed_out() -> (r: Modifier)
        ensures
            r@ == Self::CROSSED_OUT_BITS,
    {
        Modifier { bits: Self::CROSSED_OUT_BITS }
    }

    /// Returns the set with no attribute.
    pub fn empty() -> (r: Modifier)
        ensures
            r == Modifier::spec_empty(),
            r@ == 0,
    {
        Modifier { bits: 0 }
    }

    /// Returns the set of all nine named attributes.
    pub fn all() -> (r: Modifier)
        ensures
            r == Modifier::spec_all(),
            r@ == ALL_BITS,
    {
        Modifier { bits: ALL_BITS }
    }

    /// Returns the raw bit pattern.
    pub fn bits(&self) -> (r: u16)
        ensures
            r == self@,
    {
        self.bits
    }

    /// Converts a bit pattern, unless it holds a bit that names no attribute.
    pub fn from_bits(bits: u16) -> (r: Option<Modifier>)
        ensures
            r == Modifier::spec_from_bits(bits),
            r is Some <==> bits & !ALL_BITS == 0,
            r is Some ==> r->0@ == bits,
    {
        if bits & !ALL_BITS == 0 {
            Some(Modifier { bits })
        } else {
            None
        }
    }

    /// Converts a bit pattern, dropping the bits that name no attribute.
    pub fn from_bits_truncate(bits: u16) -> (r: Modifier)
        ensures
            r@ == bits & ALL_BITS,
    {
        Modifier { bits: bits & ALL_BITS }
    }

    /// Converts a bit pattern and keeps every bit, also those that name no attribute.
    ///
    /// The caller answers for what such bits mean: the set operations carry them along,
    /// and `complement` drops them.
    pub fn from_bits_unchecked(bits: u16) -> (r: Modifier)
        ensures
            r@ == bits,
    {
        Modifier { bits }
    }

    /// Returns `true` if no bit is set.
    pub fn is_empty(&self) -> (r: bool)
        ensures
            r == (self@ == 0),
    {
        self.bits == 0
    }

    /// Returns `true` if all nine named attributes are set.
    pub fn is_all(&self) -> (r: bool)
        ensures
            r == (self@ & ALL_BITS == ALL_BITS),
    {
        let b = self.bits;
        assert(((ALL_BITS | b) == b) == ((b & ALL_BITS) == ALL_BITS)) by (bit_vector);
        ALL_BITS | b == b
    }

    /// Returns `true` if the two sets share a bit.
    pub fn intersects(&self, other: Modifier) -> (r: bool)
        ensures
            r == (self@ & other@ != 0),
    {
        !(Modifier { bits: self.bits & other.bits }).is_empty()
    }

    /// Returns `true` if `other` is not empty and each of its bits is in `self`.
    ///
    /// The empty set is contained in no set, not even in itself.
    pub fn contains(&self, other: Modifier) -> (r: bool)
        ensures
            r == self.spec_contains(other),
    {
        other.bits != 0 && (self.bits & other.bits) == other.bits
    }

    /// Adds the bits of `other` in place.
    pub fn insert(&mut self, other: Modifier)
        ensures
            *final(self) == old(self).spec_union(other),
            final(self)@ == old(self)@ | other@,
    {
        self.bits = self.bits | other.bits;
    }

    /// Clears the bits of `other` in place.
    pub fn remove(&mut self, other: Modifier)
        ensures
            *final(self) == old(self).spec_difference(other),
            final(self)@ == old(self)@ & !other@,
    {
        self.bits = self.bits & !other.bits;
    }

    /// Returns the bits set in both sets.
    pub fn intersection(self, other: Modifier) -> (r: Modifier)
        ensures
            r == self.spec_intersection(other),
            r@ == self@ & other@,
    {
        Modifier { bits: self.bits & other.bits }
    }

    /// Returns the bits set in either set.
    pub fn union(self, other: Modifier) -> (r: Modifier)
        ensures
            r == self.spec_union(other),
            r@ == self@ | other@,
    {
        Modifier { bits: self.bits | other.bits }
    }

    /// Returns the bits of `self` that are not in `other`.
    pub fn difference(self, other: Modifier) -> (r: Modifier)
        ensures
            r == self.spec_difference(other),
            r@ == self@ & !other@,
    {
        Modifier { bits: self.bits & !other.bits }
    }

    /// Returns the bits set in exactly one of the two sets.
    pub fn symmetric_difference(self, other: Modifier) -> (r: Modifier)
        ensures
            r == self.spec_symmetric_difference(other),
            r@ == self@ ^ other@,
    {
        Modifier { bits: self.bits ^ other.bits }
    }

    /// Returns the named attributes that are not in `self`.
    pub fn complement(self) -> (r: Modifier)
        ensures
            r == self.spec_complement(),
            r@ == !self@ & ALL_BITS,
    {
        Modifier::from_bits_truncate(!self.bits)
    }
}

impl core::ops::BitOr for Modifier {
    type Output = Modifier;

    /// The union of the two sets.
    fn bitor(self, other: Modifier) -> (r: Modifier)
        ensures
            r == self.spec_union(other),
            r@ == self@ | other@,
    {
        self.union(other)
    }
}

impl vstd::std_specs::ops::BitOrSpecImpl for Modifier {
    open spec fn obeys_bitor_spec() -> bool {
        true
    }

    open spec fn bitor_req(self, rhs: Modifier) -> bool {
        true
    }

    open spec fn bitor_spec(self, rhs: Modifier) -> Modifier {
        self.spec_union(rhs)
    }
}

impl core::ops::BitXor for Modifier {
    type Output = Modifier;

    /// The symmetric difference of the two sets.
    fn bitxor(self, other: Modifier) -> (r: Modifier)
        ensures
            r == self.spec_symmetric_difference(other),
            r@ == self@ ^ other@,
    {
        self.symmetric_difference(other)
    }
}

impl vstd::std_specs::ops::BitXorSpecImpl for Modifier {
    open spec fn obeys_bitxor_spec() -> bool {
        true
    }

    open spec fn bitxor_req(self, rhs: Modifier) -> bool {
        true
    }

    open spec fn bitxor_spec(self, rhs: Modifier) -> Modifier {
        self.spec_symmetric_difference(rhs)
    }
}

impl core::ops::BitAnd for Modifier {
    type Output = Modifier;

    /// The intersection of the two sets.
    fn bitand(self, other: Modifier) -> (r: Modifier)
        ensures
            r == self.spec_intersection(other),
            r@ == self@ & other@,
    {
        self.intersection(other)
    }
}

impl vstd::std_specs::ops::BitAndSpecImpl for Modifier {
    open spec fn obeys_bitand_spec() -> bool {
        true
    }

    open spec fn bitand_req(self, rhs: Modifier) -> bool {
        true
    }

    open spec fn bitand_spec(self, rhs: Modifier) -> Modifier {
        self.spec_intersection(rhs)
    }
}

impl core::ops::Sub for Modifier {
    type Output = Modifier;

    /// The difference of the two sets.
    fn sub(self, other: Modifier) -> (r: Modifier)
        ensures
            r == self.spec_difference(other),
            r@ == self@ & !other@,
    {
        self.difference(other)
    }
}

impl vstd::std_specs::ops::SubSpecImpl for Modifier {
    open spec fn obeys_sub_spec() -> bool {
        true
    }

    open spec fn sub_req(self, rhs: Modifier) -> bool {
        true
    }

    open spec fn sub_spec(self, rhs: Modifier) -> Modifier {
        self.spec_difference(rhs)
    }
}

// Verified callers write `core::ops::Not::not(m)`: Verus does not take the prefix `!` on a
// struct.
impl core::ops::Not for Modifier {
    type Output = Modifier;

    /// The complement of the set within the named attributes.
    fn not(self) -> (r: Modifier)
        ensures
            r == self.spec_complement(),
            r@ == !self@ & ALL_BITS,
    {
        self.complement()
    }
}

impl vstd::std_specs::ops::NotSpecImpl for Modifier {
    open spec fn obeys_not_spec() -> bool {
        true
    }

    open spec fn not_req(self) -> bool {
        true
    }

    open spec fn not_spec(self) -> Modifier {
        self.spec_complement()
    }
}

/// An incremental change of style: a color that is absent leaves the color as it was,
/// `add_modifier` lists the attributes that the change turns on and `sub_modifier` those
/// that it turns off.
///
/// Styles applied to a cell one after the other combine by `patch`.
#[derive(Debug, Clone, Copy, PartialEq, Eq, Structural)]
pub struct Style {
    pub fg: Option<Color>,
    pub bg: Option<Color>,
    pub add_modifier: Modifier,
    pub sub_modifier: Modifier,
}

/// The later color where it is present, else the earlier one.
pub open spec fn later_color(earlier: Option<Color>, later: Option<Color>) -> Option<Color> {
    if later is Some {
        later
    } else {
        earlier
    }
}

impl Style {
    /// No attribute is both turned on and turned off.
    pub open spec fn wf(self) -> bool {
        self.add_modifier@ & self.sub_modifier@ == 0
    }

    /// The style that changes nothing.
    pub open spec fn spec_default() -> Style {
        Style {
            fg: None,
            bg: None,
            add_modifier: Modifier::spec_empty(),
            sub_modifier: Modifier::spec_empty(),
        }
    }

    /// The style that resets both colors to the terminal's default and turns every
    /// attribute off.
    pub open spec fn spec_reset() -> Style {
        Style {
            fg: Some(Color::Reset),
            bg: Some(Color::Reset),
            add_modifier: Modifier::spec_empty(),
            sub_modifier: Modifier::spec_all(),
        }
    }

    /// The single style with the effect of applying `self` and then `other`.
    pub open spec fn spec_patch(self, other: Style) -> Style {
        Style {
            fg: later_color(self.fg, other.fg),
            bg: later_color(self.bg, other.bg),
            add_modifier: self.add_modifier.spec_difference(other.sub_modifier).spec_union(
                other.add_modifier,
            ),
            sub_modifier: self.sub_modifier.spec_difference(other.add_modifier).spec_union(
                other.sub_modifier,
            ),
        }
    }

    /// Returns a style that resets all properties.
    pub fn reset() -> (r: Style)
        ensures
            r == Style::spec_reset(),
            r.fg == Some(Color::Reset),
            r.bg == Some(Color::Reset),
            r.add_modifier@ == 0,
            r.sub_modifier@ == ALL_BITS,
            r.wf(),
    {
        assert(0u16 & ALL_BITS == 0) by (bit_vector);
        Style {
            fg: Some(Color::Reset),
            bg: Some(Color::Reset),
            add_modifier: Modifier::empty(),
            sub_modifier: Modifier::all(),
        }
    }

    /// Sets the foreground color.
    pub fn fg(self, color: Color) -> (r: Style)
        ensures
            r == (Style { fg: Some(color), ..self }),
            self.wf() ==> r.wf(),
    {
        let mut r = self;
        r.fg = Some(color);
        r
    }

    /// Sets the background color.
    pub fn bg(self, color: Color) -> (r: Style)
        ensures
            r == (Style { bg: Some(color), ..self }),
            self.wf() ==> r.wf(),
    {
        let mut r = self;
        r.bg = Some(color);
        r
    }

    /// Turns the attributes of `modifier` on, and no longer off.
    pub fn add_modifier(self, modifier: Modifier) -> (r: Style)
        ensures
            r.fg == self.fg,
            r.bg == self.bg,
            r.add_modifier@ == self.add_modifier@ | modifier@,
            r.sub_modifier@ == self.sub_modifier@ & !modifier@,
            self.wf() ==> r.wf(),
    {
        let mut r = self;
        r.sub_modifier.remove(modifier);
        r.add_modifier.insert(modifier);
        proof {
            let (a, s, m) = (self.add_modifier@, self.sub_modifier@, modifier@);
            assert(a & s == 0 ==> (a | m) & (s & !m) == 0) by (bit_vector);
        }
        r
    }

    /// Turns the attributes of `modifier` off, and no longer on.
    pub fn remove_modifier(self, modifier: Modifier) -> (r: Style)
        ensures
            r.fg == self.fg,
            r.bg == self.bg,
            r.add_modifier@ == self.add_modifier@ & !modifier@,
            r.sub_modifier@ == self.sub_modifier@ | modifier@,
            self.wf() ==> r.wf(),
    {
        let mut r = self;
        r.add_modifier.remove(modifier);
        r.sub_modifier.insert(modifier);
        proof {
            let (a, s, m) = (self.add_modifier@, self.sub_modifier@, modifier@);
            assert(a & s == 0 ==> (a & !m) & (s | m) == 0) by (bit_vector);
        }
        r
    }

    /// Combines two styles into the one that has the effect of applying `self` and then
    /// `other`: a color of `other` replaces that of `self`, an attribute that `other`
    /// turns on or off overrides what `self` did with it.
    pub fn patch(self, other: Style) -> (r: Style)
        ensures
            r == self.spec_patch(other),
            r.fg == later_color(self.fg, other.fg),
            r.bg == later_color(self.bg, other.bg),
            r.add_modifier@ == (self.add_modifier@ & !other.sub_modifier@) | other.add_modifier@,
            r.sub_modifier@ == (self.sub_modifier@ & !other.add_modifier@) | other.sub_modifier@,
            self.wf() && other.wf() ==> r.wf(),
    {
        let mut r = self;
        r.fg = if other.fg.is_some() { other.fg } else { self.fg };
        r.bg = if other.bg.is_some() { other.bg } else { self.bg };
        r.add_modifier.remove(other.sub_modifier);
        r.add_modifier.insert(other.add_modifier);
        r.sub_modifier.remove(other.add_modifier);
        r.sub_modifier.insert(other.sub_modifier);
        proof {
            let (a1, s1) = (self.add_modifier@, self.sub_modifier@);
            let (a2, s2) = (other.add_modifier@, other.sub_modifier@);
            assert(a1 & s1 == 0 && a2 & s2 == 0 ==> ((a1 & !s2) | a2) & ((s1 & !a2) | s2) == 0)
                by (bit_vector);
        }
        r
    }
}

impl Default for Style {
    /// The style that changes nothing.
    fn default() -> (r: Style)
        ensures
            r == Style::spec_default(),
            r.fg is None,
            r.bg is None,
            r.add_modifier@ == 0,
            r.sub_modifier@ == 0,
            r.wf(),
    {
        assert(0u16 & 0u16 == 0) by (bit_vector);
        Style {
            fg: None,
            bg: None,
            add_modifier: Modifier::empty(),
            sub_modifier: Modifier::empty(),
        }
    }
}

/// The union of two sets does not depend on their order.
pub proof fn lemma_union_commutative(a: Modifier, b: Modifier)
    ensures
        a@ | b@ == b@ | a@,
        a.spec_union(b) == b.spec_union(a),
{
    let (x, y) = (a@, b@);
    assert(x | y == y | x) by (bit_vector);
}

/// Taking unions does not depend on their grouping.
pub proof fn lemma_union_associative(a: Modifier, b: Modifier, c: Modifier)
    ensures
        (a@ | b@) | c@ == a@ | (b@ | c@),
        a.spec_union(b).spec_union(c) == a.spec_union(b.spec_union(c)),
{
    let (x, y, z) = (a@, b@, c@);
    assert((x | y) | z == x | (y | z)) by (bit_vector);
}

/// A set minus itself is empty.
pub proof fn lemma_difference_self(a: Modifier)
    ensures
        a@ & !a@ == 0,
        a.spec_difference(a) == Modifier::spec_empty(),
{
    let x = a@;
    assert(x & !x == 0) by (bit_vector);
}

/// The complement of the complement of a set of named attributes is the set itself.
pub proof fn lemma_complement_involutive(a: Modifier)
    requires
        a.valid(),
    ensures
        !(!a@ & ALL_BITS) & ALL_BITS == a@,
        a.spec_complement().spec_complement() == a,
{
    let x = a@;
    assert(x & !ALL_BITS == 0 ==> !(!x & ALL_BITS) & ALL_BITS == x) by (bit_vector);
}

/// No set contains the empty set, the empty set itself included.
pub proof fn lemma_nothing_contains_empty(a: Modifier, e: Modifier)
    requires
        e@ == 0,
    ensures
        !a.spec_contains(e),
        !a.spec_contains(Modifier::spec_empty()),
{
}

/// A set of named attributes comes back from its bit pattern unchanged.
pub proof fn lemma_from_bits_round_trip(m: Modifier)
    requires
        m.valid(),
    ensures
        Modifier::spec_from_bits(m@) == Some(m),
{
}

/// A bit pattern with a bit outside the named attributes is refused.
pub proof fn lemma_from_bits_rejects_unknown(bits: u16)
    requires
        bits & !ALL_BITS != 0,
    ensures
        Modifier::spec_from_bits(bits) is None,
{
}

/// Truncating a bit pattern gives what the checked conversion gives on the pattern
/// masked by `ALL_BITS`.
pub proof fn lemma_truncate_is_masked_from_bits(bits: u16, t: Modifier)
    requires
        t@ == bits & ALL_BITS,
    ensures
        Modifier::spec_from_bits(bits & ALL_BITS) == Some(t),
{
    assert((bits & ALL_BITS) & !ALL_BITS == 0) by (bit_vector);
}

/// The style that changes nothing is an identity of `patch`, on either side.
pub proof fn lemma_patch_identity(s: Style)
    ensures
        Style::spec_default().spec_patch(s) == s,
        s.spec_patch(Style::spec_default()) == s,
{
    let (a, b) = (s.add_modifier@, s.sub_modifier@);
    assert((0u16 & !b) | a == a && (0u16 & !a) | b == b) by (bit_vector);
    assert((a & !0u16) | 0u16 == a && (b & !0u16) | 0u16 == b) by (bit_vector);
}

/// Patching the reset style onto a style of named attributes gives the reset style,
/// whatever that style was.
pub proof fn lemma_reset_absorbs(s: Style)
    requires
        s.add_modifier.valid(),
        s.sub_modifier.valid(),
    ensures
        s.spec_patch(Style::spec_reset()) == Style::spec_reset(),
{
    let (a, b) = (s.add_modifier@, s.sub_modifier@);
    assert(a & !ALL_BITS == 0 ==> (a & !ALL_BITS) | 0u16 == 0) by (bit_vector);
    assert(b & !ALL_BITS == 0 ==> (b & !0u16) | ALL_BITS == ALL_BITS) by (bit_vector);
}

/// Applying two styles one after the other and applying their patch have the same effect:
/// `patch` is associative.
pub proof fn lemma_patch_associative(x: Style, y: Style, z: Style)
    ensures
        x.spec_patch(y).spec_patch(z) == x.spec_patch(y.spec_patch(z)),
{
    let (xa, xs) = (x.add_modifier@, x.sub_modifier@);
    let (ya, ys) = (y.add_modifier@, y.sub_modifier@);
    let (za, zs) = (z.add_modifier@, z.sub_modifier@);
    assert((((xa & !ys) | ya) & !zs) | za == (xa & !((ys & !za) | zs)) | ((ya & !zs) | za))
        by (bit_vector);
    assert((((xs & !ya) | ys) & !za) | zs == (xs & !((ya & !zs) | za)) | ((ys & !za) | zs))
        by (bit_vector);
}

/// Folding four styles one at a time onto the style that changes nothing gives the same
/// result as patching in their right fold once.
pub proof fn lemma_patch_right_fold(a: Style, b: Style, c: Style, d: Style)
    ensures
        Style::spec_default().spec_patch(a).spec_patch(b).spec_patch(c).spec_patch(d)
            == Style::spec_default().spec_patch(a.spec_patch(b.spec_patch(c.spec_patch(d)))),
{
    let e = Style::spec_default();
    lemma_patch_associative(e.spec_patch(a).spec_patch(b), c, d);
    lemma_patch_associative(e.spec_patch(a), b, c.spec_patch(d));
    lemma_patch_associative(e, a, b.spec_patch(c.spec_patch(d)));
}

} // verus!
