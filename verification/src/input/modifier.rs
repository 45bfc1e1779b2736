//! Modifier keys, lists of them, and their encoding as a bit mask.

use super::mask::Mask;
use std::ops::{Add, AddAssign, BitAnd, BitOr};
use vstd::prelude::*;
use vstd::std_specs::cmp::PartialEqSpecImpl;
use vstd::std_specs::convert::FromSpecImpl;
use vstd::std_specs::ops::{AddSpecImpl, BitAndSpecImpl, BitOrSpecImpl};

verus! {

// Unless the kitty protocol is active:
// - Shift will not be sent by itself, or only with Control (captured by the
//   terminal). Including a modifier with only Shift is redundant, as it is
//   implied by the Key variant. The only exception is Shift + Tab, which is
//   sent as a distinct escape sequence.
// - Hyper and Meta are special to X11/Wayland.
// - Not all combinations with control are captured. This is unavoidable.
//   For example, Ctrl + H, I, or J return backspace, tab, enter respectively.
#[derive(PartialEq, Eq, Clone, Copy, Debug, Structural)]
pub enum Modifier {
    Shift,
    Alt,
    Ctrl,
    Super,
    Hyper,
    Meta,
}

impl Modifier {
    /// The bit that stands for the modifier in a mask.
    pub open spec fn bit_value(self) -> usize {
        match self {
            Modifier::Shift => 0b00_0001,
            Modifier::Alt => 0b00_0010,
            Modifier::Ctrl => 0b00_0100,
            Modifier::Super => 0b00_1000,
            Modifier::Hyper => 0b01_0000,
            Modifier::Meta => 0b10_0000,
        }
    }

    /// The bit that stands for the modifier in a mask.
    pub fn bit(self) -> (bit: usize)
        ensures
            bit == self.bit_value(),
    {
        match self {
            Modifier::Shift => 0b00_0001,
            Modifier::Alt => 0b00_0010,
            Modifier::Ctrl => 0b00_0100,
            Modifier::Super => 0b00_1000,
            Modifier::Hyper => 0b01_0000,
            Modifier::Meta => 0b10_0000,
        }
    }

    /// The modifier's name as it is shown.
    pub open spec fn name(self) -> Seq<char> {
        match self {
            Modifier::Shift => "Shift"@,
            Modifier::Alt => "Alt"@,
            Modifier::Ctrl => "Ctrl"@,
            Modifier::Super => "Super"@,
            Modifier::Hyper => "Hyper"@,
            Modifier::Meta => "Meta"@,
        }
    }

    pub fn to_string(&self) -> (text: String)
        ensures
            text@ == self.name(),
    {
        match self {
            Modifier::Shift => String::from_str("Shift"),
            Modifier::Alt => String::from_str("Alt"),
            Modifier::Ctrl => String::from_str("Ctrl"),
            Modifier::Super => String::from_str("Super"),
            Modifier::Hyper => String::from_str("Hyper"),
            Modifier::Meta => String::from_str("Meta"),
        }
    }
}

impl BitAndSpecImpl for Modifier {
    open spec fn obeys_bitand_spec() -> bool {
        true
    }

    open spec fn bitand_req(self, rhs: Modifier) -> bool {
        true
    }

    open spec fn bitand_spec(self, rhs: Modifier) -> usize {
        self.bit_value() & rhs.bit_value()
    }
}

impl BitAnd for Modifier {
    type Output = usize;

    fn bitand(self, rhs: Modifier) -> (bits: usize) {
        self.bit() & rhs.bit()
    }
}

impl BitOrSpecImpl for Modifier {
    open spec fn obeys_bitor_spec() -> bool {
        true
    }

    open spec fn bitor_req(self, rhs: Modifier) -> bool {
        true
    }

    open spec fn bitor_spec(self, rhs: Modifier) -> usize {
        self.bit_value() | rhs.bit_value()
    }
}

impl BitOr for Modifier {
    type Output = usize;

    fn bitor(self, rhs: Modifier) -> (bits: usize) {
        self.bit() | rhs.bit()
    }
}

/// The modifiers held with a key or a mouse button, in the order in which
/// they were added.
#[derive(Default, Debug)]
pub struct ModifierList(pub Vec<Modifier>);

impl Clone for ModifierList {
    fn clone(&self) -> (copy: ModifierList)
        ensures
            copy@ == self@,
    {
        let mut mods: Vec<Modifier> = Vec::new();
        let mut i: usize = 0;
        while i < self.0.len()
            invariant
                i <= self.0.len(),
                mods@ == self.0@.take(i as int),
            decreases self.0.len() - i,
        {
            mods.push(self.0[i]);
            assert(self.0@.take(i + 1) =~= self.0@.take(i as int).push(self.0@[i as int]));
            i += 1;
        }
        assert(self.0@.take(self.0.len() as int) =~= self.0@);
        ModifierList(mods)
    }
}

impl View for ModifierList {
    type V = Seq<Modifier>;

    open spec fn view(&self) -> Seq<Modifier> {
        self.0@
    }
}

/// `mods`, with `m` added at the end unless it is there already.
pub open spec fn with_modifier(mods: Seq<Modifier>, m: Modifier) -> Seq<Modifier> {
    if mods.contains(m) {
        mods
    } else {
        mods.push(m)
    }
}

/// `mods`, with `m` added at the end where `cond` holds.
pub open spec fn push_if(mods: Seq<Modifier>, cond: bool, m: Modifier) -> Seq<Modifier> {
    if cond {
        mods.push(m)
    } else {
        mods
    }
}

/// The bit of `m` if `mods` holds `m`, else 0.
pub open spec fn member_bit(mods: Seq<Modifier>, m: Modifier) -> int {
    if mods.contains(m) {
        m.bit_value() as int
    } else {
        0
    }
}

/// The mask of a list of modifiers: one more than the bits of its members
/// taken together. The order of the list and repetitions in it do not count.
pub open spec fn mask_of(mods: Seq<Modifier>) -> int {
    1 + member_bit(mods, Modifier::Shift) + member_bit(mods, Modifier::Alt) + member_bit(
        mods,
        Modifier::Ctrl,
    ) + member_bit(mods, Modifier::Super) + member_bit(mods, Modifier::Hyper) + member_bit(
        mods,
        Modifier::Meta,
    )
}

/// Whether `bits` has the bit of value `bit` (a power of two) set.
pub open spec fn has_bit(bits: int, bit: int) -> bool {
    (bits / bit) % 2 == 1
}

/// The bits that a mask carries: the mask less one, and 0 for the mask 0.
pub open spec fn mask_bits(mask: usize) -> int {
    if mask == 0 {
        0
    } else {
        mask - 1
    }
}

/// The modifiers that a mask stands for, in the order Shift, Alt, Ctrl,
/// Super, Hyper, Meta. Bits above these six are ignored.
pub open spec fn unmask_seq(mask: usize) -> Seq<Modifier> {
    let bits = mask_bits(mask);
    let s0 = Seq::<Modifier>::empty();
    let s1 = push_if(s0, has_bit(bits, 1), Modifier::Shift);
    let s2 = push_if(s1, has_bit(bits, 2), Modifier::Alt);
    let s3 = push_if(s2, has_bit(bits, 4), Modifier::Ctrl);
    let s4 = push_if(s3, has_bit(bits, 8), Modifier::Super);
    let s5 = push_if(s4, has_bit(bits, 16), Modifier::Hyper);
    push_if(s5, has_bit(bits, 32), Modifier::Meta)
}

/// Whether `a` and `b` have the same length and `a` holds every member of `b`.
/// Of two lists without repetitions this says that they hold the same
/// modifiers, in whatever order.
pub open spec fn same_members(a: Seq<Modifier>, b: Seq<Modifier>) -> bool {
    a.len() == b.len() && forall|i: int| 0 <= i < b.len() ==> a.contains(#[trigger] b[i])
}

/// The names of `mods` in order, joined by `" + "`.
pub open spec fn joined_names(mods: Seq<Modifier>) -> Seq<char>
    decreases mods.len(),
{
    if mods.len() == 0 {
        Seq::empty()
    } else if mods.len() == 1 {
        mods[0].name()
    } else {
        joined_names(mods.drop_last()) + " + "@ + mods.last().name()
    }
}

fn holds(mods: &Vec<Modifier>, m: Modifier) -> (found: bool)
    ensures
        found == mods@.contains(m),
{
    let mut i: usize = 0;
    while i < mods.len()
        invariant
            i <= mods.len(),
            forall|j: int| 0 <= j < i ==> mods@[j] != m,
        decreases mods.len() - i,
    {
        if mods[i] == m {
            return true;
        }
        i += 1;
    }
    false
}

fn holds_all(mods: &Vec<Modifier>, others: &[Modifier]) -> (all: bool)
    ensures
        all == same_members(mods@, others@),
{
    if mods.len() != others.len() {
        return false;
    }
    let mut i: usize = 0;
    while i < others.len()
        invariant
            i <= others.len(),
            mods.len() == others.len(),
            forall|j: int| 0 <= j < i ==> mods@.contains(#[trigger] others@[j]),
        decreases others.len() - i,
    {
        if !holds(mods, others[i]) {
            return false;
        }
        i += 1;
    }
    true
}

impl ModifierList {
    /// No modifier occurs twice.
    pub open spec fn wf(&self) -> bool {
        self@.no_duplicates()
    }

    pub fn to_string(&self) -> (text: String)
        ensures
            text@ == joined_names(self@),
    {
        let mut text = String::new();
        let mut i: usize = 0;
        while i < self.0.len()
            invariant
                i <= self.0.len(),
                text@ == joined_names(self.0@.take(i as int)),
            decreases self.0.len() - i,
        {
            let name = self.0[i].to_string();
            if i > 0 {
                text.append(" + ");
            }
            text.append(name.as_str());
            proof {
                let before = self.0@.take(i as int);
                let after = self.0@.take(i + 1);
                assert(after.drop_last() =~= before);
                assert(after.last() == self.0@[i as int]);
                if i == 0 {
                    assert(after[0] == self.0@[0]);
                    assert(Seq::<char>::empty() + name@ =~= name@);
                }
            }
            i += 1;
        }
        assert(self.0@.take(self.0.len() as int) =~= self.0@);
        text
    }
}

impl Mask for ModifierList {
    type Output = ModifierList;

    open spec fn mask_spec(&self) -> int {
        mask_of(self@)
    }

    open spec fn unmasks_to(mask: usize, out: ModifierList) -> bool {
        out@ == unmask_seq(mask)
    }

    fn mask(&self) -> (mask: usize) {
        let mut n: usize = 0;
        if holds(&self.0, Modifier::Shift) {
            n = n + Modifier::Shift.bit();
        }
        if holds(&self.0, Modifier::Alt) {
            n = n + Modifier::Alt.bit();
        }
        if holds(&self.0, Modifier::Ctrl) {
            n = n + Modifier::Ctrl.bit();
        }
        if holds(&self.0, Modifier::Super) {
            n = n + Modifier::Super.bit();
        }
        if holds(&self.0, Modifier::Hyper) {
            n = n + Modifier::Hyper.bit();
        }
        if holds(&self.0, Modifier::Meta) {
            n = n + Modifier::Meta.bit();
        }
        1 + n
    }

    fn unmask(mask: usize) -> (out: ModifierList) {
        let bits: usize = if mask == 0 {
            0
        } else {
            mask - 1
        };
        let mut mods: Vec<Modifier> = Vec::new();
        proof {
            lemma_bit_tests(bits);
        }
        if bits & 0b00_0001 != 0 {
            mods.push(Modifier::Shift);
        }
        if bits & 0b00_0010 != 0 {
            mods.push(Modifier::Alt);
        }
        if bits & 0b00_0100 != 0 {
            mods.push(Modifier::Ctrl);
        }
        if bits & 0b00_1000 != 0 {
            mods.push(Modifier::Super);
        }
        if bits & 0b01_0000 != 0 {
            mods.push(Modifier::Hyper);
        }
        if bits & 0b10_0000 != 0 {
            mods.push(Modifier::Meta);
        }
        ModifierList(mods)
    }
}

proof fn lemma_bit_tests(bits: usize)
    ensures
        (bits & 1 != 0) == has_bit(bits as int, 1),
        (bits & 2 != 0) == has_bit(bits as int, 2),
        (bits & 4 != 0) == has_bit(bits as int, 4),
        (bits & 8 != 0) == has_bit(bits as int, 8),
        (bits & 16 != 0) == has_bit(bits as int, 16),
        (bits & 32 != 0) == has_bit(bits as int, 32),
{
    assert((bits & 1 != 0) == ((bits / 1) % 2 == 1)) by (bit_vector);
    assert((bits & 2 != 0) == ((bits / 2) % 2 == 1)) by (bit_vector);
    assert((bits & 4 != 0) == ((bits / 4) % 2 == 1)) by (bit_vector);
    assert((bits & 8 != 0) == ((bits / 8) % 2 == 1)) by (bit_vector);
    assert((bits & 16 != 0) == ((bits / 16) % 2 == 1)) by (bit_vector);
    assert((bits & 32 != 0) == ((bits / 32) % 2 == 1)) by (bit_vector);
}

impl AddSpecImpl<Modifier> for ModifierList {
    open spec fn obeys_add_spec() -> bool {
        false
    }

    open spec fn add_req(self, rhs: Modifier) -> bool {
        true
    }

    open spec fn add_spec(self, rhs: Modifier) -> ModifierList {
        self
    }
}

impl Add<Modifier> for ModifierList {
    type Output = ModifierList;

    fn add(self, rhs: Modifier) -> (sum: ModifierList)
        ensures
            sum@ == with_modifier(self@, rhs),
    {
        let mut sum = self;
        if !holds(&sum.0, rhs) {
            sum.0.push(rhs);
        }
        sum
    }
}

impl AddAssign<Modifier> for ModifierList {
    fn add_assign(&mut self, rhs: Modifier)
        ensures
            final(self)@ == with_modifier(old(self)@, rhs),
    {
        if !holds(&self.0, rhs) {
            self.0.push(rhs);
        }
    }
}

impl PartialEqSpecImpl for ModifierList {
    open spec fn obeys_eq_spec() -> bool {
        true
    }

    open spec fn eq_spec(&self, other: &ModifierList) -> bool {
        same_members(self@, other@)
    }
}

impl PartialEq for ModifierList {
    fn eq(&self, other: &ModifierList) -> (equal: bool) {
        holds_all(&self.0, other.0.as_slice())
    }
}

impl PartialEqSpecImpl<usize> for ModifierList {
    open spec fn obeys_eq_spec() -> bool {
        true
    }

    open spec fn eq_spec(&self, other: &usize) -> bool {
        mask_of(self@) == *other
    }
}

impl PartialEq<usize> for ModifierList {
    fn eq(&self, other: &usize) -> (equal: bool) {
        self.mask() == *other
    }
}

impl PartialEqSpecImpl<Modifier> for ModifierList {
    open spec fn obeys_eq_spec() -> bool {
        true
    }

    open spec fn eq_spec(&self, other: &Modifier) -> bool {
        same_members(self@, seq![*other])
    }
}

impl PartialEq<Modifier> for ModifierList {
    fn eq(&self, other: &Modifier) -> (equal: bool) {
        proof {
            assert(same_members(self@, seq![*other]) == (self@.len() == 1 && self@.contains(
                *other,
            ))) by {
                assert(seq![*other][0] == *other);
            }
        }
        self.0.len() == 1 && holds(&self.0, *other)
    }
}

impl PartialEqSpecImpl<Vec<Modifier>> for ModifierList {
    open spec fn obeys_eq_spec() -> bool {
        true
    }

    open spec fn eq_spec(&self, other: &Vec<Modifier>) -> bool {
        same_members(self@, other@)
    }
}

impl PartialEq<Vec<Modifier>> for ModifierList {
    fn eq(&self, other: &Vec<Modifier>) -> (equal: bool) {
        holds_all(&self.0, other.as_slice())
    }
}

impl<const N: usize> PartialEqSpecImpl<[Modifier; N]> for ModifierList {
    open spec fn obeys_eq_spec() -> bool {
        true
    }

    open spec fn eq_spec(&self, other: &[Modifier; N]) -> bool {
        same_members(self@, other@)
    }
}

impl<const N: usize> PartialEq<[Modifier; N]> for ModifierList {
    fn eq(&self, other: &[Modifier; N]) -> (equal: bool) {
        holds_all(&self.0, other.as_slice())
    }
}

impl FromSpecImpl<usize> for ModifierList {
    open spec fn obeys_from_spec() -> bool {
        false
    }

    open spec fn from_spec(n: usize) -> ModifierList {
        arbitrary()
    }
}

impl From<usize> for ModifierList {
    fn from(n: usize) -> (mods: ModifierList)
        ensures
            mods@ == unmask_seq(n),
    {
        ModifierList::unmask(n)
    }
}

impl FromSpecImpl<Modifier> for ModifierList {
    open spec fn obeys_from_spec() -> bool {
        false
    }

    open spec fn from_spec(m: Modifier) -> ModifierList {
        arbitrary()
    }
}

impl From<Modifier> for ModifierList {
    fn from(m: Modifier) -> (mods: ModifierList)
        ensures
            mods@ == seq![m],
    {
        let mut list: Vec<Modifier> = Vec::new();
        list.push(m);
        ModifierList(list)
    }
}

impl FromSpecImpl<Vec<Modifier>> for ModifierList {
    open spec fn obeys_from_spec() -> bool {
        true
    }

    open spec fn from_spec(mods: Vec<Modifier>) -> ModifierList {
        ModifierList(mods)
    }
}

impl From<Vec<Modifier>> for ModifierList {
    fn from(mods: Vec<Modifier>) -> (list: ModifierList) {
        ModifierList(mods)
    }
}

impl<const N: usize> FromSpecImpl<[Modifier; N]> for ModifierList {
    open spec fn obeys_from_spec() -> bool {
        false
    }

    open spec fn from_spec(mods: [Modifier; N]) -> ModifierList {
        arbitrary()
    }
}

impl<const N: usize> From<[Modifier; N]> for ModifierList {
    fn from(mods: [Modifier; N]) -> (list: ModifierList)
        ensures
            list@ == mods@,
    {
        let mut list: Vec<Modifier> = Vec::new();
        let mut i: usize = 0;
        while i < N
            invariant
                i <= N,
                list@ == mods@.take(i as int),
            decreases N - i,
        {
            list.push(mods[i]);
            assert(mods@.take(i + 1) =~= mods@.take(i as int).push(mods@[i as int]));
            i += 1;
        }
        assert(mods@.take(N as int) =~= mods@);
        ModifierList(list)
    }
}

/// What `push_if` holds: the members it had, and `m` where `cond` holds.
proof fn lemma_push_if(mods: Seq<Modifier>, cond: bool, m: Modifier)
    ensures
        forall|x: Modifier|
            #[trigger] push_if(mods, cond, m).contains(x) <==> mods.contains(x) || (cond && x
                == m),
        mods.no_duplicates() && !mods.contains(m) ==> push_if(mods, cond, m).no_duplicates(),
{
    let out = push_if(mods, cond, m);
    if cond {
        assert(out[mods.len() as int] == m);
        assert forall|x: Modifier| mods.contains(x) implies out.contains(x) by {
            let i = choose|i: int| 0 <= i < mods.len() && mods[i] == x;
            assert(out[i] == x);
        }
    }
}

/// A mask decodes to the modifiers whose bits it carries, each once.
pub proof fn lemma_unmask_members(mask: usize)
    ensures
        forall|m: Modifier|
            #[trigger] unmask_seq(mask).contains(m) <==> has_bit(
                mask_bits(mask),
                m.bit_value() as int,
            ),
        unmask_seq(mask).no_duplicates(),
{
    let bits = mask_bits(mask);
    let s0 = Seq::<Modifier>::empty();
    let s1 = push_if(s0, has_bit(bits, 1), Modifier::Shift);
    let s2 = push_if(s1, has_bit(bits, 2), Modifier::Alt);
    let s3 = push_if(s2, has_bit(bits, 4), Modifier::Ctrl);
    let s4 = push_if(s3, has_bit(bits, 8), Modifier::Super);
    let s5 = push_if(s4, has_bit(bits, 16), Modifier::Hyper);
    let s6 = push_if(s5, has_bit(bits, 32), Modifier::Meta);
    lemma_push_if(s0, has_bit(bits, 1), Modifier::Shift);
    lemma_push_if(s1, has_bit(bits, 2), Modifier::Alt);
    lemma_push_if(s2, has_bit(bits, 4), Modifier::Ctrl);
    lemma_push_if(s3, has_bit(bits, 8), Modifier::Super);
    lemma_push_if(s4, has_bit(bits, 16), Modifier::Hyper);
    lemma_push_if(s5, has_bit(bits, 32), Modifier::Meta);
    assert(s6 == unmask_seq(mask));
    assert forall|m: Modifier| #[trigger]
        s6.contains(m) <==> has_bit(bits, m.bit_value() as int) by {
        assert(!s0.contains(m));
    }
    assert(!s0.contains(Modifier::Shift));
}

/// Encoding what a mask decodes to gives the mask back, for every mask from
/// 1 to 64: the masks of the sets of the six modifiers.
pub proof fn lemma_mask_round_trip(mask: usize)
    requires
        1 <= mask <= 64,
    ensures
        mask_of(unmask_seq(mask)) == mask,
{
    lemma_unmask_members(mask);
    let mods = unmask_seq(mask);
    assert(mods.contains(Modifier::Shift) <==> has_bit(mask - 1, 1));
    assert(mods.contains(Modifier::Alt) <==> has_bit(mask - 1, 2));
    assert(mods.contains(Modifier::Ctrl) <==> has_bit(mask - 1, 4));
    assert(mods.contains(Modifier::Super) <==> has_bit(mask - 1, 8));
    assert(mods.contains(Modifier::Hyper) <==> has_bit(mask - 1, 16));
    assert(mods.contains(Modifier::Meta) <==> has_bit(mask - 1, 32));
}

/// Decoding the mask of a list gives the list's members back, whatever
/// their order was.
pub proof fn lemma_unmask_mask(mods: Seq<Modifier>)
    ensures
        1 <= mask_of(mods) <= 64,
        forall|m: Modifier|
            #[trigger] unmask_seq(mask_of(mods) as usize).contains(m) <==> mods.contains(m),
{
    let mask = mask_of(mods) as usize;
    lemma_unmask_members(mask);
    assert forall|m: Modifier| #[trigger]
        unmask_seq(mask).contains(m) <==> mods.contains(m) by {
        match m {
            Modifier::Shift => {},
            Modifier::Alt => {},
            Modifier::Ctrl => {},
            Modifier::Super => {},
            Modifier::Hyper => {},
            Modifier::Meta => {},
        }
    }
}

/// Adding a modifier to a list without repetitions gives a list without
/// repetitions that holds the modifier and what the list held.
pub proof fn lemma_with_modifier(mods: Seq<Modifier>, m: Modifier)
    requires
        mods.no_duplicates(),
    ensures
        with_modifier(mods, m).no_duplicates(),
        forall|x: Modifier| #[trigger]
            with_modifier(mods, m).contains(x) <==> mods.contains(x) || x == m,
{
    lemma_push_if(mods, !mods.contains(m), m);
    assert(with_modifier(mods, m) == push_if(mods, !mods.contains(m), m));
}

/// Two lists without repetitions are equal exactly when they hold the same
/// modifiers: the order in which the modifiers were added does not count.
pub proof fn lemma_equality_ignores_order(a: Seq<Modifier>, b: Seq<Modifier>)
    requires
        a.no_duplicates(),
        b.no_duplicates(),
    ensures
        same_members(a, b) <==> a.to_set() == b.to_set(),
        same_members(a, b) <==> same_members(b, a),
{
    a.unique_seq_to_set();
    b.unique_seq_to_set();
    if a.to_set() == b.to_set() {
        assert forall|i: int| 0 <= i < b.len() implies a.contains(#[trigger] b[i]) by {
            assert(b.to_set().contains(b[i]));
        }
        assert forall|i: int| 0 <= i < a.len() implies b.contains(#[trigger] a[i]) by {
            assert(a.to_set().contains(a[i]));
        }
    }
    if same_members(a, b) {
        assert forall|m: Modifier| b.to_set().contains(m) implies a.to_set().contains(m) by {
            let i = choose|i: int| 0 <= i < b.len() && b[i] == m;
            assert(a.contains(b[i]));
        }
        assert(b.to_set().subset_of(a.to_set()));
        vstd::set_lib::lemma_subset_equality(b.to_set(), a.to_set());
        assert(a.to_set() == b.to_set());
    }
    if same_members(b, a) {
        assert forall|m: Modifier| a.to_set().contains(m) implies b.to_set().contains(m) by {
            let i = choose|i: int| 0 <= i < a.len() && a[i] == m;
            assert(b.contains(a[i]));
        }
        assert(a.to_set().subset_of(b.to_set()));
        vstd::set_lib::lemma_subset_equality(a.to_set(), b.to_set());
        assert(a.to_set() == b.to_set());
    }
}

} // verus!
