use vstd::prelude::*;

verus! {

/// An object in the TLS wire format.
pub trait Object {
    /// The minimum and maximum size in bytes of the object.
    spec fn spec_size() -> (nat, nat);

    /// Returns the minimum and maximum size in bytes of the
    /// object.
    fn size() -> (r: Size)
        ensures
            r@ == Self::spec_size(),
    ;
}

/// The size of an object.
#[derive(Copy, Clone, Debug)]
pub struct Size {
    min: usize,
    max: usize,
}

impl View for Size {
    type V = (nat, nat);

    closed spec fn view(&self) -> (nat, nat) {
        (self.min as nat, self.max as nat)
    }
}

/// The sum of the lower bounds and of the upper bounds of a list of
/// sizes.
pub open spec fn spec_sum(sizes: Seq<(nat, nat)>) -> (nat, nat)
    decreases sizes.len(),
{
    if sizes.len() == 0 {
        (0, 0)
    } else {
        let s = spec_sum(sizes.drop_last());
        (s.0 + sizes.last().0, s.1 + sizes.last().1)
    }
}

/// The views of a slice of sizes.
pub open spec fn size_views(sizes: Seq<Size>) -> Seq<(nat, nat)> {
    sizes.map_values(|s: Size| s@)
}

/// A size is well formed when its lower bound does not exceed its
/// upper bound.
pub open spec fn size_wf(s: (nat, nat)) -> bool {
    s.0 <= s.1
}

/// Every size in the list is well formed and the sum of the upper
/// bounds fits in a `usize`.
pub open spec fn sizes_summable(sizes: Seq<(nat, nat)>) -> bool {
    &&& forall|i: int| 0 <= i < sizes.len() ==> size_wf(#[trigger] sizes[i])
    &&& spec_sum(sizes).1 <= usize::MAX
}

impl Size {
    /// The lower bound never exceeds the upper bound.
    #[verifier::type_invariant]
    spec fn bounds_in_order(self) -> bool {
        self.min <= self.max
    }

    /// Returns the zero value.
    pub fn zero() -> (r: Self)
        ensures
            r@ == (0nat, 0nat),
    {
        Self::new(0, 0)
    }

    /// Creates a `Size`.
    pub fn new(min: usize, max: usize) -> (r: Self)
        requires
            min <= max,
        ensures
            r@ == (min as nat, max as nat),
    {
        Self { min, max }
    }

    /// Returns `Some(size)` if the size is fixed.
    pub fn fixed(self) -> (r: Option<usize>)
        ensures
            r is Some <==> self@.0 == self@.1,
            r matches Some(x) ==> x == self@.0,
    {
        if self.is_fixed() {
            Some(self.min)
        } else {
            None
        }
    }

    /// Reports whether the size is fixed.
    pub fn is_fixed(self) -> (r: bool)
        ensures
            r == (self@.0 == self@.1),
    {
        self.min == self.max
    }

    /// Returns the lower bound.
    pub fn min(self) -> (r: usize)
        ensures
            r == self@.0,
            size_wf(self@),
    {
        proof {
            use_type_invariant(&self);
        }
        self.min
    }

    /// Returns the upper bound.
    pub fn max(self) -> (r: usize)
        ensures
            r == self@.1,
            size_wf(self@),
    {
        proof {
            use_type_invariant(&self);
        }
        self.max
    }

    /// Returns the sum of the sizes.
    pub fn sum(sizes: &[Self]) -> (r: Self)
        requires
            sizes_summable(size_views(sizes@)),
        ensures
            r@ == spec_sum(size_views(sizes@)),
    {
        let ghost views = size_views(sizes@);
        let mut sum = Self::zero();
        let mut i: usize = 0;
        while i < sizes.len()
            invariant
                i <= sizes@.len(),
                views == size_views(sizes@),
                sizes_summable(views),
                sum@ == spec_sum(views.take(i as int)),
            decreases sizes@.len() - i,
        {
            proof {
                assert(views.take(i + 1).drop_last() =~= views.take(i as int));
                lemma_sum_prefix_bounded(views, i as int + 1);
                lemma_sum_prefix_wf(views, i as int);
                assert(size_wf(views[i as int]));
            }
            sum = sum.add(sizes[i]);
            i += 1;
        }
        proof {
            assert(views.take(sizes@.len() as int) =~= views);
        }
        sum
    }

    /// Returns `self + other`.
    pub fn add(self, other: Self) -> (r: Self)
        requires
            self@.1 + other@.1 <= usize::MAX,
        ensures
            r@ == (self@.0 + other@.0, self@.1 + other@.1),
    {
        proof {
            use_type_invariant(&self);
            use_type_invariant(&other);
        }
        Self::new(self.min + other.min, self.max + other.max)
    }
}

/// The sum of a prefix of well-formed sizes is well formed.
pub proof fn lemma_sum_prefix_wf(sizes: Seq<(nat, nat)>, k: int)
    requires
        0 <= k <= sizes.len(),
        forall|i: int| 0 <= i < sizes.len() ==> size_wf(#[trigger] sizes[i]),
    ensures
        size_wf(spec_sum(sizes.take(k))),
    decreases k,
{
    if k > 0 {
        assert(sizes.take(k).drop_last() =~= sizes.take(k - 1));
        lemma_sum_prefix_wf(sizes, k - 1);
        assert(size_wf(sizes[k - 1]));
    }
}

/// The sums of a prefix of a list of sizes are bounded by the sums of
/// the whole list.
pub proof fn lemma_sum_prefix_bounded(sizes: Seq<(nat, nat)>, k: int)
    requires
        0 <= k <= sizes.len(),
    ensures
        spec_sum(sizes.take(k)).0 <= spec_sum(sizes).0,
        spec_sum(sizes.take(k)).1 <= spec_sum(sizes).1,
    decreases sizes.len() - k,
{
    if k < sizes.len() {
        lemma_sum_prefix_bounded(sizes, k + 1);
        assert(sizes.take(k + 1).drop_last() =~= sizes.take(k));
    } else {
        assert(sizes.take(k) =~= sizes);
    }
}

/// Taking one size out of a list takes it out of the sum.
pub proof fn lemma_sum_remove(sizes: Seq<(nat, nat)>, j: int)
    requires
        0 <= j < sizes.len(),
    ensures
        spec_sum(sizes).0 == spec_sum(sizes.remove(j)).0 + sizes[j].0,
        spec_sum(sizes).1 == spec_sum(sizes.remove(j)).1 + sizes[j].1,
    decreases sizes.len(),
{
    if j == sizes.len() - 1 {
        assert(sizes.remove(j) =~= sizes.drop_last());
    } else {
        lemma_sum_remove(sizes.drop_last(), j);
        assert(sizes.remove(j).drop_last() =~= sizes.drop_last().remove(j));
        assert(sizes.remove(j).last() == sizes.last());
    }
}

/// The sum of a list of sizes does not depend on their order: two lists
/// that hold the same sizes, as often each, have the same sum.
pub proof fn lemma_sum_any_order(a: Seq<(nat, nat)>, b: Seq<(nat, nat)>)
    requires
        a.to_multiset() == b.to_multiset(),
    ensures
        spec_sum(a) == spec_sum(b),
    decreases a.len(),
{
    broadcast use vstd::seq_lib::group_to_multiset_ensures;

    if a.len() == 0 {
        assert(b.to_multiset().len() == 0);
        assert(b.len() == 0);
    } else {
        let x = a.last();
        let rest = a.drop_last();
        assert(a =~= rest.push(x));
        assert(a.to_multiset() =~= rest.to_multiset().insert(x));
        assert(b.to_multiset().count(x) > 0);
        assert(b.contains(x));
        let j = choose|j: int| 0 <= j < b.len() && b[j] == x;
        assert(b.remove(j).to_multiset() =~= b.to_multiset().remove(x));
        assert(rest.to_multiset() =~= b.remove(j).to_multiset());
        lemma_sum_any_order(rest, b.remove(j));
        lemma_sum_remove(b, j);
    }
}

impl Default for Size {
    fn default() -> (r: Self)
        ensures
            r@ == (0nat, 0nat),
    {
        Self::zero()
    }
}

impl Object for () {
    open spec fn spec_size() -> (nat, nat) {
        (0, 0)
    }

    fn size() -> (r: Size) {
        Size::zero()
    }
}

impl Object for u8 {
    open spec fn spec_size() -> (nat, nat) {
        (1, 1)
    }

    fn size() -> (r: Size) {
        let r = Size::new(1, 1);
        assert(r@ == (1nat, 1nat));
        assert(<u8 as Object>::spec_size() == (1nat, 1nat));
        r
    }
}

impl Object for u16 {
    open spec fn spec_size() -> (nat, nat) {
        (2, 2)
    }

    fn size() -> (r: Size) {
        let r = Size::new(2, 2);
        assert(r@ == (2nat, 2nat));
        assert(<u16 as Object>::spec_size() == (2nat, 2nat));
        r
    }
}

impl Object for u32 {
    open spec fn spec_size() -> (nat, nat) {
        (4, 4)
    }

    fn size() -> (r: Size) {
        let r = Size::new(4, 4);
        assert(r@ == (4nat, 4nat));
        assert(<u32 as Object>::spec_size() == (4nat, 4nat));
        r
    }
}

impl Object for u64 {
    open spec fn spec_size() -> (nat, nat) {
        (8, 8)
    }

    fn size() -> (r: Size) {
        let r = Size::new(8, 8);
        assert(r@ == (8nat, 8nat));
        assert(<u64 as Object>::spec_size() == (8nat, 8nat));
        r
    }
}

impl<const N: usize> Object for [u8; N] {
    open spec fn spec_size() -> (nat, nat) {
        (N as nat, N as nat)
    }

    fn size() -> (r: Size) {
        Size::new(N, N)
    }
}

} // verus!
