//! The store that records, per byte offset, which annotated ranges begin
//! and end there.
//!
//! A range is registered by its first byte and its length.  The store keeps
//! no list of ranges: it appends the range's opening marker to the slot of
//! its first byte and a closing marker to the slot of its last byte.  A
//! renderer walks the file, opens a span for each opening marker and closes
//! as many spans as it finds closing markers.  That only comes out right
//! where every two ranges are nested or apart, and where of two nested ones
//! the outer was registered first; the store leaves both to its callers.

use crate::elf::range_type::RangeKind;
use crate::elf::range_type::RangeType;
use vstd::prelude::*;

verus! {

/// Why a range was not registered.
#[derive(Clone, Copy, Debug, PartialEq, Eq)]
pub enum RangeError {
    /// The range has no bytes.
    EmptyRange,
    /// The range's last byte lies past the end of the store.
    OutOfBounds,
}

/// Per byte offset of a file, the markers of the ranges that begin or end
/// there, in the order in which they were registered.
pub struct Ranges {
    pub data: Vec<Vec<RangeType>>,
}

impl View for Ranges {
    type V = Seq<Seq<RangeKind>>;

    open spec fn view(&self) -> Seq<Seq<RangeKind>> {
        self.data.deep_view()
    }
}

/// A store of `capacity` slots with no marker in any.
pub open spec fn empty_slots(capacity: nat) -> Seq<Seq<RangeKind>> {
    Seq::new(capacity, |offset: int| Seq::<RangeKind>::empty())
}

/// Whether `length` bytes from `start` on are at least one byte and lie
/// inside a store of `capacity` slots.
pub open spec fn valid_range(capacity: nat, start: int, length: int) -> bool {
    0 <= start && 1 <= length && start + length - 1 < capacity
}

/// The slots after a range is registered: `kind` is appended at `start`,
/// then a closing marker at the range's last byte.
pub open spec fn register(
    slots: Seq<Seq<RangeKind>>,
    start: int,
    length: int,
    kind: RangeKind,
) -> Seq<Seq<RangeKind>> {
    let opened = slots.update(start, slots[start].push(kind));
    opened.update(start + length - 1, opened[start + length - 1].push(RangeKind::End))
}

/// How many closing markers a slot holds.
pub open spec fn count_ends(slot: Seq<RangeKind>) -> nat {
    slot.filter(|kind: RangeKind| kind is End).len()
}

/// How many opening markers a slot holds.
pub open spec fn count_opens(slot: Seq<RangeKind>) -> nat {
    slot.filter(|kind: RangeKind| !(kind is End)).len()
}

impl Ranges {
    /// A store of `capacity` slots, all empty.  The capacity is the length
    /// of the file whose ranges the store is to hold.
    pub fn new(capacity: usize) -> (ranges: Ranges)
        ensures
            ranges@ == empty_slots(capacity as nat),
    {
        let mut data: Vec<Vec<RangeType>> = Vec::new();
        let mut i: usize = 0;
        while i < capacity
            invariant
                i <= capacity,
                data@.len() == i,
                forall|k: int| 0 <= k < i ==> (#[trigger] data@[k])@.len() == 0,
            decreases capacity - i,
        {
            data.push(Vec::new());
            i = i + 1;
        }
        let ranges = Ranges { data };
        assert(ranges@ =~~= empty_slots(capacity as nat));
        ranges
    }

    /// Registers the range of `length` bytes that starts at `start`: appends
    /// `range_type` to the slot of its first byte, then a closing marker to
    /// the slot of its last byte.  A range without bytes, or one that does
    /// not end inside the store, is refused and the store left as it was.
    pub fn add_range(&mut self, start: usize, length: usize, range_type: RangeType) -> (r: Result<
        (),
        RangeError,
    >)
        ensures
            final(self)@.len() == old(self)@.len(),
            match r {
                Ok(()) => {
                    &&& valid_range(old(self)@.len(), start as int, length as int)
                    &&& final(self)@ == register(
                        old(self)@,
                        start as int,
                        length as int,
                        range_type@,
                    )
                },
                Err(RangeError::EmptyRange) => length == 0 && *final(self) == *old(self),
                Err(RangeError::OutOfBounds) => {
                    &&& length >= 1
                    &&& start + length - 1 >= old(self)@.len()
                    &&& *final(self) == *old(self)
                },
            },
    {
        if length == 0 {
            return Err(RangeError::EmptyRange);
        }
        let capacity = self.data.len();
        if start >= capacity || length - 1 >= capacity - start {
            return Err(RangeError::OutOfBounds);
        }
        let end: usize = start + (length - 1);
        self.data[start].push(range_type);
        self.data[end].push(RangeType::End);
        assert(self@ =~~= register(old(self)@, start as int, length as int, range_type@));
        Ok(())
    }

    /// How many ranges end at `point`: the closing markers in its slot.
    pub fn lookup_range_ends(&self, point: usize) -> (count: usize)
        requires
            point < self@.len(),
        ensures
            count == count_ends(self@[point as int]),
    {
        let slot = &self.data[point];
        let ghost kinds = self@[point as int];
        let mut count: usize = 0;
        let mut i: usize = 0;
        while i < slot.len()
            invariant
                i <= slot@.len(),
                kinds == slot.deep_view(),
                count <= i,
                count == count_ends(kinds.take(i as int)),
            decreases slot@.len() - i,
        {
            proof {
                assert(kinds.take(i + 1) =~= kinds.take(i as int).push(kinds[i as int]));
                lemma_count_push(kinds.take(i as int), kinds[i as int]);
            }
            match slot[i] {
                RangeType::End => {
                    count = count + 1;
                },
                _ => {},
            }
            i = i + 1;
        }
        assert(kinds.take(i as int) =~= kinds);
        count
    }
}

/// A marker appended to a slot is counted once, as a closing marker or as
/// an opening one.
pub proof fn lemma_count_push(slot: Seq<RangeKind>, kind: RangeKind)
    ensures
        count_ends(slot.push(kind)) == count_ends(slot) + if kind is End {
            1nat
        } else {
            0nat
        },
        count_opens(slot.push(kind)) == count_opens(slot) + if kind is End {
            0nat
        } else {
            1nat
        },
{
    reveal(Seq::filter);
    assert(slot.push(kind).drop_last() =~= slot);
}

/// Registering a range that opens with anything but a closing marker adds
/// one closing marker at the range's last byte and none at any other
/// offset, the earlier bytes of the range among them: a lookup at the last
/// byte counts one more than before, a lookup anywhere else what it counted
/// before.
pub proof fn lemma_register_ends(
    slots: Seq<Seq<RangeKind>>,
    start: int,
    length: int,
    kind: RangeKind,
)
    requires
        valid_range(slots.len(), start, length),
        !(kind is End),
    ensures
        register(slots, start, length, kind).len() == slots.len(),
        count_ends(register(slots, start, length, kind)[start + length - 1]) == count_ends(
            slots[start + length - 1],
        ) + 1,
        forall|p: int|
            0 <= p < slots.len() && p != start + length - 1 ==> count_ends(
                #[trigger] register(slots, start, length, kind)[p],
            ) == count_ends(slots[p]),
{
    let opened = slots.update(start, slots[start].push(kind));
    lemma_count_push(slots[start], kind);
    lemma_count_push(opened[start + length - 1], RangeKind::End);
}

/// Registering a range that opens with anything but a closing marker adds
/// one opening marker at the range's first byte and none at any other
/// offset.
pub proof fn lemma_register_opens(
    slots: Seq<Seq<RangeKind>>,
    start: int,
    length: int,
    kind: RangeKind,
)
    requires
        valid_range(slots.len(), start, length),
        !(kind is End),
    ensures
        count_opens(register(slots, start, length, kind)[start]) == count_opens(slots[start]) + 1,
        forall|p: int|
            0 <= p < slots.len() && p != start ==> count_opens(
                #[trigger] register(slots, start, length, kind)[p],
            ) == count_opens(slots[p]),
{
    let opened = slots.update(start, slots[start].push(kind));
    lemma_count_push(slots[start], kind);
    lemma_count_push(opened[start + length - 1], RangeKind::End);
}

/// A range to register: where it starts, how many bytes it covers and the
/// marker that opens it.
pub struct Span {
    pub start: int,
    pub length: int,
    pub kind: RangeKind,
}

impl Span {
    /// The offset of the range's last byte.
    pub open spec fn last(self) -> int {
        self.start + self.length - 1
    }

    /// Whether every byte of `inner` is a byte of this range.
    pub open spec fn covers(self, inner: Span) -> bool {
        self.start <= inner.start && inner.last() <= self.last()
    }

    /// Whether this range and `other` share no byte.
    pub open spec fn apart_from(self, other: Span) -> bool {
        self.last() < other.start || other.last() < self.start
    }
}

/// Whether every one of `spans` lies inside a store of `capacity` slots and
/// opens with something other than a closing marker.
pub open spec fn spans_valid(capacity: nat, spans: Seq<Span>) -> bool {
    forall|i: int|
        0 <= i < spans.len() ==> valid_range(capacity, (#[trigger] spans[i]).start, spans[i].length)
            && !(spans[i].kind is End)
}

/// Whether `spans` can be rendered by counting closing markers: of any two
/// ranges, the one that was registered first covers the other, or the two
/// share no byte.
pub open spec fn well_nested(spans: Seq<Span>) -> bool {
    forall|i: int, j: int|
        #![trigger spans[i], spans[j]]
        0 <= i < j < spans.len() ==> spans[i].covers(spans[j]) || spans[i].apart_from(spans[j])
}

/// The slots after `spans` are registered one after the other.
pub open spec fn register_all(slots: Seq<Seq<RangeKind>>, spans: Seq<Span>) -> Seq<Seq<RangeKind>>
    decreases spans.len(),
{
    if spans.len() == 0 {
        slots
    } else {
        let span = spans.last();
        register(register_all(slots, spans.drop_last()), span.start, span.length, span.kind)
    }
}

/// Registering the first `k + 1` of `spans` is registering the first `k`
/// and then the next one.
pub proof fn lemma_register_next(slots: Seq<Seq<RangeKind>>, spans: Seq<Span>, k: int)
    requires
        0 <= k < spans.len(),
    ensures
        register_all(slots, spans.take(k + 1)) == register(
            register_all(slots, spans.take(k)),
            spans[k].start,
            spans[k].length,
            spans[k].kind,
        ),
{
    assert(spans.take(k + 1).drop_last() =~= spans.take(k));
}

/// Registering one list of ranges and then another is registering the two
/// lists joined.
pub proof fn lemma_register_all_concat(
    slots: Seq<Seq<RangeKind>>,
    first: Seq<Span>,
    second: Seq<Span>,
)
    ensures
        register_all(register_all(slots, first), second) == register_all(slots, first + second),
    decreases second.len(),
{
    if second.len() == 0 {
        assert(first + second =~= first);
    } else {
        assert((first + second).drop_last() =~= first + second.drop_last());
        lemma_register_all_concat(slots, first, second.drop_last());
    }
}

/// Every registered range has its opening marker at its first byte and
/// exactly one closing marker at its last byte: after `spans` are
/// registered, each offset has gained as many closing markers as there are
/// ranges that end there, and as many opening markers as there are ranges
/// that start there.
pub proof fn lemma_registered_markers(slots: Seq<Seq<RangeKind>>, spans: Seq<Span>, p: int)
    requires
        spans_valid(slots.len(), spans),
        0 <= p < slots.len(),
    ensures
        register_all(slots, spans).len() == slots.len(),
        count_ends(register_all(slots, spans)[p]) == count_ends(slots[p]) + spans.filter(
            |span: Span| span.last() == p,
        ).len(),
        count_opens(register_all(slots, spans)[p]) == count_opens(slots[p]) + spans.filter(
            |span: Span| span.start == p,
        ).len(),
    decreases spans.len(),
{
    reveal(Seq::filter);
    if spans.len() > 0 {
        let span = spans.last();
        let before = register_all(slots, spans.drop_last());
        assert(spans_valid(slots.len(), spans.drop_last()));
        lemma_registered_markers(slots, spans.drop_last(), p);
        lemma_register_ends(before, span.start, span.length, span.kind);
        lemma_register_opens(before, span.start, span.length, span.kind);
    }
}

} // verus!
