//! The list of a button's children.
//!
//! A button does not look into its children. It keeps, in the order in which
//! they were given, the keys under which its host holds the elements, and
//! hands that order on when it is rendered. The list is a `SmallVec`: most
//! buttons have a label, an icon, or both, and such a list never touches the
//! heap.

use vstd::prelude::*;
use smallvec::SmallVec;

verus! {

/// An ordered list of child keys, held in a `SmallVec` with room for two keys
/// in place.
///
/// The verifier does not look inside. What the list holds goes by the name
/// [`child_keys`], and what the four functions below say of that name is
/// taken from the source of `smallvec`, not proved.
#[verifier::external_body]
pub struct ChildList {
    keys: SmallVec<[u64; 2]>,
}

/// The keys that a child list holds, first to last.
pub uninterp spec fn child_keys(list: ChildList) -> Seq<u64>;

/// The most keys that a child list takes. A list grows to the next power of
/// two, and with eight bytes to a key this many keys are the largest power
/// of two that an allocation can hold where addresses are 32 bits wide.
pub const MAX_CHILDREN: usize = 0x0800_0000;

/// `SmallVec::new`: a list without keys. The call checks the layout of the
/// backing array first, which holds for an array of two `u64`.
#[verifier::external_body]
fn new_list() -> (list: ChildList)
    ensures
        child_keys(list) == Seq::<u64>::empty(),
{
    ChildList { keys: SmallVec::new() }
}

/// `SmallVec::len`: the number of keys in the list.
#[verifier::external_body]
fn list_len(list: &ChildList) -> (len: usize)
    ensures
        len == child_keys(*list).len(),
{
    list.keys.len()
}

/// `SmallVec::push`: the same keys, then `key`. Where the list is full the
/// call grows it to the next power of two above its length, and panics if
/// that many keys are more than an allocation can hold; the bound rules
/// that out. As with a `Vec`, running out of memory ends the process.
#[verifier::external_body]
fn list_push(list: &mut ChildList, key: u64)
    requires
        child_keys(*old(list)).len() < MAX_CHILDREN,
    ensures
        child_keys(*final(list)) == child_keys(*old(list)).push(key),
{
    list.keys.push(key)
}

/// `SmallVec::as_slice`: the keys of the list, in place.
#[verifier::external_body]
fn list_as_slice(list: &ChildList) -> (keys: &[u64])
    ensures
        keys@ == child_keys(*list),
{
    list.keys.as_slice()
}

impl View for ChildList {
    type V = Seq<u64>;

    open spec fn view(&self) -> Seq<u64> {
        child_keys(*self)
    }
}

impl ChildList {
    /// A list without keys.
    pub fn new() -> (list: ChildList)
        ensures
            list@ == Seq::<u64>::empty(),
    {
        new_list()
    }

    /// The number of keys in the list.
    pub fn len(&self) -> (len: usize)
        ensures
            len == self@.len(),
    {
        list_len(self)
    }

    /// Appends `keys`, in order.
    pub fn extend(&mut self, keys: &Vec<u64>)
        requires
            old(self)@.len() + keys@.len() <= MAX_CHILDREN,
        ensures
            final(self)@ == old(self)@ + keys@,
    {
        let mut i: usize = 0;
        while i < keys.len()
            invariant
                i <= keys@.len(),
                old(self)@.len() + keys@.len() <= MAX_CHILDREN,
                self@ == old(self)@ + keys@.subrange(0, i as int),
            decreases keys@.len() - i,
        {
            list_push(self, keys[i]);
            i += 1;
            assert(keys@.subrange(0, i as int) == keys@.subrange(0, i - 1).push(keys@[i - 1]));
        }
        assert(keys@.subrange(0, i as int) == keys@);
    }

    /// Copies the keys out, in order.
    pub fn to_vec(&self) -> (keys: Vec<u64>)
        ensures
            keys@ == self@,
    {
        let slice = list_as_slice(self);
        let mut keys: Vec<u64> = Vec::new();
        let mut i: usize = 0;
        while i < slice.len()
            invariant
                i <= slice@.len(),
                keys@ == slice@.subrange(0, i as int),
            decreases slice@.len() - i,
        {
            keys.push(slice[i]);
            i += 1;
        }
        assert(slice@.subrange(0, i as int) == slice@);
        keys
    }
}

} // verus!
