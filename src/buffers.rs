//! Ownership of the buffers handed back to the host.
//!
//! Each buffer is issued under a fresh non-zero handle and stays owned by
//! the table until the host releases it. Handles are never reused, so a
//! second release of a handle, or the release of one never issued, is
//! told apart from a correct release and refused.
use vstd::prelude::*;

verus! {

/// The handle that stands for "no buffer": the failure signal of a read.
pub const NULL_HANDLE: usize = 0;

/// `h` names a buffer of `v` that has not been released yet. Handle `h`
/// names slot `h - 1`.
pub open spec fn is_live(v: Seq<Option<Seq<u8>>>, h: int) -> bool {
    1 <= h <= v.len() && v[h - 1] is Some
}

/// The slots after a release of `h`: a live buffer is dropped, anything
/// else leaves the slots as they were.
pub open spec fn after_release(v: Seq<Option<Seq<u8>>>, h: int) -> Seq<Option<Seq<u8>>> {
    if is_live(v, h) {
        v.update(h - 1, None)
    } else {
        v
    }
}

/// The buffers issued to the host, by handle.
pub struct BufferTable {
    slots: Vec<Option<Vec<u8>>>,
}

impl View for BufferTable {
    /// One entry per handle ever issued: the bytes while the buffer is
    /// live, `None` once it has been released.
    type V = Seq<Option<Seq<u8>>>;

    closed spec fn view(&self) -> Seq<Option<Seq<u8>>> {
        Seq::new(
            self.slots@.len(),
            |i: int|
                match self.slots@[i] {
                    Some(b) => Some(b@),
                    None => None,
                },
        )
    }
}

impl BufferTable {
    /// A table that has issued nothing.
    pub fn new() -> (r: BufferTable)
        ensures
            r@ == Seq::<Option<Seq<u8>>>::empty(),
    {
        let r = BufferTable { slots: Vec::new() };
        assert(r@ =~= Seq::<Option<Seq<u8>>>::empty());
        r
    }

    /// How many handles have been issued, released ones included.
    pub fn issued(&self) -> (n: usize)
        ensures
            n == self@.len(),
    {
        self.slots.len()
    }

    /// Takes ownership of `buf` and returns the handle the host will
    /// release it by.
    pub fn issue(&mut self, buf: Vec<u8>) -> (h: usize)
        requires
            old(self)@.len() < usize::MAX,
        ensures
            h == old(self)@.len() + 1,
            h != NULL_HANDLE,
            final(self)@ == old(self)@.push(Some(buf@)),
    {
        proof {
            assert(self.slots@.len() == self@.len());
        }
        let ghost prev = self@;
        let ghost bytes = buf@;
        self.slots.push(Some(buf));
        let h = self.slots.len();
        assert(self@ =~= prev.push(Some(bytes)));
        h
    }

    /// Releases the buffer named by `h`. Returns false, and changes
    /// nothing, when `h` is not live: never issued or already released.
    pub fn release_buffer(&mut self, h: usize) -> (r: bool)
        ensures
            r == is_live(old(self)@, h as int),
            final(self)@ == after_release(old(self)@, h as int),
    {
        proof {
            assert(self.slots@.len() == self@.len());
        }
        if h == NULL_HANDLE || h > self.slots.len() {
            return false;
        }
        let i = h - 1;
        if self.slots[i].is_none() {
            return false;
        }
        let ghost prev = self@;
        self.slots[i] = None;
        assert(self@ =~= prev.update(i as int, None));
        true
    }

    /// The bytes of the live buffer named by `h`, or `None`.
    pub fn contents(&self, h: usize) -> (r: Option<&Vec<u8>>)
        ensures
            r is Some <==> is_live(self@, h as int),
            r matches Some(b) ==> self@[h - 1] == Some(b@),
    {
        proof {
            assert(self.slots@.len() == self@.len());
        }
        if h == NULL_HANDLE || h > self.slots.len() {
            return None;
        }
        match &self.slots[h - 1] {
            Some(b) => Some(b),
            None => None,
        }
    }
}

/// A buffer just issued can be released once; releasing it again is
/// refused, a handle that was never issued is refused, and a release
/// leaves every other handle as it was.
pub proof fn lemma_release_exactly_once(v: Seq<Option<Seq<u8>>>, buf: Seq<u8>)
    ensures
        ({
            let w = v.push(Some(buf));
            let h = v.len() + 1int;
            &&& is_live(w, h)
            &&& !is_live(after_release(w, h), h)
            &&& after_release(after_release(w, h), h) == after_release(w, h)
            &&& forall|k: int| (k < 1 || k > w.len()) ==> !is_live(w, k)
            &&& forall|k: int| k != h ==> is_live(after_release(w, h), k) == is_live(w, k)
        }),
{
}

} // verus!
