//! The object store: numbered objects appended to an in-memory output, with
//! the byte offset of each one recorded for the cross-reference table.

use vstd::prelude::*;
use vstd::string::StringSliceAdditionalSpecFns;
use crate::bytes::{dec, push_dec, push_str};

verus! {

/// The line that opens object `id`.
pub open spec fn obj_header(id: nat) -> Seq<u8> {
    dec(id) + " 0 obj\n".spec_bytes()
}

/// The line that closes every object.
pub open spec fn obj_footer() -> Seq<u8> {
    "endobj\n".spec_bytes()
}

/// Object `id` with the given content, framed by its header and footer.
pub open spec fn object(id: nat, body: Seq<u8>) -> Seq<u8> {
    obj_header(id) + body + obj_footer()
}

/// The header of object `id` stands in `b` at byte offset `off`.
pub open spec fn has_header_at(b: Seq<u8>, off: int, id: nat) -> bool {
    &&& 0 <= off
    &&& off + obj_header(id).len() <= b.len()
    &&& b.subrange(off, off + obj_header(id).len()) == obj_header(id)
}

/// Every recorded offset points at the header of the object it belongs to.
pub open spec fn offsets_ok(b: Seq<u8>, offsets: Seq<Option<usize>>) -> bool {
    forall|id: int|
        0 <= id < offsets.len() && (#[trigger] offsets[id]).is_some() ==> has_header_at(
            b,
            offsets[id].unwrap() as int,
            id as nat,
        )
}

/// Appending to the output keeps every recorded header where it was.
pub proof fn lemma_offsets_extend(b: Seq<u8>, offsets: Seq<Option<usize>>, extra: Seq<u8>)
    requires
        offsets_ok(b, offsets),
    ensures
        offsets_ok(b + extra, offsets),
{
    assert forall|id: int|
        0 <= id < offsets.len() && (#[trigger] offsets[id]).is_some() implies has_header_at(
            b + extra,
            offsets[id].unwrap() as int,
            id as nat,
        ) by {
        let off = offsets[id].unwrap() as int;
        let e = off + obj_header(id as nat).len();
        assert((b + extra).subrange(off, e) =~= b.subrange(off, e));
    }
}

/// Writing a header at the end of the output and recording its offset keeps
/// the offsets valid.
pub proof fn lemma_offsets_record(b: Seq<u8>, offsets: Seq<Option<usize>>, id: nat)
    requires
        offsets_ok(b, offsets),
        id <= offsets.len(),
        b.len() <= usize::MAX,
        id < offsets.len() ==> offsets[id as int].is_none(),
    ensures
        id == offsets.len() ==> offsets_ok(
            b + obj_header(id),
            offsets.push(Some(b.len() as usize)),
        ),
        id < offsets.len() ==> offsets_ok(
            b + obj_header(id),
            offsets.update(id as int, Some(b.len() as usize)),
        ),
{
    lemma_offsets_extend(b, offsets, obj_header(id));
    let nb = b + obj_header(id);
    assert(nb.subrange(b.len() as int, nb.len() as int) =~= obj_header(id));
    if id == offsets.len() {
        let no = offsets.push(Some(b.len() as usize));
        assert forall|j: int|
            0 <= j < no.len() && (#[trigger] no[j]).is_some() implies has_header_at(
            nb,
            no[j].unwrap() as int,
            j as nat,
        ) by {
            if j < offsets.len() {
                assert(no[j] == offsets[j]);
            }
        }
    } else {
        let no = offsets.update(id as int, Some(b.len() as usize));
        assert forall|j: int|
            0 <= j < no.len() && (#[trigger] no[j]).is_some() implies has_header_at(
            nb,
            no[j].unwrap() as int,
            j as nat,
        ) by {
            if j != id {
                assert(no[j] == offsets[j]);
            }
        }
    }
}

/// An append-only output of numbered objects.
pub struct ObjectStore {
    output: Vec<u8>,
    offsets: Vec<Option<usize>>,
}

impl ObjectStore {
    /// The bytes written so far.
    pub closed spec fn bytes(&self) -> Seq<u8> {
        self.output@
    }

    /// The offset of each allocated object: `None` until it is written.
    pub closed spec fn offsets(&self) -> Seq<Option<usize>> {
        self.offsets@
    }

    /// A store whose output starts with `prefix`, with object IDs up to
    /// `reserved` counted but not written (ID 0 is never written).
    pub fn new(prefix: &Vec<u8>, reserved: usize) -> (r: ObjectStore)
        ensures
            r.bytes() == prefix@,
            r.offsets() == Seq::new(reserved as nat, |i: int| None::<usize>),
            offsets_ok(r.bytes(), r.offsets()),
    {
        let mut output: Vec<u8> = Vec::new();
        crate::bytes::push_bytes(&mut output, prefix.as_slice());
        let mut offsets: Vec<Option<usize>> = Vec::new();
        let mut i: usize = 0;
        while i < reserved
            invariant
                i <= reserved,
                offsets@ == Seq::new(i as nat, |j: int| None::<usize>),
            decreases reserved - i,
        {
            offsets.push(None);
            i = i + 1;
            assert(offsets@ =~= Seq::new(i as nat, |j: int| None::<usize>));
        }
        assert(output@ =~= prefix@);
        ObjectStore { output, offsets }
    }

    /// The current end of the output: where the next byte goes.
    pub fn tell(&self) -> (r: usize)
        ensures
            r == self.bytes().len(),
    {
        self.output.len()
    }

    /// The number of object IDs handed out so far, ID 0 included; also the
    /// next ID to be allocated.
    pub fn count(&self) -> (r: usize)
        ensures
            r == self.offsets().len(),
    {
        self.offsets.len()
    }

    /// The recorded offset of object `id`.
    pub fn offset(&self, id: usize) -> (r: Option<usize>)
        requires
            id < self.offsets().len(),
        ensures
            r == self.offsets()[id as int],
    {
        self.offsets[id]
    }

    /// Allocates the next ID and writes its header at the end of the output,
    /// recording where it starts.
    pub fn begin_new_object(&mut self) -> (id: usize)
        requires
            offsets_ok(old(self).bytes(), old(self).offsets()),
            old(self).offsets().len() < usize::MAX,
        ensures
            id == old(self).offsets().len(),
            final(self).offsets() == old(self).offsets().push(Some(old(self).bytes().len() as usize)),
            final(self).bytes() == old(self).bytes() + obj_header(id as nat),
            offsets_ok(final(self).bytes(), final(self).offsets()),
    {
        let id = self.offsets.len();
        let off = self.output.len();
        proof {
            lemma_offsets_record(self.output@, self.offsets@, id as nat);
        }
        push_dec(&mut self.output, id as u64);
        push_str(&mut self.output, " 0 obj\n");
        self.offsets.push(Some(off));
        assert(self.output@ =~= old(self).output@ + obj_header(id as nat));
        id
    }

    /// Allocates the next ID without writing anything: it is written later
    /// with `begin_reserved_object`.
    pub fn reserve(&mut self) -> (id: usize)
        requires
            offsets_ok(old(self).bytes(), old(self).offsets()),
            old(self).offsets().len() < usize::MAX,
        ensures
            id == old(self).offsets().len(),
            final(self).offsets() == old(self).offsets().push(None),
            final(self).bytes() == old(self).bytes(),
            offsets_ok(final(self).bytes(), final(self).offsets()),
    {
        let id = self.offsets.len();
        self.offsets.push(None);
        proof {
            let o = self.offsets@;
            assert forall|j: int|
                0 <= j < o.len() && (#[trigger] o[j]).is_some() implies has_header_at(
                self.output@,
                o[j].unwrap() as int,
                j as nat,
            ) by {
                assert(o[j] == old(self).offsets@[j]);
            }
        }
        id
    }

    /// Writes the header of an ID that was counted earlier and not written
    /// yet, recording where it starts.
    pub fn begin_reserved_object(&mut self, id: usize)
        requires
            offsets_ok(old(self).bytes(), old(self).offsets()),
            id < old(self).offsets().len(),
            old(self).offsets()[id as int].is_none(),
        ensures
            final(self).offsets() == old(self).offsets().update(
                id as int,
                Some(old(self).bytes().len() as usize),
            ),
            final(self).bytes() == old(self).bytes() + obj_header(id as nat),
            offsets_ok(final(self).bytes(), final(self).offsets()),
    {
        let off = self.output.len();
        proof {
            lemma_offsets_record(self.output@, self.offsets@, id as nat);
        }
        push_dec(&mut self.output, id as u64);
        push_str(&mut self.output, " 0 obj\n");
        self.offsets.set(id, Some(off));
        assert(self.output@ =~= old(self).output@ + obj_header(id as nat));
    }

    /// Appends bytes inside the object being written.
    pub fn write_bytes(&mut self, b: &Vec<u8>)
        requires
            offsets_ok(old(self).bytes(), old(self).offsets()),
        ensures
            final(self).offsets() == old(self).offsets(),
            final(self).bytes() == old(self).bytes() + b@,
            offsets_ok(final(self).bytes(), final(self).offsets()),
    {
        proof {
            lemma_offsets_extend(self.output@, self.offsets@, b@);
        }
        crate::bytes::push_bytes(&mut self.output, b.as_slice());
    }

    /// Appends text inside the object being written.
    pub fn write_str(&mut self, s: &str)
        requires
            offsets_ok(old(self).bytes(), old(self).offsets()),
        ensures
            final(self).offsets() == old(self).offsets(),
            final(self).bytes() == old(self).bytes() + s.spec_bytes(),
            offsets_ok(final(self).bytes(), final(self).offsets()),
    {
        proof {
            lemma_offsets_extend(self.output@, self.offsets@, s.spec_bytes());
        }
        push_str(&mut self.output, s);
    }

    /// Appends a number in decimal inside the object being written.
    pub fn write_dec(&mut self, n: usize)
        requires
            offsets_ok(old(self).bytes(), old(self).offsets()),
        ensures
            final(self).offsets() == old(self).offsets(),
            final(self).bytes() == old(self).bytes() + dec(n as nat),
            offsets_ok(final(self).bytes(), final(self).offsets()),
    {
        proof {
            lemma_offsets_extend(self.output@, self.offsets@, dec(n as nat));
        }
        push_dec(&mut self.output, n as u64);
    }

    /// Closes the object being written.
    pub fn end_object(&mut self)
        requires
            offsets_ok(old(self).bytes(), old(self).offsets()),
        ensures
            final(self).offsets() == old(self).offsets(),
            final(self).bytes() == old(self).bytes() + obj_footer(),
            offsets_ok(final(self).bytes(), final(self).offsets()),
    {
        self.write_str("endobj\n");
    }

    /// The output, once nothing more is to be written.
    pub fn into_bytes(self) -> (r: Vec<u8>)
        ensures
            r@ == self.bytes(),
    {
        self.output
    }
}

} // verus!
