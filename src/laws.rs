//! Properties of finished documents, stated over the specifications of
//! `Pdf::render_page` and `Pdf::finish_with_date`.

use vstd::prelude::*;
use vstd::string::StringSliceAdditionalSpecFns;
use crate::bytes::dec;
use crate::document::{document_objects, document_size, finished_document};
use crate::page::{content_objects, content_prefix, length_body, stream_body};
use crate::store::{has_header_at, obj_header, object};
use crate::trailer::{
    finished_layout, outline_item_id, outline_next, outline_prev, outline_root_body, xref_section,
    trailer,
};

verus! {

/// The cross-reference section of a finished document has one record for
/// each object ID below its size, and every record but the first (the null
/// object) holds an offset strictly below the section's own start, the
/// `startxref` value of the trailer.
pub proof fn lemma_xref_precedes_startxref(
    b: Seq<u8>,
    pages: Seq<usize>,
    info: Seq<Option<Seq<u8>>>,
    now: Option<Seq<u8>>,
    outline: Seq<(Seq<u8>, usize)>,
    n: nat,
    r: Seq<u8>,
)
    requires
        finished_document(b, pages, info, now, outline, n, r),
    ensures
        ({
            let pre = document_objects(b, pages, info, now, outline, n);
            let size = document_size(info, outline, n);
            exists|offs: Seq<Option<usize>>|
                {
                    &&& offs.len() == size
                    &&& r == pre + xref_section(offs) + trailer(
                        size,
                        crate::document::info_object_id(info, n),
                        pre.len(),
                    )
                    &&& forall|id: int|
                        1 <= id < size ==> (#[trigger] offs[id]).is_some() && offs[id].unwrap()
                            < pre.len()
                }
        }),
{
    let pre = document_objects(b, pages, info, now, outline, n);
    let size = document_size(info, outline, n);
    let offs = choose|offs: Seq<Option<usize>>|
        finished_layout(pre, offs, size) && r == pre + xref_section(offs) + trailer(
            size,
            crate::document::info_object_id(info, n),
            pre.len(),
        );
    assert forall|id: int| 1 <= id < size implies (#[trigger] offs[id]).is_some()
        && offs[id].unwrap() < pre.len() by {
        assert(has_header_at(pre, offs[id].unwrap() as int, id as nat));
        assert(obj_header(id as nat).len() > 0) by {
            reveal_strlit(" 0 obj\n");
        }
    }
}

/// In a finished document, the bytes at the recorded offset of every object
/// ID from 1 up are that object's header, `<id> 0 obj`.
pub proof fn lemma_offsets_point_at_headers(
    b: Seq<u8>,
    pages: Seq<usize>,
    info: Seq<Option<Seq<u8>>>,
    now: Option<Seq<u8>>,
    outline: Seq<(Seq<u8>, usize)>,
    n: nat,
    r: Seq<u8>,
)
    requires
        finished_document(b, pages, info, now, outline, n, r),
    ensures
        ({
            let pre = document_objects(b, pages, info, now, outline, n);
            let size = document_size(info, outline, n);
            exists|offs: Seq<Option<usize>>|
                {
                    &&& offs.len() == size
                    &&& r == pre + xref_section(offs) + trailer(
                        size,
                        crate::document::info_object_id(info, n),
                        pre.len(),
                    )
                    &&& forall|id: int|
                        1 <= id < size ==> (#[trigger] offs[id]).is_some() && has_header_at(
                            r,
                            offs[id].unwrap() as int,
                            id as nat,
                        )
                }
        }),
{
    let pre = document_objects(b, pages, info, now, outline, n);
    let size = document_size(info, outline, n);
    let offs = choose|offs: Seq<Option<usize>>|
        finished_layout(pre, offs, size) && r == pre + xref_section(offs) + trailer(
            size,
            crate::document::info_object_id(info, n),
            pre.len(),
        );
    let rest = xref_section(offs) + trailer(size, crate::document::info_object_id(info, n), pre.len());
    assert(r =~= pre + rest);
    assert forall|id: int| 1 <= id < size implies (#[trigger] offs[id]).is_some() && has_header_at(
        r,
        offs[id].unwrap() as int,
        id as nat,
    ) by {
        let off = offs[id].unwrap() as int;
        let e = off + obj_header(id as nat).len();
        assert(has_header_at(pre, off, id as nat));
        assert(r.subrange(off, e) =~= pre.subrange(off, e));
    }
}

/// A page's content stream, object `c`, declares its length by a reference
/// to object `c + 1`, and that object holds exactly the number of bytes
/// between the stream's `stream` and `endstream` lines.
pub proof fn lemma_two_pass_length(c: nat, page_content: Seq<u8>)
    ensures
        ({
            let k = content_prefix() + page_content;
            &&& content_objects(c, page_content) == object(c, stream_body(c + 1, k)) + object(
                c + 1,
                length_body(k.len()),
            )
            &&& stream_body(c + 1, k) == "<< /Length ".spec_bytes() + dec(c + 1)
                + " 0 R >>\nstream\n".spec_bytes() + k + "endstream\n".spec_bytes()
            &&& length_body(k.len()) == dec(k.len()) + "\n".spec_bytes()
        }),
{
}

/// The outline entries under root `root` form a chain: the first has no
/// previous entry, the last no next one, every other entry links to the
/// IDs of its neighbours, and the root names the first and last entries.
pub proof fn lemma_outline_chain(root: nat, m: nat)
    requires
        m > 0,
    ensures
        outline_prev(root, 0) is None,
        outline_next(root, m, (m - 1) as nat) is None,
        forall|i: nat| 0 < i < m ==> outline_prev(root, i) == Some(outline_item_id(root, (i - 1) as nat)),
        forall|i: nat| i + 1 < m ==> outline_next(root, m, i) == Some(outline_item_id(root, i + 1)),
        forall|i: nat, j: nat| i < j < m ==> outline_item_id(root, i) < outline_item_id(root, j),
        outline_item_id(root, 0) == root + 1,
        outline_root_body(root, m) == "<< /Type /Outlines\n   /First ".spec_bytes() + dec(
            outline_item_id(root, 0),
        ) + " 0 R\n   /Last ".spec_bytes() + dec(outline_item_id(root, (m - 1) as nat))
            + " 0 R\n   /Count ".spec_bytes() + dec(m) + "\n>>\n".spec_bytes(),
{
}

} // verus!
