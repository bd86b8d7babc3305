//! The closing objects of a document and its cross-reference section.

use vstd::prelude::*;
use vstd::string::StringSliceAdditionalSpecFns;
use crate::bytes::{dec, padded10, push_dec, push_str};
use crate::document::{info_key, INFO_KEYS, PAGES_OBJECT_ID, ROOT_OBJECT_ID};
use crate::outline::{opt_ref, outline_item_body, OutlineItem};
use crate::page::extends;
use crate::store::{has_header_at, obj_header, object, offsets_ok, ObjectStore};

verus! {

/// The references to the pages, in order.
pub open spec fn kids(pages: Seq<usize>) -> Seq<u8>
    decreases pages.len(),
{
    if pages.len() == 0 {
        Seq::empty()
    } else {
        kids(pages.drop_last()) + dec(pages.last() as nat) + " 0 R ".spec_bytes()
    }
}

/// The page tree root: the number of pages and the list of them.
pub open spec fn pages_body(pages: Seq<usize>) -> Seq<u8> {
    "<< /Type /Pages\n   /Count ".spec_bytes() + dec(pages.len()) + "\n   /Kids [ ".spec_bytes()
        + kids(pages) + "]\n>>\n".spec_bytes()
}

/// One metadata entry, or nothing when it is not set.
pub open spec fn info_entry(key: Seq<u8>, value: Option<Seq<u8>>) -> Seq<u8> {
    match value {
        Some(v) => " /".spec_bytes() + key + " (".spec_bytes() + v + ")\n".spec_bytes(),
        None => Seq::empty(),
    }
}

/// The first `n` metadata entries.
pub open spec fn info_entries(info: Seq<Option<Seq<u8>>>, n: nat) -> Seq<u8>
    decreases n,
{
    if n == 0 {
        Seq::empty()
    } else {
        info_entries(info, (n - 1) as nat) + info_entry(info_key(n - 1), info[n - 1])
    }
}

/// The creation and modification dates, when a date is known.
pub open spec fn date_entries(now: Option<Seq<u8>>) -> Seq<u8> {
    match now {
        Some(d) => " /CreationDate (D:".spec_bytes() + d + ")\n /ModDate (D:".spec_bytes() + d
            + ")".spec_bytes(),
        None => Seq::empty(),
    }
}

/// The document information dictionary.
pub open spec fn info_body(info: Seq<Option<Seq<u8>>>, now: Option<Seq<u8>>) -> Seq<u8> {
    "<<".spec_bytes() + info_entries(info, INFO_KEYS as nat) + date_entries(now) + ">>\n".spec_bytes()
}

/// Some metadata entry is set.
pub open spec fn has_info(info: Seq<Option<Seq<u8>>>) -> bool {
    exists|i: int| 0 <= i < info.len() && (#[trigger] info[i]).is_some()
}

/// The object ID of outline entry `i` under the outline root `root`.
pub open spec fn outline_item_id(root: nat, i: nat) -> nat {
    root + 1 + i
}

/// The entry before entry `i`: none for the first.
pub open spec fn outline_prev(root: nat, i: nat) -> Option<nat> {
    if i == 0 {
        None
    } else {
        Some(outline_item_id(root, (i - 1) as nat))
    }
}

/// The entry after entry `i` of `m`: none for the last.
pub open spec fn outline_next(root: nat, m: nat, i: nat) -> Option<nat> {
    if i + 1 >= m {
        None
    } else {
        Some(outline_item_id(root, i + 1))
    }
}

/// The objects of the first `i` outline entries.
pub open spec fn outline_objects(items: Seq<(Seq<u8>, usize)>, root: nat, i: nat) -> Seq<u8>
    decreases i,
{
    if i == 0 {
        Seq::empty()
    } else {
        let k = (i - 1) as nat;
        outline_objects(items, root, k) + object(
            outline_item_id(root, k),
            outline_item_body(
                items[k as int].0,
                root,
                outline_prev(root, k),
                outline_next(root, items.len(), k),
                items[k as int].1 as nat,
            ),
        )
    }
}

/// The outline root: its first and last entries and their number.
pub open spec fn outline_root_body(root: nat, m: nat) -> Seq<u8> {
    "<< /Type /Outlines\n   /First ".spec_bytes() + dec(outline_item_id(root, 0))
        + " 0 R\n   /Last ".spec_bytes() + dec(outline_item_id(root, (m - 1) as nat))
        + " 0 R\n   /Count ".spec_bytes() + dec(m) + "\n>>\n".spec_bytes()
}

/// The outline: one object per entry, then the root.
pub open spec fn outline_tree(items: Seq<(Seq<u8>, usize)>, root: nat) -> Seq<u8> {
    outline_objects(items, root, items.len()) + object(root, outline_root_body(root, items.len()))
}

/// The document catalog.
pub open spec fn catalog_body(outlines: Option<nat>) -> Seq<u8> {
    "<< /Type /Catalog\n   /Pages 2 0 R\n".spec_bytes() + opt_ref(
        "/Outlines ".spec_bytes(),
        outlines,
    ) + ">>\n".spec_bytes()
}

/// The cross-reference records of objects 1 to `n - 1`.
pub open spec fn xref_lines(offs: Seq<Option<usize>>, n: nat) -> Seq<u8>
    decreases n,
{
    if n <= 1 {
        Seq::empty()
    } else {
        xref_lines(offs, (n - 1) as nat) + padded10(offs[n - 1].unwrap() as nat)
            + " 00000 n \n".spec_bytes()
    }
}

/// The cross-reference section: one record per object ID, the first one
/// for the null object.
pub open spec fn xref_section(offs: Seq<Option<usize>>) -> Seq<u8> {
    "xref\n0 ".spec_bytes() + dec(offs.len()) + "\n0000000000 65535 f \n".spec_bytes() + xref_lines(
        offs,
        offs.len(),
    )
}

/// The trailer and the pointer to the cross-reference section.
pub open spec fn trailer(size: nat, info_id: Option<nat>, startxref: nat) -> Seq<u8> {
    "trailer\n<< /Size ".spec_bytes() + dec(size) + "\n   /Root 1 0 R\n".spec_bytes() + opt_ref(
        "   /Info ".spec_bytes(),
        info_id,
    ) + ">>\nstartxref\n".spec_bytes() + dec(startxref) + "\n%%EOF\n".spec_bytes()
}

/// Every object from 1 to `size - 1` has an offset at which its header
/// stands in `pre`.
pub open spec fn finished_layout(pre: Seq<u8>, offs: Seq<Option<usize>>, size: nat) -> bool {
    &&& offs.len() == size
    &&& size >= 3
    &&& forall|id: int|
        1 <= id < size ==> (#[trigger] offs[id]).is_some() && has_header_at(
            pre,
            offs[id].unwrap() as int,
            id as nat,
        )
}

/// Writes the page tree root, object 2, listing `pages`.
#[verifier::rlimit(40)]
pub fn write_pages_root(store: &mut ObjectStore, pages: &Vec<usize>)
    requires
        offsets_ok(old(store).bytes(), old(store).offsets()),
        2 < old(store).offsets().len(),
        old(store).offsets()[2].is_none(),
    ensures
        final(store).bytes() == old(store).bytes() + object(2, pages_body(pages@)),
        final(store).offsets() == old(store).offsets().update(
            2,
            Some(old(store).bytes().len() as usize),
        ),
        offsets_ok(final(store).bytes(), final(store).offsets()),
{
    let ghost b0 = store.bytes();
    store.begin_reserved_object(PAGES_OBJECT_ID);
    let ghost b1 = store.bytes();
    store.write_str("<< /Type /Pages\n   /Count ");
    store.write_dec(pages.len());
    store.write_str("\n   /Kids [ ");
    let ghost b2 = store.bytes();
    let mut i: usize = 0;
    while i < pages.len()
        invariant
            i <= pages@.len(),
            store.bytes() == b2 + kids(pages@.subrange(0, i as int)),
            offsets_ok(store.bytes(), store.offsets()),
            store.offsets() == old(store).offsets().update(2, Some(b0.len() as usize)),
        decreases pages@.len() - i,
    {
        store.write_dec(pages[i]);
        store.write_str(" 0 R ");
        assert(pages@.subrange(0, i + 1).drop_last() =~= pages@.subrange(0, i as int));
        i = i + 1;
        assert(store.bytes() =~= b2 + kids(pages@.subrange(0, i as int)));
    }
    assert(pages@.subrange(0, pages@.len() as int) =~= pages@);
    store.write_str("]\n>>\n");
    assert(store.bytes() =~= b1 + pages_body(pages@));
    store.end_object();
    assert(store.bytes() =~= b0 + object(2, pages_body(pages@)));
}

/// The metadata values as byte sequences.
pub open spec fn info_view(info: Seq<Option<Vec<u8>>>) -> Seq<Option<Seq<u8>>> {
    info.map_values(
        |v: Option<Vec<u8>>|
            match v {
                Some(x) => Some(x@),
                None => None,
            },
    )
}

/// The bytes of an optional date string.
pub open spec fn date_bytes(now: Option<&str>) -> Option<Seq<u8>> {
    match now {
        Some(d) => Some(d.spec_bytes()),
        None => None,
    }
}

fn write_info_entries(store: &mut ObjectStore, info: &Vec<Option<Vec<u8>>>)
    requires
        offsets_ok(old(store).bytes(), old(store).offsets()),
        info@.len() == INFO_KEYS,
    ensures
        final(store).bytes() == old(store).bytes() + info_entries(
            info_view(info@),
            INFO_KEYS as nat,
        ),
        final(store).offsets() == old(store).offsets(),
        offsets_ok(final(store).bytes(), final(store).offsets()),
{
    let ghost b0 = store.bytes();
    let ghost v = info_view(info@);
    let mut i: usize = 0;
    while i < INFO_KEYS
        invariant
            i <= INFO_KEYS,
            info@.len() == INFO_KEYS,
            v == info_view(info@),
            store.bytes() == b0 + info_entries(v, i as nat),
            store.offsets() == old(store).offsets(),
            offsets_ok(store.bytes(), store.offsets()),
        decreases INFO_KEYS - i,
    {
        let ghost s = store.bytes();
        match &info[i] {
            Some(value) => {
                store.write_str(" /");
                store.write_str(crate::document::info_key_str(i));
                store.write_str(" (");
                store.write_bytes(value);
                store.write_str(")\n");
                assert(store.bytes() =~= s + info_entry(info_key(i as int), v[i as int]));
            },
            None => {
                assert(store.bytes() =~= s + info_entry(info_key(i as int), v[i as int]));
            },
        }
        i = i + 1;
    }
}

/// Writes the document information object when some metadata is set.
#[verifier::rlimit(40)]
pub fn write_info(store: &mut ObjectStore, info: &Vec<Option<Vec<u8>>>, now: Option<&str>) -> (r:
    Option<usize>)
    requires
        offsets_ok(old(store).bytes(), old(store).offsets()),
        old(store).offsets().len() < usize::MAX,
        info@.len() == INFO_KEYS,
    ensures
        has_info(info_view(info@)) ==> r == Some(old(store).offsets().len() as usize) && final(store).bytes()
            == old(store).bytes() + object(
            old(store).offsets().len() as nat,
            info_body(info_view(info@), date_bytes(now)),
        ) && final(store).offsets() == old(store).offsets().push(
            Some(old(store).bytes().len() as usize),
        ),
        !has_info(info_view(info@)) ==> r.is_none() && final(store).bytes() == old(store).bytes()
            && final(store).offsets() == old(store).offsets(),
        offsets_ok(final(store).bytes(), final(store).offsets()),
{
    let ghost v = info_view(info@);
    let mut any = false;
    let mut i: usize = 0;
    while i < INFO_KEYS
        invariant
            i <= INFO_KEYS,
            info@.len() == INFO_KEYS,
            v == info_view(info@),
            any == exists|j: int| 0 <= j < i && (#[trigger] v[j]).is_some(),
        decreases INFO_KEYS - i,
    {
        if info[i].is_some() {
            any = true;
        }
        assert(v[i as int].is_some() == info@[i as int].is_some());
        i = i + 1;
    }
    if !any {
        return None;
    }
    let ghost b0 = store.bytes();
    let id = store.begin_new_object();
    let ghost b1 = store.bytes();
    store.write_str("<<");
    write_info_entries(store, info);
    let ghost b2 = store.bytes();
    match now {
        Some(d) => {
            store.write_str(" /CreationDate (D:");
            store.write_str(d);
            store.write_str(")\n /ModDate (D:");
            store.write_str(d);
            store.write_str(")");
        },
        None => {},
    }
    assert(store.bytes() =~= b2 + date_entries(date_bytes(now)));
    store.write_str(">>\n");
    assert(store.bytes() =~= b1 + info_body(v, date_bytes(now)));
    store.end_object();
    assert(store.bytes() =~= b0 + object(id as nat, info_body(v, date_bytes(now))));
    Some(id)
}

/// Outline entries as titles and page IDs.
pub open spec fn outline_view(items: Seq<OutlineItem>) -> Seq<(Seq<u8>, usize)> {
    items.map_values(|it: OutlineItem| (it.title@, it.page.unwrap()))
}

/// Writes outline entry `i` of `m` under the root `root`, as the next
/// object; its neighbours are the objects just before and after it.
fn write_outline_entry(store: &mut ObjectStore, item: &OutlineItem, root: usize, i: usize, m: usize)
    requires
        offsets_ok(old(store).bytes(), old(store).offsets()),
        old(store).offsets().len() == root + 1 + i,
        i < m,
        root + m + 1 < usize::MAX,
        item.page.is_some(),
    ensures
        final(store).bytes() == old(store).bytes() + object(
            outline_item_id(root as nat, i as nat),
            outline_item_body(
                item.title@,
                root as nat,
                outline_prev(root as nat, i as nat),
                outline_next(root as nat, m as nat, i as nat),
                item.page.unwrap() as nat,
            ),
        ),
        final(store).offsets() == old(store).offsets().push(Some(old(store).bytes().len() as usize)),
        offsets_ok(final(store).bytes(), final(store).offsets()),
{
    let ghost s = store.bytes();
    let id = store.begin_new_object();
    let prev = if i == 0 {
        None
    } else {
        Some(id - 1)
    };
    let next = if i + 1 >= m {
        None
    } else {
        Some(id + 1)
    };
    let mut body: Vec<u8> = Vec::new();
    item.write_dictionary(&mut body, root, prev, next);
    store.write_bytes(&body);
    store.end_object();
    assert(crate::outline::opt_nat(prev) == outline_prev(root as nat, i as nat));
    assert(crate::outline::opt_nat(next) == outline_next(root as nat, m as nat, i as nat));
    assert(store.bytes() =~= s + object(
        outline_item_id(root as nat, i as nat),
        outline_item_body(
            item.title@,
            root as nat,
            outline_prev(root as nat, i as nat),
            outline_next(root as nat, m as nat, i as nat),
            item.page.unwrap() as nat,
        ),
    ));
}

/// Writes the outline root `root`, whose `m` entries were written just
/// after its ID was allocated.
fn write_outline_root(store: &mut ObjectStore, root: usize, m: usize)
    requires
        offsets_ok(old(store).bytes(), old(store).offsets()),
        root < old(store).offsets().len(),
        old(store).offsets()[root as int].is_none(),
        0 < m,
        root + m + 1 < usize::MAX,
    ensures
        final(store).bytes() == old(store).bytes() + object(
            root as nat,
            outline_root_body(root as nat, m as nat),
        ),
        final(store).offsets() == old(store).offsets().update(
            root as int,
            Some(old(store).bytes().len() as usize),
        ),
        offsets_ok(final(store).bytes(), final(store).offsets()),
{
    let ghost b0 = store.bytes();
    store.begin_reserved_object(root);
    let ghost b1 = store.bytes();
    store.write_str("<< /Type /Outlines\n   /First ");
    store.write_dec(root + 1);
    store.write_str(" 0 R\n   /Last ");
    store.write_dec(root + m);
    store.write_str(" 0 R\n   /Count ");
    store.write_dec(m);
    store.write_str("\n>>\n");
    assert(store.bytes() =~= b1 + outline_root_body(root as nat, m as nat));
    store.end_object();
    assert(store.bytes() =~= b0 + object(root as nat, outline_root_body(root as nat, m as nat)));
}

/// Writes the outline when there are entries: the root's ID is allocated
/// first, then each entry is written with links to its neighbours, whose
/// IDs follow from the order of allocation, and the root comes last.
#[verifier::rlimit(40)]
pub fn write_outlines(store: &mut ObjectStore, items: &Vec<OutlineItem>) -> (r: Option<usize>)
    requires
        offsets_ok(old(store).bytes(), old(store).offsets()),
        old(store).offsets().len() + items@.len() + 1 < usize::MAX,
        forall|i: int| 0 <= i < items@.len() ==> (#[trigger] items@[i]).page.is_some(),
    ensures
        items@.len() > 0 ==> r == Some(old(store).offsets().len() as usize) && final(store).bytes()
            == old(store).bytes() + outline_tree(
            outline_view(items@),
            old(store).offsets().len() as nat,
        ) && final(store).offsets().len() == old(store).offsets().len() + items@.len() + 1,
        items@.len() == 0 ==> r.is_none() && final(store).bytes() == old(store).bytes()
            && final(store).offsets() == old(store).offsets(),
        extends(old(store).offsets(), final(store).offsets()),
        offsets_ok(final(store).bytes(), final(store).offsets()),
{
    if items.len() == 0 {
        return None;
    }
    let ghost b0 = store.bytes();
    let ghost o0 = store.offsets();
    let ghost iv = outline_view(items@);
    let m = items.len();
    let root = store.reserve();
    let ghost b1 = store.bytes();
    let mut i: usize = 0;
    while i < m
        invariant
            m == items@.len(),
            iv == outline_view(items@),
            root == o0.len(),
            root + m + 1 < usize::MAX,
            i <= m,
            forall|k: int| 0 <= k < items@.len() ==> (#[trigger] items@[k]).page.is_some(),
            store.bytes() == b1 + outline_objects(iv, root as nat, i as nat),
            store.offsets().len() == root + 1 + i,
            forall|k: int| 0 <= k < o0.len() ==> store.offsets()[k] == o0[k],
            store.offsets()[root as int].is_none(),
            forall|k: int|
                root < k < store.offsets().len() ==> (#[trigger] store.offsets()[k]).is_some(),
            offsets_ok(store.bytes(), store.offsets()),
        decreases m - i,
    {
        let ghost s = store.bytes();
        write_outline_entry(store, &items[i], root, i, m);
        assert(iv[i as int] == (items@[i as int].title@, items@[i as int].page.unwrap()));
        assert(outline_objects(iv, root as nat, (i + 1) as nat) == outline_objects(
            iv,
            root as nat,
            i as nat,
        ) + object(
            outline_item_id(root as nat, i as nat),
            outline_item_body(
                iv[i as int].0,
                root as nat,
                outline_prev(root as nat, i as nat),
                outline_next(root as nat, iv.len(), i as nat),
                iv[i as int].1 as nat,
            ),
        ));
        assert(store.bytes() =~= b1 + outline_objects(iv, root as nat, (i + 1) as nat));
        i = i + 1;
    }
    let ghost b2 = store.bytes();
    let ghost o2 = store.offsets();
    write_outline_root(store, root, m);
    assert(store.bytes() =~= b0 + outline_tree(iv, root as nat));
    assert forall|k: int| o0.len() <= k < store.offsets().len() implies (
    #[trigger] store.offsets()[k]).is_some() by {
        if k != root {
            assert(store.offsets()[k] == o2[k]);
        }
    }
    Some(root)
}

/// Writes the document catalog, object 1, naming the outline root if any.
pub fn write_catalog(store: &mut ObjectStore, outlines: Option<usize>)
    requires
        offsets_ok(old(store).bytes(), old(store).offsets()),
        1 < old(store).offsets().len(),
        old(store).offsets()[1].is_none(),
    ensures
        final(store).bytes() == old(store).bytes() + object(
            1,
            catalog_body(crate::outline::opt_nat(outlines)),
        ),
        final(store).offsets() == old(store).offsets().update(
            1,
            Some(old(store).bytes().len() as usize),
        ),
        offsets_ok(final(store).bytes(), final(store).offsets()),
{
    let ghost b0 = store.bytes();
    store.begin_reserved_object(ROOT_OBJECT_ID);
    let ghost b1 = store.bytes();
    store.write_str("<< /Type /Catalog\n   /Pages 2 0 R\n");
    write_opt_ref(store, "/Outlines ", outlines);
    store.write_str(">>\n");
    assert(store.bytes() =~= b1 + catalog_body(crate::outline::opt_nat(outlines)));
    store.end_object();
    assert(store.bytes() =~= b0 + object(1, catalog_body(crate::outline::opt_nat(outlines))));
}

/// Writes `key` and a reference to `id`, or nothing for `None`.
fn write_opt_ref(store: &mut ObjectStore, key: &str, id: Option<usize>)
    requires
        offsets_ok(old(store).bytes(), old(store).offsets()),
    ensures
        final(store).bytes() == old(store).bytes() + opt_ref(
            key.spec_bytes(),
            crate::outline::opt_nat(id),
        ),
        final(store).offsets() == old(store).offsets(),
        offsets_ok(final(store).bytes(), final(store).offsets()),
{
    let ghost b0 = store.bytes();
    match id {
        Some(i) => {
            store.write_str(key);
            store.write_dec(i);
            store.write_str(" 0 R\n");
        },
        None => {},
    }
    assert(store.bytes() =~= b0 + opt_ref(key.spec_bytes(), crate::outline::opt_nat(id)));
}

/// Writes the cross-reference section: a record for every allocated ID.
#[verifier::rlimit(40)]
fn write_xref(store: &mut ObjectStore)
    requires
        offsets_ok(old(store).bytes(), old(store).offsets()),
        old(store).offsets().len() >= 1,
        forall|id: int|
            1 <= id < old(store).offsets().len() ==> (#[trigger] old(store).offsets()[id]).is_some(),
    ensures
        final(store).bytes() == old(store).bytes() + xref_section(old(store).offsets()),
        final(store).offsets() == old(store).offsets(),
        offsets_ok(final(store).bytes(), final(store).offsets()),
{
    let ghost b0 = store.bytes();
    let ghost offs = store.offsets();
    let size = store.count();
    store.write_str("xref\n0 ");
    store.write_dec(size);
    store.write_str("\n0000000000 65535 f \n");
    let ghost b1 = store.bytes();
    let mut id: usize = 1;
    while id < size
        invariant
            1 <= id <= size,
            size == offs.len(),
            store.offsets() == offs,
            forall|k: int| 1 <= k < offs.len() ==> (#[trigger] offs[k]).is_some(),
            store.bytes() == b1 + xref_lines(offs, id as nat),
            offsets_ok(store.bytes(), store.offsets()),
        decreases size - id,
    {
        let ghost s = store.bytes();
        let off = store.offset(id).unwrap();
        let mut rec: Vec<u8> = Vec::new();
        crate::bytes::push_padded10(&mut rec, off as u64);
        store.write_bytes(&rec);
        store.write_str(" 00000 n \n");
        id = id + 1;
        assert(store.bytes() =~= s + padded10(offs[id - 1].unwrap() as nat)
            + " 00000 n \n".spec_bytes());
    }
    assert(store.bytes() =~= b0 + xref_section(offs));
}

/// Writes the trailer for `size` object IDs, naming the catalog, the
/// information object if any, and `startxref`, where the cross-reference
/// section starts.
#[verifier::rlimit(40)]
fn write_trailer(store: &mut ObjectStore, size: usize, info_id: Option<usize>, startxref: usize)
    requires
        offsets_ok(old(store).bytes(), old(store).offsets()),
    ensures
        final(store).bytes() == old(store).bytes() + trailer(
            size as nat,
            crate::outline::opt_nat(info_id),
            startxref as nat,
        ),
        final(store).offsets() == old(store).offsets(),
{
    let ghost b2 = store.bytes();
    store.write_str("trailer\n<< /Size ");
    store.write_dec(size);
    store.write_str("\n   /Root 1 0 R\n");
    let ghost b3 = store.bytes();
    assert(b3 =~= b2 + "trailer\n<< /Size ".spec_bytes() + dec(size as nat)
        + "\n   /Root 1 0 R\n".spec_bytes());
    write_opt_ref(store, "   /Info ", info_id);
    let ghost b4 = store.bytes();
    store.write_str(">>\nstartxref\n");
    store.write_dec(startxref);
    store.write_str("\n%%EOF\n");
    assert(store.bytes() =~= b4 + ">>\nstartxref\n".spec_bytes() + dec(startxref as nat)
        + "\n%%EOF\n".spec_bytes());
    assert(store.bytes() =~= b2 + trailer(
        size as nat,
        crate::outline::opt_nat(info_id),
        startxref as nat,
    ));
}

/// Writes the cross-reference section for every allocated ID, then the
/// trailer naming the catalog, the information object if any, and where
/// the cross-reference section starts.
pub fn write_xref_and_trailer(store: &mut ObjectStore, info_id: Option<usize>)
    requires
        offsets_ok(old(store).bytes(), old(store).offsets()),
        old(store).offsets().len() >= 1,
        forall|id: int|
            1 <= id < old(store).offsets().len() ==> (#[trigger] old(store).offsets()[id]).is_some(),
    ensures
        final(store).bytes() == old(store).bytes() + xref_section(old(store).offsets()) + trailer(
            old(store).offsets().len(),
            crate::outline::opt_nat(info_id),
            old(store).bytes().len(),
        ),
        final(store).offsets() == old(store).offsets(),
{
    let startxref = store.tell();
    let size = store.count();
    write_xref(store);
    write_trailer(store, size, info_id, startxref);
}

} // verus!
