//! Entries of the document outline (bookmarks).

use vstd::prelude::*;
use vstd::string::StringSliceAdditionalSpecFns;
use crate::bytes::{dec, push_bytes, push_dec, push_str};

verus! {

/// A bookmark: its title, and the object ID of its page once that page is
/// written.
#[derive(Debug)]
pub struct OutlineItem {
    pub title: Vec<u8>,
    pub page: Option<usize>,
}

/// `key` followed by a reference to object `id`, or nothing for `None`.
pub open spec fn opt_ref(key: Seq<u8>, id: Option<nat>) -> Seq<u8> {
    match id {
        Some(i) => key + dec(i) + " 0 R\n".spec_bytes(),
        None => Seq::empty(),
    }
}

/// The start of an outline entry's dictionary: its title and parent.
pub open spec fn outline_item_head(title: Seq<u8>, parent: nat) -> Seq<u8> {
    "<< /Title (".spec_bytes() + title + ")\n".spec_bytes() + "   /Parent ".spec_bytes()
        + dec(parent) + " 0 R\n".spec_bytes()
}

/// The end of an outline entry's dictionary: the page it leads to.
pub open spec fn outline_item_dest(page: nat) -> Seq<u8> {
    "   /Dest [".spec_bytes() + dec(page) + " 0 R /XYZ null null null]\n".spec_bytes()
        + ">>\n".spec_bytes()
}

/// The dictionary of one outline entry object.
pub open spec fn outline_item_body(
    title: Seq<u8>,
    parent: nat,
    prev: Option<nat>,
    next: Option<nat>,
    page: nat,
) -> Seq<u8> {
    outline_item_head(title, parent) + opt_ref("   /Prev ".spec_bytes(), prev) + opt_ref(
        "   /Next ".spec_bytes(),
        next,
    ) + outline_item_dest(page)
}

/// `Some(i)` as a natural number.
pub open spec fn opt_nat(id: Option<usize>) -> Option<nat> {
    match id {
        Some(i) => Some(i as nat),
        None => None,
    }
}

fn push_head(out: &mut Vec<u8>, title: &Vec<u8>, parent: usize)
    ensures
        final(out)@ == old(out)@ + outline_item_head(title@, parent as nat),
{
    let ghost start = out@;
    push_str(out, "<< /Title (");
    push_bytes(out, title.as_slice());
    push_str(out, ")\n");
    push_str(out, "   /Parent ");
    push_dec(out, parent as u64);
    push_str(out, " 0 R\n");
    assert(out@ =~= start + outline_item_head(title@, parent as nat));
}

fn push_dest(out: &mut Vec<u8>, page: usize)
    ensures
        final(out)@ == old(out)@ + outline_item_dest(page as nat),
{
    let ghost start = out@;
    push_str(out, "   /Dest [");
    push_dec(out, page as u64);
    push_str(out, " 0 R /XYZ null null null]\n");
    push_str(out, ">>\n");
    assert(out@ =~= start + outline_item_dest(page as nat));
}

fn push_opt_ref(out: &mut Vec<u8>, key: &str, id: Option<usize>)
    ensures
        final(out)@ == old(out)@ + opt_ref(
            key.spec_bytes(),
            opt_nat(id),
        ),
{
    let ghost start = out@;
    match id {
        Some(i) => {
            push_str(out, key);
            push_dec(out, i as u64);
            push_str(out, " 0 R\n");
            assert(out@ =~= start + key.spec_bytes() + dec(i as nat) + " 0 R\n".spec_bytes());
        },
        None => {
            assert(out@ =~= start + Seq::<u8>::empty());
        },
    }
}

impl OutlineItem {
    /// An entry titled with the UTF-8 bytes of `title`, not yet tied to a page.
    pub fn new(title: &str) -> (r: OutlineItem)
        ensures
            r.title@ == title.spec_bytes(),
            r.page.is_none(),
    {
        let mut t: Vec<u8> = Vec::new();
        push_str(&mut t, title);
        assert(t@ =~= title.spec_bytes());
        OutlineItem { title: t, page: None }
    }

    /// Appends this entry's dictionary, with `parent` as its parent and
    /// `prev` and `next` as its siblings.
    pub fn write_dictionary(
        &self,
        out: &mut Vec<u8>,
        parent: usize,
        prev: Option<usize>,
        next: Option<usize>,
    )
        requires
            self.page.is_some(),
        ensures
            final(out)@ == old(out)@ + outline_item_body(
                self.title@,
                parent as nat,
                opt_nat(prev),
                opt_nat(next),
                self.page.unwrap() as nat,
            ),
    {
        let ghost start = out@;
        push_head(out, &self.title, parent);
        let ghost s1 = out@;
        push_opt_ref(out, "   /Prev ", prev);
        let ghost s2 = out@;
        push_opt_ref(out, "   /Next ", next);
        let ghost s3 = out@;
        push_dest(out, self.page.unwrap());
        assert(out@ =~= start + outline_item_body(
            self.title@,
            parent as nat,
            opt_nat(prev),
            opt_nat(next),
            self.page.unwrap() as nat,
        ));
    }
}

} // verus!
