//! Writing one page: its content stream with the length object that follows
//! it, the objects of fonts it uses for the first time, and its dictionary.

use vstd::prelude::*;
use vstd::string::StringSliceAdditionalSpecFns;
use crate::bytes::dec;
use crate::font::{BuiltinFont, FontRef};
use crate::fonts::{
    font_object_id, font_steps, fonts_unique, has_font, lemma_font_object_id, lemma_font_steps,
};
use crate::store::{obj_footer, obj_header, object, offsets_ok, ObjectStore};

verus! {

/// `new` keeps every offset of `old` and records an offset for each ID it adds.
pub open spec fn extends(old: Seq<Option<usize>>, new: Seq<Option<usize>>) -> bool {
    &&& new.len() >= old.len()
    &&& forall|i: int| 0 <= i < old.len() ==> new[i] == old[i]
    &&& forall|i: int| old.len() <= i < new.len() ==> (#[trigger] new[i]).is_some()
}

/// What every page's content starts with: the color spaces it paints in.
pub open spec fn content_prefix() -> Seq<u8> {
    "/DeviceRGB cs /DeviceRGB CS\n".spec_bytes()
}

/// A content stream object's body: a reference to the object that holds its
/// length, then the stream.
pub open spec fn stream_body(length_id: nat, content: Seq<u8>) -> Seq<u8> {
    "<< /Length ".spec_bytes() + dec(length_id) + " 0 R >>\nstream\n".spec_bytes() + content
        + "endstream\n".spec_bytes()
}

/// The body of an object that holds the integer `k`.
pub open spec fn length_body(k: nat) -> Seq<u8> {
    dec(k) + "\n".spec_bytes()
}

/// The content stream of a page as object `c`, followed by object `c + 1`
/// holding the number of bytes in the stream.
pub open spec fn content_objects(c: nat, page_content: Seq<u8>) -> Seq<u8> {
    object(c, stream_body(c + 1, content_prefix() + page_content)) + object(
        c + 1,
        length_body((content_prefix() + page_content).len()),
    )
}

/// A page dictionary: parent, font resources, media box and contents.
pub open spec fn page_body(content_id: nat, width: nat, height: nat, fonts: Seq<u8>) -> Seq<u8> {
    "<< /Type /Page\n   /Parent 2 0 R\n   /Resources << /Font << ".spec_bytes() + fonts
        + ">> >>\n   /MediaBox [ 0 0 ".spec_bytes() + dec(width) + " ".spec_bytes() + dec(height)
        + " ]\n   /Contents ".spec_bytes() + dec(content_id) + " 0 R\n>>\n".spec_bytes()
}

/// Writes a content stream that names `length_id` as the object holding
/// its length; returns its ID and the number of bytes in the stream.
fn write_stream_object(store: &mut ObjectStore, length_id: usize, content: &Vec<u8>) -> (r: (
    usize,
    usize,
))
    requires
        offsets_ok(old(store).bytes(), old(store).offsets()),
        old(store).offsets().len() < usize::MAX,
    ensures
        r.0 == old(store).offsets().len(),
        r.1 == (content_prefix() + content@).len(),
        final(store).offsets() == old(store).offsets().push(Some(old(store).bytes().len() as usize)),
        final(store).bytes() == old(store).bytes() + object(
            r.0 as nat,
            stream_body(length_id as nat, content_prefix() + content@),
        ),
        offsets_ok(final(store).bytes(), final(store).offsets()),
{
    let ghost b0 = store.bytes();
    let c = store.begin_new_object();
    let ghost b1 = store.bytes();
    store.write_str("<< /Length ");
    store.write_dec(length_id);
    store.write_str(" 0 R >>\nstream\n");
    let start = store.tell();
    let ghost b2 = store.bytes();
    store.write_str("/DeviceRGB cs /DeviceRGB CS\n");
    store.write_bytes(content);
    let end = store.tell();
    let ghost b3 = store.bytes();
    assert(b3 =~= b2 + (content_prefix() + content@));
    store.write_str("endstream\n");
    assert(store.bytes() =~= b1 + stream_body(length_id as nat, content_prefix() + content@));
    store.end_object();
    assert(store.bytes() =~= b0 + object(
        c as nat,
        stream_body(length_id as nat, content_prefix() + content@),
    ));
    (c, end - start)
}

/// Writes an object holding the integer `k`.
fn write_length_object(store: &mut ObjectStore, k: usize) -> (id: usize)
    requires
        offsets_ok(old(store).bytes(), old(store).offsets()),
        old(store).offsets().len() < usize::MAX,
    ensures
        id == old(store).offsets().len(),
        final(store).offsets() == old(store).offsets().push(Some(old(store).bytes().len() as usize)),
        final(store).bytes() == old(store).bytes() + object(id as nat, length_body(k as nat)),
        offsets_ok(final(store).bytes(), final(store).offsets()),
{
    let ghost b0 = store.bytes();
    let id = store.begin_new_object();
    store.write_dec(k);
    store.write_str("\n");
    store.end_object();
    assert(store.bytes() =~= b0 + object(id as nat, length_body(k as nat)));
    id
}

/// Writes a page's content stream and its length object. The stream names
/// the length object before the length is known: its ID is the next one to
/// be allocated, since nothing else is allocated in between.
#[verifier::rlimit(40)]
pub fn write_content_stream(store: &mut ObjectStore, content: &Vec<u8>) -> (c: usize)
    requires
        offsets_ok(old(store).bytes(), old(store).offsets()),
        old(store).offsets().len() + 2 < usize::MAX,
    ensures
        c == old(store).offsets().len(),
        final(store).offsets().len() == c + 2,
        extends(old(store).offsets(), final(store).offsets()),
        final(store).bytes() == old(store).bytes() + content_objects(c as nat, content@),
        offsets_ok(final(store).bytes(), final(store).offsets()),
{
    let ghost b0 = store.bytes();
    let predicted = store.count() + 1;
    let (c, k) = write_stream_object(store, predicted, content);
    let ghost b1 = store.bytes();
    let length_id = write_length_object(store, k);
    assert(length_id == predicted);
    assert(store.bytes() =~= b0 + content_objects(c as nat, content@));
    c
}

/// Resolves a page's fonts against the document-wide map, writing an object
/// for each font that has none yet; returns the page's font resources.
#[verifier::rlimit(40)]
pub fn write_page_fonts(
    store: &mut ObjectStore,
    known: &mut Vec<(BuiltinFont, usize)>,
    refs: &Vec<FontRef>,
) -> (res: Vec<u8>)
    requires
        offsets_ok(old(store).bytes(), old(store).offsets()),
        fonts_unique(old(known)@),
        old(store).offsets().len() + refs@.len() < usize::MAX,
    ensures
        ({
            let fs = font_steps(old(known)@, old(store).offsets().len() as nat, refs@);
            &&& final(store).bytes() == old(store).bytes() + fs.written
            &&& final(known)@ == fs.known
            &&& final(store).offsets().len() == fs.next
            &&& res@ == fs.resources
        }),
        fonts_unique(final(known)@),
        extends(old(store).offsets(), final(store).offsets()),
        offsets_ok(final(store).bytes(), final(store).offsets()),
{
    let ghost b0 = store.bytes();
    let ghost k0 = known@;
    let ghost o0 = store.offsets();
    let ghost n0 = store.offsets().len() as nat;
    let mut res: Vec<u8> = Vec::new();
    let mut i: usize = 0;
    while i < refs.len()
        invariant
            i <= refs@.len(),
            fonts_unique(k0),
            o0.len() + refs@.len() < usize::MAX,
            n0 == o0.len(),
            ({
                let fs = font_steps(k0, n0, refs@.subrange(0, i as int));
                &&& store.bytes() == b0 + fs.written
                &&& known@ == fs.known
                &&& store.offsets().len() == fs.next
                &&& res@ == fs.resources
                &&& fs.next <= n0 + i
            }),
            fonts_unique(known@),
            extends(o0, store.offsets()),
            offsets_ok(store.bytes(), store.offsets()),
        decreases refs@.len() - i,
    {
        let r = refs[i];
        let ghost prev = refs@.subrange(0, i as int);
        let ghost next_refs = refs@.subrange(0, i + 1);
        assert(next_refs.drop_last() =~= prev);
        assert(next_refs.last() == r);
        proof {
            lemma_font_steps(k0, n0, prev);
        }
        let ghost p = font_steps(k0, n0, prev);
        let mut j: usize = 0;
        let mut found: Option<usize> = None;
        while j < known.len()
            invariant
                j <= known@.len(),
                fonts_unique(known@),
                found.is_none() ==> forall|k: int| 0 <= k < j ==> known@[k].0 != r.font,
                found.is_some() ==> has_font(known@, r.font) && found.unwrap() == font_object_id(
                    known@,
                    r.font,
                ),
            decreases known@.len() - j,
        {
            if found.is_none() && known[j].0 == r.font {
                proof {
                    lemma_font_object_id(known@, j as int);
                }
                found = Some(known[j].1);
            }
            j = j + 1;
        }
        let ghost s1 = store.bytes();
        let id = match found {
            Some(id) => id,
            None => {
                assert(!has_font(known@, r.font));
                let id = store.begin_new_object();
                let mut body: Vec<u8> = Vec::new();
                r.font.write_body(&mut body);
                store.write_bytes(&body);
                store.end_object();
                known.push((r.font, id));
                assert(store.bytes() =~= s1 + object(id as nat, crate::font::font_body(r.font)));
                id
            },
        };
        let ghost r0 = res@;
        r.write_name(&mut res);
        crate::bytes::push_str(&mut res, " ");
        crate::bytes::push_dec(&mut res, id as u64);
        crate::bytes::push_str(&mut res, " 0 R ");
        assert(res@ =~= r0 + crate::fonts::font_entry(r.n as nat, id as nat));
        i = i + 1;
        assert(store.bytes() =~= b0 + font_steps(k0, n0, refs@.subrange(0, i as int)).written);
    }
    assert(refs@.subrange(0, refs@.len() as int) =~= refs@);
    res
}

/// Writes a page dictionary for the content stream `content_id`.
pub fn write_page_dict(
    store: &mut ObjectStore,
    content_id: usize,
    width: u32,
    height: u32,
    fonts: &Vec<u8>,
) -> (page_id: usize)
    requires
        offsets_ok(old(store).bytes(), old(store).offsets()),
        old(store).offsets().len() < usize::MAX,
    ensures
        page_id == old(store).offsets().len(),
        final(store).offsets().len() == page_id + 1,
        extends(old(store).offsets(), final(store).offsets()),
        final(store).bytes() == old(store).bytes() + object(
            page_id as nat,
            page_body(content_id as nat, width as nat, height as nat, fonts@),
        ),
        offsets_ok(final(store).bytes(), final(store).offsets()),
{
    let ghost b0 = store.bytes();
    let page_id = store.begin_new_object();
    let ghost b1 = store.bytes();
    store.write_str("<< /Type /Page\n   /Parent 2 0 R\n   /Resources << /Font << ");
    store.write_bytes(fonts);
    store.write_str(">> >>\n   /MediaBox [ 0 0 ");
    store.write_dec(width as usize);
    store.write_str(" ");
    store.write_dec(height as usize);
    store.write_str(" ]\n   /Contents ");
    store.write_dec(content_id);
    store.write_str(" 0 R\n>>\n");
    assert(store.bytes() =~= b1 + page_body(content_id as nat, width as nat, height as nat, fonts@));
    store.end_object();
    assert(store.bytes() =~= b0 + object(
        page_id as nat,
        page_body(content_id as nat, width as nat, height as nat, fonts@),
    ));
    page_id
}

} // verus!
