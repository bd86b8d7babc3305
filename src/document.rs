//! The document: pages appended one by one, metadata, and the outline,
//! written out by `finish`.

use vstd::prelude::*;
use vstd::string::StringSliceAdditionalSpecFns;
use crate::bytes::{push_bytes, push_str};
use crate::canvas::Canvas;
use crate::font::BuiltinFont;
use crate::fonts::{font_steps, fonts_unique, lemma_font_steps};
use crate::outline::OutlineItem;
use crate::page::{
    content_objects, extends, page_body, write_content_stream, write_page_dict, write_page_fonts,
};
use crate::store::{object, offsets_ok, ObjectStore};
use crate::trailer::{
    catalog_body, finished_layout, has_info, info_body, info_view, outline_tree, outline_view,
    pages_body, trailer, write_catalog, write_info, write_outlines, write_pages_root,
    write_xref_and_trailer, xref_section,
};

verus! {

/// The ID of the document catalog.
pub const ROOT_OBJECT_ID: usize = 1;

/// The ID of the root of the page tree.
pub const PAGES_OBJECT_ID: usize = 2;

/// The number of metadata entries a document can have.
pub const INFO_KEYS: usize = 6;

/// The first bytes of every document: the version line, and a comment of
/// four bytes outside ASCII that marks the file as binary.
pub open spec fn file_header() -> Seq<u8> {
    "%PDF-1.7\n%".spec_bytes() + seq![0xB5u8, 0xEDu8, 0xAEu8, 0xFBu8, 0x0Au8]
}

/// The metadata keys, in the order they are written.
pub open spec fn info_key(i: int) -> Seq<u8> {
    if i == 0 {
        "Author".spec_bytes()
    } else if i == 1 {
        "Creator".spec_bytes()
    } else if i == 2 {
        "Keywords".spec_bytes()
    } else if i == 3 {
        "Producer".spec_bytes()
    } else if i == 4 {
        "Subject".spec_bytes()
    } else {
        "Title".spec_bytes()
    }
}

pub(crate) fn info_key_str(i: usize) -> (r: &'static str)
    requires
        i < INFO_KEYS,
    ensures
        r.spec_bytes() == info_key(i as int),
{
    if i == 0 {
        "Author"
    } else if i == 1 {
        "Creator"
    } else if i == 2 {
        "Keywords"
    } else if i == 3 {
        "Producer"
    } else if i == 4 {
        "Subject"
    } else {
        "Title"
    }
}

/// The metadata index of the author.
pub const AUTHOR: usize = 0;
/// The metadata index of the creator.
pub const CREATOR: usize = 1;
/// The metadata index of the keywords.
pub const KEYWORDS: usize = 2;
/// The metadata index of the producer.
pub const PRODUCER: usize = 3;
/// The metadata index of the subject.
pub const SUBJECT: usize = 4;
/// The metadata index of the title.
pub const TITLE: usize = 5;

/// A PDF document being written.
///
/// Pages are appended with `render_page`, metadata is set with the `set_*`
/// methods, and `finish` writes the page tree, metadata, outline, catalog,
/// cross-reference table and trailer, and returns the whole file.
pub struct Pdf {
    store: ObjectStore,
    page_objects_ids: Vec<usize>,
    all_font_object_ids: Vec<(BuiltinFont, usize)>,
    outline_items: Vec<OutlineItem>,
    document_info: Vec<Option<Vec<u8>>>,
}

/// The ID of the information object of a document with `n` objects before
/// `finish`: the first one `finish` allocates, when metadata is set.
pub open spec fn info_object_id(info: Seq<Option<Seq<u8>>>, n: nat) -> Option<nat> {
    if has_info(info) {
        Some(n)
    } else {
        None
    }
}

/// The ID of the outline root: allocated after the information object.
pub open spec fn outline_root_id(
    info: Seq<Option<Seq<u8>>>,
    outline: Seq<(Seq<u8>, usize)>,
    n: nat,
) -> Option<nat> {
    if outline.len() > 0 {
        Some(if has_info(info) { n + 1 } else { n })
    } else {
        None
    }
}

/// The number of object IDs of the finished document, ID 0 included.
pub open spec fn document_size(
    info: Seq<Option<Seq<u8>>>,
    outline: Seq<(Seq<u8>, usize)>,
    n: nat,
) -> nat {
    let n2 = if has_info(info) { n + 1 } else { n };
    if outline.len() > 0 {
        n2 + outline.len() + 1
    } else {
        n2
    }
}

/// Everything a finished document holds before its cross-reference
/// section: the bytes `b` written for the pages, then the page tree root,
/// the information object if metadata is set, the outline if it has
/// entries, and the catalog.
pub open spec fn document_objects(
    b: Seq<u8>,
    pages: Seq<usize>,
    info: Seq<Option<Seq<u8>>>,
    now: Option<Seq<u8>>,
    outline: Seq<(Seq<u8>, usize)>,
    n: nat,
) -> Seq<u8> {
    let b1 = b + object(2, pages_body(pages));
    let b2 = if has_info(info) {
        b1 + object(n, info_body(info, now))
    } else {
        b1
    };
    let b3 = if outline.len() > 0 {
        b2 + outline_tree(outline, outline_root_id(info, outline, n).unwrap())
    } else {
        b2
    };
    b3 + object(1, catalog_body(outline_root_id(info, outline, n)))
}

/// `r` is the finished form of a document with these pages, metadata,
/// outline and `n` object IDs, dated `now`: its objects, a cross-reference
/// section whose every record points at the header of its object, and the
/// trailer.
pub open spec fn finished_document(
    b: Seq<u8>,
    pages: Seq<usize>,
    info: Seq<Option<Seq<u8>>>,
    now: Option<Seq<u8>>,
    outline: Seq<(Seq<u8>, usize)>,
    n: nat,
    r: Seq<u8>,
) -> bool {
    let pre = document_objects(b, pages, info, now, outline, n);
    let size = document_size(info, outline, n);
    exists|offs: Seq<Option<usize>>|
        finished_layout(pre, offs, size) && r == pre + xref_section(offs) + trailer(
            size,
            info_object_id(info, n),
            pre.len(),
        )
}

/// Appends copies of `items`, each tied to page `page_id`.
fn append_outline_items(outline: &mut Vec<OutlineItem>, items: &Vec<OutlineItem>, page_id: usize)
    requires
        forall|j: int| 0 <= j < old(outline)@.len() ==> (#[trigger] old(outline)@[j]).page.is_some(),
    ensures
        forall|j: int| 0 <= j < final(outline)@.len() ==> (#[trigger] final(outline)@[j]).page.is_some(),
        final(outline)@.map_values(|it: OutlineItem| (it.title@, it.page.unwrap())) == old(
            outline,
        )@.map_values(|it: OutlineItem| (it.title@, it.page.unwrap())) + items@.map_values(
            |it: OutlineItem| it.title@,
        ).map_values(|t: Seq<u8>| (t, page_id)),
{
    let ghost start = outline@.map_values(|it: OutlineItem| (it.title@, it.page.unwrap()));
    let ghost titles = items@.map_values(|it: OutlineItem| it.title@);
    let mut i: usize = 0;
    while i < items.len()
        invariant
            i <= items@.len(),
            titles == items@.map_values(|it: OutlineItem| it.title@),
            outline@.map_values(|it: OutlineItem| (it.title@, it.page.unwrap())) == start
                + titles.subrange(0, i as int).map_values(|t: Seq<u8>| (t, page_id)),
            forall|j: int| 0 <= j < outline@.len() ==> (#[trigger] outline@[j]).page.is_some(),
        decreases items@.len() - i,
    {
        let mut t: Vec<u8> = Vec::new();
        push_bytes(&mut t, items[i].title.as_slice());
        assert(t@ =~= titles[i as int]);
        let ghost before = outline@.map_values(|it: OutlineItem| (it.title@, it.page.unwrap()));
        outline.push(OutlineItem { title: t, page: Some(page_id) });
        i = i + 1;
        assert(outline@.map_values(|it: OutlineItem| (it.title@, it.page.unwrap())) =~= before.push(
            (titles[i - 1], page_id),
        ));
        assert(titles.subrange(0, i as int).map_values(|t: Seq<u8>| (t, page_id)) =~= titles.subrange(
            0,
            i - 1,
        ).map_values(|t: Seq<u8>| (t, page_id)).push((titles[i - 1], page_id)));
    }
    assert(titles.subrange(0, titles.len() as int) =~= titles);
}

impl Pdf {
    /// The bytes written so far.
    pub closed spec fn bytes(&self) -> Seq<u8> {
        self.store.bytes()
    }

    /// The recorded offset of each allocated object ID.
    pub closed spec fn offsets(&self) -> Seq<Option<usize>> {
        self.store.offsets()
    }

    /// The page dictionaries' object IDs, in page order.
    pub closed spec fn page_ids(&self) -> Seq<usize> {
        self.page_objects_ids@
    }

    /// Each font that has an object, with that object's ID.
    pub closed spec fn fonts(&self) -> Seq<(BuiltinFont, usize)> {
        self.all_font_object_ids@
    }

    /// The outline entries: title and page dictionary ID, in order.
    pub closed spec fn outline(&self) -> Seq<(Seq<u8>, usize)> {
        outline_view(self.outline_items@)
    }

    /// The metadata values, indexed as `info_key`.
    pub closed spec fn info(&self) -> Seq<Option<Seq<u8>>> {
        info_view(self.document_info@)
    }

    /// The document's invariant: every written object's offset points at its
    /// header, the catalog and page tree (IDs 1 and 2) are counted but not
    /// written, every later ID is written, fonts are mapped once, and every
    /// outline entry knows its page.
    pub closed spec fn wf(&self) -> bool {
        let offs = self.store.offsets();
        &&& offsets_ok(self.store.bytes(), offs)
        &&& offs.len() >= 3
        &&& offs[0].is_none()
        &&& offs[1].is_none()
        &&& offs[2].is_none()
        &&& forall|i: int| 3 <= i < offs.len() ==> (#[trigger] offs[i]).is_some()
        &&& fonts_unique(self.all_font_object_ids@)
        &&& self.document_info@.len() == INFO_KEYS
        &&& forall|i: int|
            0 <= i < self.outline_items@.len() ==> (#[trigger] self.outline_items@[i]).page.is_some()
    }

    /// A new document: the file header is written and IDs 0 to 2 are counted.
    pub fn new() -> (r: Pdf)
        ensures
            r.wf(),
            r.bytes() == file_header(),
            r.offsets() == seq![None::<usize>, None, None],
            r.page_ids() == Seq::<usize>::empty(),
            r.fonts() == Seq::<(BuiltinFont, usize)>::empty(),
            r.outline() == Seq::<(Seq<u8>, usize)>::empty(),
            r.info() == Seq::new(INFO_KEYS as nat, |i: int| None::<Seq<u8>>),
    {
        let mut header: Vec<u8> = Vec::new();
        push_str(&mut header, "%PDF-1.7\n%");
        header.push(0xB5u8);
        header.push(0xEDu8);
        header.push(0xAEu8);
        header.push(0xFBu8);
        header.push(0x0Au8);
        assert(header@ =~= file_header());
        let store = ObjectStore::new(&header, PAGES_OBJECT_ID + 1);
        assert(store.offsets() =~= seq![None::<usize>, None, None]);
        let mut info: Vec<Option<Vec<u8>>> = Vec::new();
        let mut i: usize = 0;
        while i < INFO_KEYS
            invariant
                i <= INFO_KEYS,
                info@.len() == i,
                forall|j: int| 0 <= j < i ==> (#[trigger] info@[j]).is_none(),
            decreases INFO_KEYS - i,
        {
            info.push(None);
            i = i + 1;
        }
        let r = Pdf {
            store,
            page_objects_ids: Vec::new(),
            all_font_object_ids: Vec::new(),
            outline_items: Vec::new(),
            document_info: info,
        };
        assert(r.outline() =~= Seq::<(Seq<u8>, usize)>::empty());
        assert(r.info() =~= Seq::new(INFO_KEYS as nat, |i: int| None::<Seq<u8>>));
        r
    }

    /// Sets metadata entry `key` (an index of `info_key`) to `value`.
    pub fn set_info(&mut self, key: usize, value: &str)
        requires
            old(self).wf(),
            key < INFO_KEYS,
        ensures
            final(self).wf(),
            final(self).info() == old(self).info().update(key as int, Some(value.spec_bytes())),
            final(self).bytes() == old(self).bytes(),
            final(self).offsets() == old(self).offsets(),
            final(self).page_ids() == old(self).page_ids(),
            final(self).fonts() == old(self).fonts(),
            final(self).outline() == old(self).outline(),
    {
        let mut v: Vec<u8> = Vec::new();
        push_str(&mut v, value);
        self.document_info.set(key, Some(v));
        assert(self.info() =~= old(self).info().update(key as int, Some(value.spec_bytes())));
    }

    /// Set metadata: the document's title.
    pub fn set_title(&mut self, title: &str)
        requires
            old(self).wf(),
        ensures
            final(self).wf(),
            final(self).info() == old(self).info().update(TITLE as int, Some(title.spec_bytes())),
            final(self).bytes() == old(self).bytes(),
            final(self).offsets() == old(self).offsets(),
            final(self).page_ids() == old(self).page_ids(),
            final(self).fonts() == old(self).fonts(),
            final(self).outline() == old(self).outline(),
    {
        self.set_info(TITLE, title);
    }

    /// Set metadata: the name of the person who created the document.
    pub fn set_author(&mut self, author: &str)
        requires
            old(self).wf(),
        ensures
            final(self).wf(),
            final(self).info() == old(self).info().update(AUTHOR as int, Some(author.spec_bytes())),
            final(self).bytes() == old(self).bytes(),
            final(self).offsets() == old(self).offsets(),
            final(self).page_ids() == old(self).page_ids(),
            final(self).fonts() == old(self).fonts(),
            final(self).outline() == old(self).outline(),
    {
        self.set_info(AUTHOR, author);
    }

    /// Set metadata: the subject of the document.
    pub fn set_subject(&mut self, subject: &str)
        requires
            old(self).wf(),
        ensures
            final(self).wf(),
            final(self).info() == old(self).info().update(
                SUBJECT as int,
                Some(subject.spec_bytes()),
            ),
            final(self).bytes() == old(self).bytes(),
            final(self).offsets() == old(self).offsets(),
            final(self).page_ids() == old(self).page_ids(),
            final(self).fonts() == old(self).fonts(),
            final(self).outline() == old(self).outline(),
    {
        self.set_info(SUBJECT, subject);
    }

    /// Set metadata: keywords associated with the document.
    pub fn set_keywords(&mut self, keywords: &str)
        requires
            old(self).wf(),
        ensures
            final(self).wf(),
            final(self).info() == old(self).info().update(
                KEYWORDS as int,
                Some(keywords.spec_bytes()),
            ),
            final(self).bytes() == old(self).bytes(),
            final(self).offsets() == old(self).offsets(),
            final(self).page_ids() == old(self).page_ids(),
            final(self).fonts() == old(self).fonts(),
            final(self).outline() == old(self).outline(),
    {
        self.set_info(KEYWORDS, keywords);
    }

    /// Set metadata: for a document converted from another format, the
    /// product that created the source document.
    pub fn set_creator(&mut self, creator: &str)
        requires
            old(self).wf(),
        ensures
            final(self).wf(),
            final(self).info() == old(self).info().update(
                CREATOR as int,
                Some(creator.spec_bytes()),
            ),
            final(self).bytes() == old(self).bytes(),
            final(self).offsets() == old(self).offsets(),
            final(self).page_ids() == old(self).page_ids(),
            final(self).fonts() == old(self).fonts(),
            final(self).outline() == old(self).outline(),
    {
        self.set_info(CREATOR, creator);
    }

    /// Set metadata: for a document converted from another format, the
    /// product that converted it.
    pub fn set_producer(&mut self, producer: &str)
        requires
            old(self).wf(),
        ensures
            final(self).wf(),
            final(self).info() == old(self).info().update(
                PRODUCER as int,
                Some(producer.spec_bytes()),
            ),
            final(self).bytes() == old(self).bytes(),
            final(self).offsets() == old(self).offsets(),
            final(self).page_ids() == old(self).page_ids(),
            final(self).fonts() == old(self).fonts(),
            final(self).outline() == old(self).outline(),
    {
        self.set_info(PRODUCER, producer);
    }

    /// The number of outline entries added so far.
    pub fn outline_len(&self) -> (r: usize)
        ensures
            r == self.outline().len(),
    {
        self.outline_items.len()
    }

    /// The number of object IDs allocated so far, ID 0 included.
    pub fn object_count(&self) -> (r: usize)
        ensures
            r == self.offsets().len(),
    {
        self.store.count()
    }

    /// Appends a page of `width` × `height` points whose content was drawn
    /// on `canvas`: its content stream (object `c`), the stream's length
    /// (object `c + 1`), an object for each font the page is the first to
    /// use, and the page dictionary. The page's outline entries are tied to
    /// the page dictionary.
    #[verifier::rlimit(40)]
    pub fn render_page(&mut self, width: u32, height: u32, canvas: Canvas)
        requires
            old(self).wf(),
            canvas.wf(),
            old(self).offsets().len() + canvas.fonts().len() + 3 < usize::MAX,
        ensures
            final(self).wf(),
            ({
                let c = old(self).offsets().len();
                let fs = font_steps(old(self).fonts(), c + 2, canvas.fonts());
                &&& final(self).bytes() == old(self).bytes() + content_objects(
                    c as nat,
                    canvas.content(),
                ) + fs.written + object(
                    fs.next,
                    page_body(c as nat, width as nat, height as nat, fs.resources),
                )
                &&& final(self).fonts() == fs.known
                &&& final(self).offsets().len() == fs.next + 1
                &&& final(self).page_ids() == old(self).page_ids().push(fs.next as usize)
                &&& final(self).outline() == old(self).outline() + canvas.outline_titles().map_values(
                    |t: Seq<u8>| (t, fs.next as usize),
                )
            }),
            extends(old(self).offsets(), final(self).offsets()),
            final(self).info() == old(self).info(),
    {
        let ghost b0 = self.store.bytes();
        let ghost titles = canvas.outline_titles();
        let (content, fonts, items) = canvas.into_parts();
        let c = write_content_stream(&mut self.store, &content);
        let ghost b1 = self.store.bytes();
        proof {
            lemma_font_steps(self.all_font_object_ids@, (c + 2) as nat, fonts@);
        }
        let res = write_page_fonts(&mut self.store, &mut self.all_font_object_ids, &fonts);
        let ghost b2 = self.store.bytes();
        let page_id = write_page_dict(&mut self.store, c, width, height, &res);
        let ghost o2 = self.store.offsets();
        let ghost old_outline = self.outline();
        append_outline_items(&mut self.outline_items, &items, page_id);
        assert(self.outline() == old_outline + titles.map_values(|t: Seq<u8>| (t, page_id)));
        self.page_objects_ids.push(page_id);
    }

    /// Writes the closing part of the document dated `now` (the date string
    /// of the information object, if metadata is set) and returns the whole
    /// file.
    #[verifier::rlimit(40)]
    pub fn finish_with_date(self, now: Option<&str>) -> (r: Vec<u8>)
        requires
            self.wf(),
            self.offsets().len() + self.outline().len() + 2 < usize::MAX,
        ensures
            finished_document(
                self.bytes(),
                self.page_ids(),
                self.info(),
                crate::trailer::date_bytes(now),
                self.outline(),
                self.offsets().len() as nat,
                r@,
            ),
    {
        let ghost n = self.store.offsets().len();
        let ghost o0 = self.store.offsets();
        let Pdf { mut store, page_objects_ids, all_font_object_ids, outline_items, document_info } =
            self;
        write_pages_root(&mut store, &page_objects_ids);
        let ghost o1 = store.offsets();
        let info_id = write_info(&mut store, &document_info, now);
        let ghost o2 = store.offsets();
        let outlines_id = write_outlines(&mut store, &outline_items);
        let ghost o3 = store.offsets();
        write_catalog(&mut store, outlines_id);
        let ghost pre = store.bytes();
        let ghost offs = store.offsets();
        let ghost info = info_view(document_info@);
        let ghost outline = outline_view(outline_items@);
        assert(crate::outline::opt_nat(info_id) == info_object_id(info, n as nat));
        assert(crate::outline::opt_nat(outlines_id) == outline_root_id(info, outline, n as nat));
        assert(pre =~= document_objects(
            self.bytes(),
            page_objects_ids@,
            info,
            crate::trailer::date_bytes(now),
            outline,
            n as nat,
        ));
        assert(offs.len() == document_size(info, outline, n as nat));
        assert forall|id: int| 1 <= id < offs.len() implies (#[trigger] offs[id]).is_some() by {
            if id == 1 {
            } else if id == 2 {
                assert(o1[2].is_some());
                assert(o3[2] == o1[2]);
            } else if id < n {
                assert(o0[id].is_some());
                assert(o1[id] == o0[id]);
                assert(o3[id] == o2[id]);
            } else {
                assert(o3[id] == offs[id]);
            }
        }
        assert(finished_layout(pre, offs, offs.len()));
        write_xref_and_trailer(&mut store, info_id);
        store.into_bytes()
    }

    /// Writes the closing part of the document, dated with the current local
    /// time when that can be formatted, and returns the whole file.
    pub fn finish(self) -> (r: Vec<u8>)
        requires
            self.wf(),
            self.offsets().len() + self.outline().len() + 2 < usize::MAX,
        ensures
            exists|now: Option<Seq<u8>>|
                finished_document(
                    self.bytes(),
                    self.page_ids(),
                    self.info(),
                    now,
                    self.outline(),
                    self.offsets().len() as nat,
                    r@,
                ),
    {
        let now = crate::clock::timestamp();
        match now {
            Some(s) => self.finish_with_date(Some(s.as_str())),
            None => self.finish_with_date(None),
        }
    }
}

} // verus!
