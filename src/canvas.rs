//! The drawing surface of one page, and text objects placed on it.

use vstd::prelude::*;
use vstd::string::StringSliceAdditionalSpecFns;
use crate::bytes::{dec, dec_signed, push_bytes, push_dec, push_signed, push_str};
use crate::font::{font_ref_name, BuiltinFont, FontRef};
use crate::outline::OutlineItem;

verus! {

/// One byte of shown text as written inside a string literal: parentheses
/// and backslashes get a backslash before them, and bytes outside ASCII
/// become `?`.
pub open spec fn escape_byte(b: u8) -> Seq<u8> {
    if b == 40 || b == 41 || b == 92 {
        seq![92u8, b]
    } else if b >= 128 {
        seq![63u8]
    } else {
        seq![b]
    }
}

/// The bytes of `s`, each escaped by `escape_byte`.
pub open spec fn escaped(s: Seq<u8>) -> Seq<u8>
    decreases s.len(),
{
    if s.len() == 0 {
        Seq::empty()
    } else {
        escaped(s.drop_last()) + escape_byte(s.last())
    }
}

/// A point given by two coordinates, each followed by a space.
pub open spec fn point(x: int, y: int) -> Seq<u8> {
    dec_signed(x) + " ".spec_bytes() + dec_signed(y) + " ".spec_bytes()
}

/// The body of a text object: font selection, positioning and shown strings.
pub struct TextObject {
    content: Vec<u8>,
}

impl TextObject {
    /// The bytes written to this text object so far.
    pub closed spec fn content(&self) -> Seq<u8> {
        self.content@
    }

    /// An empty text object.
    pub fn new() -> (r: TextObject)
        ensures
            r.content() == Seq::<u8>::empty(),
    {
        TextObject { content: Vec::new() }
    }

    /// Select `font` at `size` points for the text that follows.
    pub fn set_font(&mut self, font: &FontRef, size: u32)
        ensures
            final(self).content() == old(self).content() + font_ref_name(font.n as nat)
                + " ".spec_bytes() + dec(size as nat) + " Tf\n".spec_bytes(),
    {
        font.write_name(&mut self.content);
        push_str(&mut self.content, " ");
        push_dec(&mut self.content, size as u64);
        push_str(&mut self.content, " Tf\n");
    }

    /// Move the start of the next line to (x, y).
    pub fn pos(&mut self, x: i32, y: i32)
        ensures
            final(self).content() == old(self).content() + point(x as int, y as int)
                + "Td\n".spec_bytes(),
    {
        let ghost start = self.content@;
        push_signed(&mut self.content, x as i64);
        push_str(&mut self.content, " ");
        push_signed(&mut self.content, y as i64);
        push_str(&mut self.content, " ");
        push_str(&mut self.content, "Td\n");
        assert(self.content@ =~= start + point(x as int, y as int) + "Td\n".spec_bytes());
    }

    /// Show `text` at the current position.
    pub fn show(&mut self, text: &str)
        ensures
            final(self).content() == old(self).content() + "(".spec_bytes() + escaped(
                text.spec_bytes(),
            ) + ") Tj\n".spec_bytes(),
    {
        push_str(&mut self.content, "(");
        let ghost start = self.content@;
        let b = text.as_bytes();
        let mut i: usize = 0;
        while i < b.len()
            invariant
                i <= b@.len(),
                b@ == text.spec_bytes(),
                self.content@ == start + escaped(b@.subrange(0, i as int)),
            decreases b@.len() - i,
        {
            let c = b[i];
            if c == 40 || c == 41 || c == 92 {
                self.content.push(92u8);
                self.content.push(c);
            } else if c >= 128 {
                self.content.push(63u8);
            } else {
                self.content.push(c);
            }
            assert(b@.subrange(0, i + 1).drop_last() =~= b@.subrange(0, i as int));
            i = i + 1;
            assert(self.content@ =~= start + escaped(b@.subrange(0, i as int)));
        }
        assert(b@.subrange(0, b@.len() as int) =~= b@);
        push_str(&mut self.content, ") Tj\n");
    }

    pub(crate) fn bytes(&self) -> (r: &Vec<u8>)
        ensures
            r@ == self.content(),
    {
        &self.content
    }
}

/// A visual area where content can be drawn (a page).
///
/// Drawing appends operators to the page's content; fonts that text uses
/// are registered with page-local indices, and outline entries wait here
/// until the page is written.
pub struct Canvas {
    content: Vec<u8>,
    fonts: Vec<FontRef>,
    outline_items: Vec<OutlineItem>,
}

impl Canvas {
    /// The drawing operators written so far.
    pub closed spec fn content(&self) -> Seq<u8> {
        self.content@
    }

    /// The fonts used on this page, in the order of their indices.
    pub closed spec fn fonts(&self) -> Seq<FontRef> {
        self.fonts@
    }

    /// The titles of the outline entries added on this page.
    pub closed spec fn outline_titles(&self) -> Seq<Seq<u8>> {
        self.outline_items@.map_values(|i: OutlineItem| i.title@)
    }

    /// Each font's index is its position, and no font is registered twice.
    pub closed spec fn wf(&self) -> bool {
        &&& forall|i: int| 0 <= i < self.fonts@.len() ==> #[trigger] self.fonts@[i].n == i
        &&& forall|i: int, j: int|
            0 <= i < j < self.fonts@.len() ==> #[trigger] self.fonts@[i].font
                != #[trigger] self.fonts@[j].font
    }

    /// An empty page.
    pub fn new() -> (r: Canvas)
        ensures
            r.wf(),
            r.content() == Seq::<u8>::empty(),
            r.fonts() == Seq::<FontRef>::empty(),
            r.outline_titles() == Seq::<Seq<u8>>::empty(),
    {
        let r = Canvas { content: Vec::new(), fonts: Vec::new(), outline_items: Vec::new() };
        assert(r.outline_items@.map_values(|i: OutlineItem| i.title@) =~= Seq::<Seq<u8>>::empty());
        r
    }

    /// Appends `op` to the page's content unchanged.
    pub fn append_raw(&mut self, op: &str)
        ensures
            final(self).content() == old(self).content() + op.spec_bytes(),
            final(self).fonts() == old(self).fonts(),
            final(self).outline_titles() == old(self).outline_titles(),
            final(self).wf() == old(self).wf(),
    {
        push_str(&mut self.content, op);
    }

    /// Append a closed rectangle with a corner at (x, y), extending
    /// width × height, to the current path.
    pub fn rectangle(&mut self, x: i32, y: i32, width: i32, height: i32)
        ensures
            final(self).content() == old(self).content() + point(x as int, y as int) + point(
                width as int,
                height as int,
            ) + "re\n".spec_bytes(),
            final(self).fonts() == old(self).fonts(),
            final(self).outline_titles() == old(self).outline_titles(),
            final(self).wf() == old(self).wf(),
    {
        let ghost start = self.content@;
        push_signed(&mut self.content, x as i64);
        push_str(&mut self.content, " ");
        push_signed(&mut self.content, y as i64);
        push_str(&mut self.content, " ");
        let ghost mid = self.content@;
        push_signed(&mut self.content, width as i64);
        push_str(&mut self.content, " ");
        push_signed(&mut self.content, height as i64);
        push_str(&mut self.content, " ");
        push_str(&mut self.content, "re\n");
        assert(mid =~= start + point(x as int, y as int));
        assert(self.content@ =~= mid + point(width as int, height as int) + "re\n".spec_bytes());
    }

    /// Begin a new subpath at the point (x, y).
    pub fn move_to(&mut self, x: i32, y: i32)
        ensures
            final(self).content() == old(self).content() + point(x as int, y as int)
                + "m ".spec_bytes(),
            final(self).fonts() == old(self).fonts(),
            final(self).outline_titles() == old(self).outline_titles(),
            final(self).wf() == old(self).wf(),
    {
        let ghost start = self.content@;
        push_signed(&mut self.content, x as i64);
        push_str(&mut self.content, " ");
        push_signed(&mut self.content, y as i64);
        push_str(&mut self.content, " ");
        push_str(&mut self.content, "m ");
        assert(self.content@ =~= start + point(x as int, y as int) + "m ".spec_bytes());
    }

    /// Add a straight line from the current point to (x, y) to the path.
    pub fn line_to(&mut self, x: i32, y: i32)
        ensures
            final(self).content() == old(self).content() + point(x as int, y as int)
                + "l ".spec_bytes(),
            final(self).fonts() == old(self).fonts(),
            final(self).outline_titles() == old(self).outline_titles(),
            final(self).wf() == old(self).wf(),
    {
        let ghost start = self.content@;
        push_signed(&mut self.content, x as i64);
        push_str(&mut self.content, " ");
        push_signed(&mut self.content, y as i64);
        push_str(&mut self.content, " ");
        push_str(&mut self.content, "l ");
        assert(self.content@ =~= start + point(x as int, y as int) + "l ".spec_bytes());
    }

    /// Append a straight line from (x1, y1) to (x2, y2) to the path.
    pub fn line(&mut self, x1: i32, y1: i32, x2: i32, y2: i32)
        ensures
            final(self).content() == old(self).content() + point(x1 as int, y1 as int)
                + "m ".spec_bytes() + point(x2 as int, y2 as int) + "l ".spec_bytes(),
            final(self).fonts() == old(self).fonts(),
            final(self).outline_titles() == old(self).outline_titles(),
            final(self).wf() == old(self).wf(),
    {
        self.move_to(x1, y1);
        self.line_to(x2, y2);
    }

    /// Stroke the current path.
    pub fn stroke(&mut self)
        ensures
            final(self).content() == old(self).content() + "s\n".spec_bytes(),
            final(self).fonts() == old(self).fonts(),
            final(self).outline_titles() == old(self).outline_titles(),
            final(self).wf() == old(self).wf(),
    {
        push_str(&mut self.content, "s\n");
    }

    /// Fill the current path.
    pub fn fill(&mut self)
        ensures
            final(self).content() == old(self).content() + "f\n".spec_bytes(),
            final(self).fonts() == old(self).fonts(),
            final(self).outline_titles() == old(self).outline_titles(),
            final(self).wf() == old(self).wf(),
    {
        push_str(&mut self.content, "f\n");
    }

    /// The reference that names `font` on this page: the one already
    /// registered for it, or a new one with the next index.
    pub fn get_font(&mut self, font: BuiltinFont) -> (r: FontRef)
        requires
            old(self).wf(),
        ensures
            final(self).wf(),
            final(self).content() == old(self).content(),
            final(self).outline_titles() == old(self).outline_titles(),
            forall|i: int|
                0 <= i < old(self).fonts().len() && #[trigger] old(self).fonts()[i].font == font
                    ==> final(self).fonts() == old(self).fonts() && r == old(self).fonts()[i],
            (forall|i: int|
                0 <= i < old(self).fonts().len() ==> old(self).fonts()[i].font != font) ==> (
            r == FontRef { n: old(self).fonts().len() as usize, font }
                && final(self).fonts() == old(self).fonts().push(r)),
            final(self).fonts().contains(r),
            r.font == font,
    {
        let mut i: usize = 0;
        while i < self.fonts.len()
            invariant
                i <= self.fonts@.len(),
                *self == *old(self),
                self.wf(),
                forall|j: int| 0 <= j < i ==> self.fonts@[j].font != font,
            decreases self.fonts@.len() - i,
        {
            if self.fonts[i].font == font {
                let r = self.fonts[i];
                assert(self.fonts@[i as int] == r);
                return r;
            }
            i = i + 1;
        }
        let n = self.fonts.len();
        let r = FontRef::new(n, font);
        self.fonts.push(r);
        assert(self.fonts@[n as int] == r);
        r
    }

    /// Place a text object on the page.
    pub fn text(&mut self, text: &TextObject)
        ensures
            final(self).content() == old(self).content() + "BT\n".spec_bytes() + text.content()
                + "ET\n".spec_bytes(),
            final(self).fonts() == old(self).fonts(),
            final(self).outline_titles() == old(self).outline_titles(),
            final(self).wf() == old(self).wf(),
    {
        push_str(&mut self.content, "BT\n");
        push_bytes(&mut self.content, text.bytes().as_slice());
        push_str(&mut self.content, "ET\n");
    }

    /// Place `text` with its start at (x, y), set in `font` at `size` points.
    pub fn left_text(&mut self, x: i32, y: i32, font: BuiltinFont, size: u32, text: &str)
        requires
            old(self).wf(),
        ensures
            final(self).wf(),
            final(self).outline_titles() == old(self).outline_titles(),
            forall|i: int|
                0 <= i < old(self).fonts().len() && #[trigger] old(self).fonts()[i].font == font
                    ==> final(self).fonts() == old(self).fonts(),
            (forall|i: int|
                0 <= i < old(self).fonts().len() ==> old(self).fonts()[i].font != font)
                ==> final(self).fonts() == old(self).fonts().push(
                FontRef { n: old(self).fonts().len() as usize, font },
            ),
            exists|i: int|
                0 <= i < final(self).fonts().len() && final(self).fonts()[i].font == font
                    && final(self).content() == old(self).content() + "BT\n".spec_bytes() + (
                font_ref_name(i as nat) + " ".spec_bytes() + dec(size as nat) + " Tf\n".spec_bytes()
                    + point(x as int, y as int) + "Td\n".spec_bytes() + "(".spec_bytes() + escaped(
                    text.spec_bytes(),
                ) + ") Tj\n".spec_bytes()) + "ET\n".spec_bytes(),
    {
        let r = self.get_font(font);
        let mut t = TextObject::new();
        t.set_font(&r, size);
        t.pos(x, y);
        t.show(text);
        self.text(&t);
        let ghost i = r.n as int;
        assert(self.fonts@.contains(r));
        let ghost k = choose|k: int| 0 <= k < self.fonts@.len() && self.fonts@[k] == r;
        assert(self.fonts@[k].n == k);
        assert(t.content() =~= font_ref_name(i as nat) + " ".spec_bytes() + dec(size as nat)
            + " Tf\n".spec_bytes() + point(x as int, y as int) + "Td\n".spec_bytes()
            + "(".spec_bytes() + escaped(text.spec_bytes()) + ") Tj\n".spec_bytes());
    }

    /// Add an entry for this page to the document outline.
    pub fn add_outline(&mut self, title: &str)
        ensures
            final(self).outline_titles() == old(self).outline_titles().push(title.spec_bytes()),
            final(self).content() == old(self).content(),
            final(self).fonts() == old(self).fonts(),
            final(self).wf() == old(self).wf(),
    {
        let item = OutlineItem::new(title);
        self.outline_items.push(item);
        assert(self.outline_items@.map_values(|i: OutlineItem| i.title@) =~= old(
            self,
        ).outline_items@.map_values(|i: OutlineItem| i.title@).push(title.spec_bytes()));
    }

    /// Takes the page apart into its content, its fonts and its outline
    /// entries.
    pub(crate) fn into_parts(self) -> (r: (Vec<u8>, Vec<FontRef>, Vec<OutlineItem>))
        ensures
            r.0@ == self.content(),
            r.1@ == self.fonts(),
            r.2@.map_values(|i: OutlineItem| i.title@) == self.outline_titles(),
    {
        (self.content, self.fonts, self.outline_items)
    }
}

} // verus!
