//! The document-wide font registry: which built-in fonts already have an
//! object in the output, and the resources a page's fonts resolve to.

use vstd::prelude::*;
use vstd::string::StringSliceAdditionalSpecFns;
use crate::bytes::dec;
use crate::font::{font_body, font_ref_name, BuiltinFont, FontRef};
use crate::store::object;

verus! {

/// No font is mapped twice.
pub open spec fn fonts_unique(known: Seq<(BuiltinFont, usize)>) -> bool {
    forall|i: int, j: int|
        0 <= i < j < known.len() ==> #[trigger] known[i].0 != #[trigger] known[j].0
}

/// `f` already has an object.
pub open spec fn has_font(known: Seq<(BuiltinFont, usize)>, f: BuiltinFont) -> bool {
    exists|j: int| 0 <= j < known.len() && #[trigger] known[j].0 == f
}

/// The object ID that `f` is mapped to.
pub open spec fn font_object_id(known: Seq<(BuiltinFont, usize)>, f: BuiltinFont) -> usize {
    known[choose|j: int| 0 <= j < known.len() && #[trigger] known[j].0 == f].1
}

/// One entry of a page's font resources: the page-local name and the object.
pub open spec fn font_entry(n: nat, id: nat) -> Seq<u8> {
    font_ref_name(n) + " ".spec_bytes() + dec(id) + " 0 R ".spec_bytes()
}

/// The state after resolving some of a page's fonts.
pub struct FontStep {
    /// The document-wide map from font to object ID.
    pub known: Seq<(BuiltinFont, usize)>,
    /// The next object ID to be allocated.
    pub next: nat,
    /// The font objects written.
    pub written: Seq<u8>,
    /// The fonts whose objects were written, in order.
    pub written_fonts: Seq<BuiltinFont>,
    /// The page's font resource entries.
    pub resources: Seq<u8>,
}

/// Resolves a page's font references in order: a font that already has an
/// object reuses it, any other gets a new object with the next ID.
pub open spec fn font_steps(
    known: Seq<(BuiltinFont, usize)>,
    next: nat,
    refs: Seq<FontRef>,
) -> FontStep
    decreases refs.len(),
{
    if refs.len() == 0 {
        FontStep {
            known,
            next,
            written: Seq::empty(),
            written_fonts: Seq::empty(),
            resources: Seq::empty(),
        }
    } else {
        let p = font_steps(known, next, refs.drop_last());
        let r = refs.last();
        if has_font(p.known, r.font) {
            FontStep {
                known: p.known,
                next: p.next,
                written: p.written,
                written_fonts: p.written_fonts,
                resources: p.resources + font_entry(
                    r.n as nat,
                    font_object_id(p.known, r.font) as nat,
                ),
            }
        } else {
            FontStep {
                known: p.known.push((r.font, p.next as usize)),
                next: p.next + 1,
                written: p.written + object(p.next, font_body(r.font)),
                written_fonts: p.written_fonts.push(r.font),
                resources: p.resources + font_entry(r.n as nat, p.next),
            }
        }
    }
}

/// In a map without duplicates, the ID found at a matching index is the
/// font's ID.
pub proof fn lemma_font_object_id(known: Seq<(BuiltinFont, usize)>, j: int)
    requires
        fonts_unique(known),
        0 <= j < known.len(),
    ensures
        has_font(known, known[j].0),
        font_object_id(known, known[j].0) == known[j].1,
{
    let f = known[j].0;
    assert(known[j].0 == f);
    let k = choose|k: int| 0 <= k < known.len() && #[trigger] known[k].0 == f;
    if k < j {
        assert(known[k].0 != known[j].0);
    } else if k > j {
        assert(known[j].0 != known[k].0);
    }
}

/// What resolving a page's fonts does to the registry: the old map is kept
/// as a prefix, each written font is new and written once, and every font
/// of the page ends up mapped.
#[verifier::rlimit(40)]
pub proof fn lemma_font_steps(known: Seq<(BuiltinFont, usize)>, next: nat, refs: Seq<FontRef>)
    requires
        fonts_unique(known),
    ensures
        ({
            let s = font_steps(known, next, refs);
            &&& fonts_unique(s.known)
            &&& s.known.len() == known.len() + s.written_fonts.len()
            &&& s.known.subrange(0, known.len() as int) == known
            &&& s.next == next + s.written_fonts.len()
            &&& s.written_fonts.len() <= refs.len()
            &&& forall|f: BuiltinFont|
                has_font(s.known, f) == (has_font(known, f) || s.written_fonts.contains(f))
            &&& forall|i: int|
                0 <= i < s.written_fonts.len() ==> !has_font(known, #[trigger] s.written_fonts[i])
            &&& forall|i: int, j: int|
                0 <= i < j < s.written_fonts.len() ==> #[trigger] s.written_fonts[i]
                    != #[trigger] s.written_fonts[j]
            &&& forall|i: int| 0 <= i < refs.len() ==> has_font(s.known, #[trigger] refs[i].font)
            &&& forall|f: BuiltinFont|
                has_font(known, f) ==> font_object_id(s.known, f) == font_object_id(known, f)
        }),
    decreases refs.len(),
{
    let s = font_steps(known, next, refs);
    if refs.len() == 0 {
        assert(known.subrange(0, known.len() as int) =~= known);
    } else {
        lemma_font_steps(known, next, refs.drop_last());
        let p = font_steps(known, next, refs.drop_last());
        let r = refs.last();
        if !has_font(p.known, r.font) {
            assert(s.known.subrange(0, known.len() as int) =~= p.known.subrange(
                0,
                known.len() as int,
            ));
            assert forall|i: int, j: int|
                0 <= i < j < s.known.len() implies #[trigger] s.known[i].0
                != #[trigger] s.known[j].0 by {
                if j == s.known.len() - 1 {
                    assert(p.known[i].0 == s.known[i].0);
                }
            }
            assert forall|f: BuiltinFont|
                has_font(s.known, f) == (has_font(known, f) || s.written_fonts.contains(f)) by {
                if has_font(s.known, f) {
                    let j = choose|j: int| 0 <= j < s.known.len() && #[trigger] s.known[j].0 == f;
                    if j < p.known.len() {
                        assert(p.known[j].0 == f);
                        if p.written_fonts.contains(f) {
                            let k = choose|k: int|
                                0 <= k < p.written_fonts.len() && p.written_fonts[k] == f;
                            assert(s.written_fonts[k] == f);
                        }
                    } else {
                        assert(s.written_fonts[s.written_fonts.len() - 1] == f);
                    }
                }
                if s.written_fonts.contains(f) {
                    let i = choose|i: int|
                        0 <= i < s.written_fonts.len() && s.written_fonts[i] == f;
                    if i == s.written_fonts.len() - 1 {
                        assert(s.known[s.known.len() - 1].0 == f);
                    } else {
                        assert(p.written_fonts.contains(f));
                        let j = choose|j: int| 0 <= j < p.known.len() && #[trigger] p.known[j].0 == f;
                        assert(s.known[j].0 == f);
                    }
                }
                if has_font(known, f) {
                    let j = choose|j: int| 0 <= j < known.len() && #[trigger] known[j].0 == f;
                    assert(p.known.subrange(0, known.len() as int)[j] == known[j]);
                    assert(s.known[j].0 == f);
                }
            }
            assert forall|i: int|
                0 <= i < s.written_fonts.len() implies !has_font(
                known,
                #[trigger] s.written_fonts[i],
            ) by {
                if i < p.written_fonts.len() {
                    assert(p.written_fonts[i] == s.written_fonts[i]);
                } else {
                    assert(!p.written_fonts.contains(r.font));
                }
            }
            assert forall|i: int, j: int|
                0 <= i < j < s.written_fonts.len() implies #[trigger] s.written_fonts[i]
                != #[trigger] s.written_fonts[j] by {
                if j == s.written_fonts.len() - 1 {
                    assert(p.written_fonts[i] == s.written_fonts[i]);
                    assert(p.written_fonts.contains(s.written_fonts[i]));
                }
            }
            assert(s.known[s.known.len() - 1].0 == r.font);
        }
        assert forall|i: int| 0 <= i < refs.len() implies has_font(
            s.known,
            #[trigger] refs[i].font,
        ) by {
            if i < refs.len() - 1 {
                assert(refs.drop_last()[i] == refs[i]);
                let f = refs[i].font;
                assert(has_font(p.known, f));
                let j = choose|j: int| 0 <= j < p.known.len() && #[trigger] p.known[j].0 == f;
                assert(s.known[j].0 == f);
            } else if !has_font(p.known, r.font) {
                assert(s.known[s.known.len() - 1].0 == r.font);
            }
        }
        assert forall|f: BuiltinFont| has_font(known, f) implies font_object_id(s.known, f)
            == font_object_id(known, f) by {
            let j = choose|j: int| 0 <= j < known.len() && #[trigger] known[j].0 == f;
            lemma_font_object_id(known, j);
            assert(s.known.subrange(0, known.len() as int)[j] == known[j]);
            assert(s.known[j] == known[j]);
            lemma_font_object_id(s.known, j);
        }
    }
}

/// A font used on two pages gets one object: the first page maps it, the
/// second page writes no object for it and refers to the same object ID.
pub proof fn lemma_font_dedup(
    known: Seq<(BuiltinFont, usize)>,
    next1: nat,
    page1: Seq<FontRef>,
    next2: nat,
    page2: Seq<FontRef>,
    f: BuiltinFont,
)
    requires
        fonts_unique(known),
        exists|i: int| 0 <= i < page1.len() && #[trigger] page1[i].font == f,
        exists|i: int| 0 <= i < page2.len() && #[trigger] page2[i].font == f,
    ensures
        ({
            let s1 = font_steps(known, next1, page1);
            let s2 = font_steps(s1.known, next2, page2);
            &&& has_font(s1.known, f)
            &&& !s2.written_fonts.contains(f)
            &&& font_object_id(s2.known, f) == font_object_id(s1.known, f)
            &&& has_font(known, f) == !s1.written_fonts.contains(f)
            &&& forall|i: int, j: int|
                0 <= i < j < s2.known.len() && #[trigger] s2.known[i].0 == f ==> #[trigger] s2.known[j].0 != f
        }),
{
    let s1 = font_steps(known, next1, page1);
    lemma_font_steps(known, next1, page1);
    lemma_font_steps(s1.known, next2, page2);
    let s2 = font_steps(s1.known, next2, page2);
    let i = choose|i: int| 0 <= i < page1.len() && #[trigger] page1[i].font == f;
    assert(has_font(s1.known, page1[i].font));
    if s2.written_fonts.contains(f) {
        let k = choose|k: int| 0 <= k < s2.written_fonts.len() && s2.written_fonts[k] == f;
        assert(!has_font(s1.known, s2.written_fonts[k]));
    }
    if s1.written_fonts.contains(f) {
        let k = choose|k: int| 0 <= k < s1.written_fonts.len() && s1.written_fonts[k] == f;
        assert(!has_font(known, s1.written_fonts[k]));
    }
}

} // verus!
