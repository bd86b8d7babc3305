//! The built-in fonts and per-page references to them.

use vstd::prelude::*;
use vstd::string::StringSliceAdditionalSpecFns;
use crate::bytes::{dec, push_dec, push_str};

verus! {

/// The fourteen fonts that every PDF reader provides.
#[allow(non_camel_case_types)]
#[derive(Clone, Copy, Debug, PartialEq, Eq, Structural, Hash)]
pub enum BuiltinFont {
    Courier,
    Courier_Bold,
    Courier_Oblique,
    Courier_BoldOblique,
    Helvetica,
    Helvetica_Bold,
    Helvetica_Oblique,
    Helvetica_BoldOblique,
    Times_Roman,
    Times_Bold,
    Times_Italic,
    Times_BoldItalic,
    Symbol,
    ZapfDingbats,
}

/// The PostScript name of a built-in font.
pub open spec fn font_name(f: BuiltinFont) -> Seq<u8> {
    match f {
        BuiltinFont::Courier => "Courier".spec_bytes(),
        BuiltinFont::Courier_Bold => "Courier-Bold".spec_bytes(),
        BuiltinFont::Courier_Oblique => "Courier-Oblique".spec_bytes(),
        BuiltinFont::Courier_BoldOblique => "Courier-BoldOblique".spec_bytes(),
        BuiltinFont::Helvetica => "Helvetica".spec_bytes(),
        BuiltinFont::Helvetica_Bold => "Helvetica-Bold".spec_bytes(),
        BuiltinFont::Helvetica_Oblique => "Helvetica-Oblique".spec_bytes(),
        BuiltinFont::Helvetica_BoldOblique => "Helvetica-BoldOblique".spec_bytes(),
        BuiltinFont::Times_Roman => "Times-Roman".spec_bytes(),
        BuiltinFont::Times_Bold => "Times-Bold".spec_bytes(),
        BuiltinFont::Times_Italic => "Times-Italic".spec_bytes(),
        BuiltinFont::Times_BoldItalic => "Times-BoldItalic".spec_bytes(),
        BuiltinFont::Symbol => "Symbol".spec_bytes(),
        BuiltinFont::ZapfDingbats => "ZapfDingbats".spec_bytes(),
    }
}

/// The name of the encoding a built-in font is written with.
pub open spec fn encoding_name(f: BuiltinFont) -> Seq<u8> {
    match f {
        BuiltinFont::Symbol => "SymbolEncoding".spec_bytes(),
        BuiltinFont::ZapfDingbats => "ZapfDingbatsEncoding".spec_bytes(),
        _ => "WinAnsiEncoding".spec_bytes(),
    }
}

/// The dictionary of a font object.
pub open spec fn font_body(f: BuiltinFont) -> Seq<u8> {
    "<< /Type /Font /Subtype /Type1 /BaseFont /".spec_bytes() + font_name(f)
        + " /Encoding /".spec_bytes() + encoding_name(f) + " >>\n".spec_bytes()
}

impl BuiltinFont {
    /// The PostScript name of this font.
    pub fn pdf_name(&self) -> (r: &'static str)
        ensures
            r.spec_bytes() == font_name(*self),
    {
        match self {
            BuiltinFont::Courier => "Courier",
            BuiltinFont::Courier_Bold => "Courier-Bold",
            BuiltinFont::Courier_Oblique => "Courier-Oblique",
            BuiltinFont::Courier_BoldOblique => "Courier-BoldOblique",
            BuiltinFont::Helvetica => "Helvetica",
            BuiltinFont::Helvetica_Bold => "Helvetica-Bold",
            BuiltinFont::Helvetica_Oblique => "Helvetica-Oblique",
            BuiltinFont::Helvetica_BoldOblique => "Helvetica-BoldOblique",
            BuiltinFont::Times_Roman => "Times-Roman",
            BuiltinFont::Times_Bold => "Times-Bold",
            BuiltinFont::Times_Italic => "Times-Italic",
            BuiltinFont::Times_BoldItalic => "Times-BoldItalic",
            BuiltinFont::Symbol => "Symbol",
            BuiltinFont::ZapfDingbats => "ZapfDingbats",
        }
    }

    /// The name of the encoding this font is written with.
    pub fn encoding(&self) -> (r: &'static str)
        ensures
            r.spec_bytes() == encoding_name(*self),
    {
        match self {
            BuiltinFont::Symbol => "SymbolEncoding",
            BuiltinFont::ZapfDingbats => "ZapfDingbatsEncoding",
            _ => "WinAnsiEncoding",
        }
    }

    /// Appends the dictionary of this font's object.
    pub fn write_body(&self, out: &mut Vec<u8>)
        ensures
            final(out)@ == old(out)@ + font_body(*self),
    {
        let ghost start = out@;
        push_str(out, "<< /Type /Font /Subtype /Type1 /BaseFont /");
        push_str(out, self.pdf_name());
        push_str(out, " /Encoding /");
        push_str(out, self.encoding());
        push_str(out, " >>\n");
        assert(out@ =~= start + font_body(*self));
    }
}

/// A font as used on one page: the page-local index that names it in the
/// page's resources, and the font itself.
#[derive(Clone, Copy, Debug, PartialEq, Eq, Structural)]
pub struct FontRef {
    pub n: usize,
    pub font: BuiltinFont,
}

/// The page-local resource name of a font reference: `/F` and its index.
pub open spec fn font_ref_name(n: nat) -> Seq<u8> {
    "/F".spec_bytes() + dec(n)
}

impl FontRef {
    /// A reference with page-local index `n` to `font`.
    pub fn new(n: usize, font: BuiltinFont) -> (r: FontRef)
        ensures
            r == (FontRef { n, font }),
    {
        FontRef { n, font }
    }

    /// Appends the resource name of this reference.
    pub fn write_name(&self, out: &mut Vec<u8>)
        ensures
            final(out)@ == old(out)@ + font_ref_name(self.n as nat),
    {
        let ghost start = out@;
        push_str(out, "/F");
        push_dec(out, self.n as u64);
        assert(out@ =~= start + font_ref_name(self.n as nat));
    }
}

} // verus!
