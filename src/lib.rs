//! Writing PDF files: an append-only object store that numbers objects,
//! records their byte offsets, and ties them together with a
//! cross-reference table and trailer.

mod bytes;

pub use bytes::{dec, dec_signed, padded10, push_bytes, push_dec, push_padded10, push_signed, push_str};

pub mod graphicsstate;

mod font;
pub use font::{encoding_name, font_body, font_name, font_ref_name, BuiltinFont, FontRef};

mod outline;
pub use outline::{
    opt_nat, opt_ref, outline_item_body, outline_item_dest, outline_item_head, OutlineItem,
};

mod canvas;
pub use canvas::{escape_byte, escaped, point, Canvas, TextObject};

mod store;
pub use store::{
    has_header_at, lemma_offsets_extend, lemma_offsets_record, obj_footer, obj_header, object,
    offsets_ok, ObjectStore,
};

mod fonts;
pub use fonts::{
    font_entry, font_object_id, font_steps, fonts_unique, has_font, lemma_font_dedup,
    lemma_font_object_id, lemma_font_steps, FontStep,
};

mod page;
pub use page::{
    content_objects, content_prefix, extends, length_body, page_body, stream_body,
    write_content_stream, write_page_dict, write_page_fonts,
};

mod document;
pub use document::{
    document_objects, document_size, file_header, finished_document, info_key, info_object_id,
    outline_root_id, Pdf, AUTHOR, CREATOR, INFO_KEYS, KEYWORDS, PAGES_OBJECT_ID, PRODUCER,
    ROOT_OBJECT_ID, SUBJECT, TITLE,
};

mod trailer;
pub use trailer::{
    catalog_body, date_bytes, date_entries, finished_layout, has_info, info_body, info_entries,
    info_entry, info_view, kids, outline_item_id, outline_next, outline_objects, outline_prev,
    outline_root_body, outline_tree, outline_view, pages_body, trailer, write_catalog, write_info,
    write_outlines, write_pages_root, write_xref_and_trailer,
    xref_lines, xref_section,
};

mod clock;
pub use clock::timestamp;

mod laws;
pub use laws::{
    lemma_offsets_point_at_headers, lemma_outline_chain, lemma_two_pass_length,
    lemma_xref_precedes_startxref,
};
