use pdf_canvas::graphicsstate::{CapStyle, Color, JoinStyle};
use pdf_canvas::{BuiltinFont, Canvas, Pdf, TextObject};

const HEADER: &[u8] = b"%PDF-1.7\n%\xB5\xED\xAE\xFB\n";

fn find(hay: &[u8], needle: &[u8]) -> Option<usize> {
    hay.windows(needle.len()).position(|w| w == needle)
}

fn find_all(hay: &[u8], needle: &[u8]) -> Vec<usize> {
    hay.windows(needle.len())
        .enumerate()
        .filter(|(_, w)| *w == needle)
        .map(|(i, _)| i)
        .collect()
}

/// Object `id`, as found through the cross-reference section, up to its `endobj`.
fn object_text(out: &[u8], id: usize) -> String {
    let offs = xref_offsets(out);
    let start = offs[id];
    let end = start + find(&out[start..], b"endobj\n").unwrap();
    String::from_utf8_lossy(&out[start..end]).to_string()
}

fn startxref(out: &[u8]) -> usize {
    let s = String::from_utf8_lossy(out).to_string();
    let at = s.rfind("startxref\n").unwrap() + "startxref\n".len();
    let rest = &s[at..];
    rest[..rest.find('\n').unwrap()].parse().unwrap()
}

/// The offsets listed in the cross-reference section, index 0 included.
fn xref_offsets(out: &[u8]) -> Vec<usize> {
    let x = startxref(out);
    let s = String::from_utf8_lossy(&out[x..]).to_string();
    let mut lines = s.lines();
    assert_eq!(lines.next(), Some("xref"));
    let head = lines.next().unwrap();
    let count: usize = head.strip_prefix("0 ").unwrap().parse().unwrap();
    let mut offs = Vec::new();
    for _ in 0..count {
        let line = lines.next().unwrap();
        offs.push(line[..10].parse().unwrap());
    }
    offs
}

fn trailer_size(out: &[u8]) -> usize {
    let s = String::from_utf8_lossy(out).to_string();
    let at = s.rfind("<< /Size ").unwrap() + "<< /Size ".len();
    let rest = &s[at..];
    rest[..rest.find('\n').unwrap()].parse().unwrap()
}

fn hello_page() -> Canvas {
    let mut canvas = Canvas::new();
    canvas.rectangle(40, 194, 100, 26);
    canvas.stroke();
    let font = canvas.get_font(BuiltinFont::Times_Roman);
    let mut t = TextObject::new();
    t.set_font(&font, 24);
    t.pos(24, 200);
    t.show("Hello World!");
    canvas.text(&t);
    canvas
}

#[test]
fn end_to_end_one_page() {
    let mut doc = Pdf::new();
    doc.render_page(180, 240, hello_page());
    let out = doc.finish_with_date(None);
    assert!(out.starts_with(HEADER));
    // content stream 3, its length 4, font 5, page 6
    let content = object_text(&out, 3);
    assert!(content.starts_with("3 0 obj\n<< /Length 4 0 R >>\nstream\n"));
    let body_start = find(&out, b"stream\n").unwrap() + "stream\n".len();
    let body_end = find(&out, b"endstream\n").unwrap();
    let k = body_end - body_start;
    assert_eq!(object_text(&out, 4), format!("4 0 obj\n{}\n", k));
    let expected_body = "/DeviceRGB cs /DeviceRGB CS\n40 194 100 26 re\ns\nBT\n/F0 24 Tf\n24 200 Td\n(Hello World!) Tj\nET\n";
    assert_eq!(&out[body_start..body_end], expected_body.as_bytes());
    assert_eq!(
        object_text(&out, 5),
        "5 0 obj\n<< /Type /Font /Subtype /Type1 /BaseFont /Times-Roman /Encoding /WinAnsiEncoding >>\n"
    );
    assert_eq!(
        object_text(&out, 6),
        "6 0 obj\n<< /Type /Page\n   /Parent 2 0 R\n   /Resources << /Font << /F0 5 0 R >> >>\n   /MediaBox [ 0 0 180 240 ]\n   /Contents 3 0 R\n>>\n"
    );
    assert_eq!(
        object_text(&out, 2),
        "2 0 obj\n<< /Type /Pages\n   /Count 1\n   /Kids [ 6 0 R ]\n>>\n"
    );
    assert_eq!(object_text(&out, 1), "1 0 obj\n<< /Type /Catalog\n   /Pages 2 0 R\n>>\n");
    assert_eq!(find_all(&out, b"/Type /Font").len(), 1);
    assert_eq!(xref_offsets(&out).len(), 7);
    assert_eq!(trailer_size(&out), 7);
    let x = startxref(&out);
    assert!(out[x..].starts_with(b"xref\n0 7\n0000000000 65535 f \n"));
    assert!(out.ends_with(b"%%EOF\n"));
}

#[test]
fn finish_without_pages() {
    let doc = Pdf::new();
    let out = doc.finish_with_date(None);
    let pages = "2 0 obj\n<< /Type /Pages\n   /Count 0\n   /Kids [ ]\n>>\nendobj\n";
    let catalog = "1 0 obj\n<< /Type /Catalog\n   /Pages 2 0 R\n>>\nendobj\n";
    let p = HEADER.len();
    let c = p + pages.len();
    let x = c + catalog.len();
    let mut expected = HEADER.to_vec();
    expected.extend_from_slice(pages.as_bytes());
    expected.extend_from_slice(catalog.as_bytes());
    expected.extend_from_slice(
        format!(
            "xref\n0 3\n0000000000 65535 f \n{:010} 00000 n \n{:010} 00000 n \ntrailer\n<< /Size 3\n   /Root 1 0 R\n>>\nstartxref\n{}\n%%EOF\n",
            c, p, x
        )
        .as_bytes(),
    );
    assert_eq!(out, expected);
    assert!(find(&out, b"/Outlines").is_none());
    assert!(find(&out, b"/Info").is_none());
}

#[test]
fn one_outline_item() {
    let mut doc = Pdf::new();
    let mut canvas = Canvas::new();
    canvas.add_outline("Chapter");
    doc.render_page(100, 100, canvas);
    let out = doc.finish_with_date(None);
    // content 3, length 4, page 5, outline root 6, entry 7
    assert_eq!(
        object_text(&out, 7),
        "7 0 obj\n<< /Title (Chapter)\n   /Parent 6 0 R\n   /Dest [5 0 R /XYZ null null null]\n>>\n"
    );
    assert_eq!(
        object_text(&out, 6),
        "6 0 obj\n<< /Type /Outlines\n   /First 7 0 R\n   /Last 7 0 R\n   /Count 1\n>>\n"
    );
    assert_eq!(
        object_text(&out, 1),
        "1 0 obj\n<< /Type /Catalog\n   /Pages 2 0 R\n/Outlines 6 0 R\n>>\n"
    );
    assert_eq!(find_all(&out, b"/Title (").len(), 1);
    assert_eq!(trailer_size(&out), 8);
}

#[test]
fn outline_chain_links_neighbours() {
    let mut doc = Pdf::new();
    let mut first = Canvas::new();
    first.add_outline("A");
    first.add_outline("B");
    doc.render_page(10, 10, first);
    let mut second = Canvas::new();
    second.add_outline("C");
    doc.render_page(10, 10, second);
    let out = doc.finish_with_date(None);
    // page 1: 3, 4, page 5; page 2: 6, 7, page 8; root 9; entries 10, 11, 12
    let a = object_text(&out, 10);
    let b = object_text(&out, 11);
    let c = object_text(&out, 12);
    assert!(!a.contains("/Prev"));
    assert!(a.contains("/Next 11 0 R\n"));
    assert!(a.contains("/Dest [5 0 R"));
    assert!(b.contains("/Prev 10 0 R\n") && b.contains("/Next 12 0 R\n"));
    assert!(b.contains("/Dest [5 0 R"));
    assert!(c.contains("/Prev 11 0 R\n") && !c.contains("/Next"));
    assert!(c.contains("/Dest [8 0 R"));
    for e in [&a, &b, &c] {
        assert!(e.contains("/Parent 9 0 R\n"));
    }
    assert_eq!(
        object_text(&out, 9),
        "9 0 obj\n<< /Type /Outlines\n   /First 10 0 R\n   /Last 12 0 R\n   /Count 3\n>>\n"
    );
}

#[test]
fn font_written_once_across_pages() {
    let mut doc = Pdf::new();
    let mut first = Canvas::new();
    let f1 = first.get_font(BuiltinFont::Helvetica);
    doc.render_page(10, 10, first);
    let mut second = Canvas::new();
    let _other = second.get_font(BuiltinFont::Courier);
    let f2 = second.get_font(BuiltinFont::Helvetica);
    doc.render_page(10, 10, second);
    assert_eq!(f1.n, 0);
    assert_eq!(f2.n, 1);
    let out = doc.finish_with_date(None);
    assert_eq!(find_all(&out, b"/BaseFont /Helvetica ").len(), 1);
    assert_eq!(find_all(&out, b"/BaseFont /Courier ").len(), 1);
    // page 1: 3, 4, font 5, page 6; page 2: 7, 8, Courier 9, page 10
    assert!(object_text(&out, 6).contains("/Font << /F0 5 0 R >>"));
    assert!(object_text(&out, 10).contains("/Font << /F0 9 0 R /F1 5 0 R >>"));
}

#[test]
fn same_font_twice_on_a_page() {
    let mut canvas = Canvas::new();
    let a = canvas.get_font(BuiltinFont::Times_Bold);
    let b = canvas.get_font(BuiltinFont::Symbol);
    let c = canvas.get_font(BuiltinFont::Times_Bold);
    assert_eq!(a, c);
    assert_eq!(a.n, 0);
    assert_eq!(b.n, 1);
}

#[test]
fn xref_offsets_point_at_headers() {
    let mut doc = Pdf::new();
    doc.set_title("T");
    doc.render_page(180, 240, hello_page());
    let mut canvas = hello_page();
    canvas.add_outline("x");
    doc.render_page(50, 60, canvas);
    let out = doc.finish_with_date(Some("20240101000000+0000"));
    let offs = xref_offsets(&out);
    let x = startxref(&out);
    assert_eq!(offs.len(), trailer_size(&out));
    for (id, off) in offs.iter().enumerate().skip(1) {
        let header = format!("{} 0 obj", id);
        assert!(out[*off..].starts_with(header.as_bytes()), "object {}", id);
        assert!(*off < x);
    }
    assert!(out[x..].starts_with(b"xref\n"));
}

#[test]
fn xref_size_counts_every_object() {
    let mut doc = Pdf::new();
    for _ in 0..4 {
        doc.render_page(10, 10, Canvas::new());
    }
    // three objects per page after the reserved IDs 0, 1 and 2
    assert_eq!(doc.object_count(), 15);
    let out = doc.finish_with_date(None);
    assert_eq!(trailer_size(&out), 15);
    assert_eq!(xref_offsets(&out).len(), 15);
    assert_eq!(object_text(&out, 2), "2 0 obj\n<< /Type /Pages\n   /Count 4\n   /Kids [ 5 0 R 8 0 R 11 0 R 14 0 R ]\n>>\n");
}

#[test]
fn length_object_follows_stream() {
    let mut doc = Pdf::new();
    let mut canvas = Canvas::new();
    canvas.move_to(-5, 7);
    canvas.line_to(10, -20);
    canvas.fill();
    doc.render_page(10, 10, canvas);
    let out = doc.finish_with_date(None);
    let stream = "/DeviceRGB cs /DeviceRGB CS\n-5 7 m 10 -20 l f\n";
    assert_eq!(
        object_text(&out, 3),
        format!("3 0 obj\n<< /Length 4 0 R >>\nstream\n{}endstream\n", stream)
    );
    assert_eq!(object_text(&out, 4), format!("4 0 obj\n{}\n", stream.len()));
}

#[test]
fn empty_page_length() {
    let mut doc = Pdf::new();
    doc.render_page(1, 1, Canvas::new());
    let out = doc.finish_with_date(None);
    assert_eq!(object_text(&out, 4), "4 0 obj\n28\n");
    assert_eq!(
        object_text(&out, 5),
        "5 0 obj\n<< /Type /Page\n   /Parent 2 0 R\n   /Resources << /Font << >> >>\n   /MediaBox [ 0 0 1 1 ]\n   /Contents 3 0 R\n>>\n"
    );
}

#[test]
fn metadata_object() {
    let mut doc = Pdf::new();
    doc.set_title("Report");
    doc.set_author("Ann");
    doc.set_subject("Sums");
    doc.set_keywords("a, b");
    doc.set_creator("ed");
    doc.set_producer("lib");
    doc.set_title("Final report");
    let out = doc.finish_with_date(Some("20240102030405+0100"));
    // info 3
    assert_eq!(
        object_text(&out, 3),
        "3 0 obj\n<< /Author (Ann)\n /Creator (ed)\n /Keywords (a, b)\n /Producer (lib)\n /Subject (Sums)\n /Title (Final report)\n /CreationDate (D:20240102030405+0100)\n /ModDate (D:20240102030405+0100)>>\n"
    );
    assert!(find(&out, b"   /Info 3 0 R\n").is_some());
    assert_eq!(trailer_size(&out), 4);
}

#[test]
fn metadata_without_date() {
    let mut doc = Pdf::new();
    doc.set_keywords("k");
    let out = doc.finish_with_date(None);
    assert_eq!(object_text(&out, 3), "3 0 obj\n<< /Keywords (k)\n>>\n");
    assert!(find(&out, b"/Subject").is_none());
}

#[test]
fn finish_dates_the_info_object() {
    let mut doc = Pdf::new();
    doc.set_title("Now");
    let out = doc.finish();
    let info = object_text(&out, 3);
    assert!(info.starts_with("3 0 obj\n<< /Title (Now)\n"));
    if let Some(at) = info.find(" /CreationDate (D:") {
        let date = &info[at + " /CreationDate (D:".len()..];
        assert!(date.len() >= 14);
        assert!(date[..14].bytes().all(|b| b.is_ascii_digit()));
    }
}

#[test]
fn text_is_escaped() {
    let mut canvas = Canvas::new();
    let font = canvas.get_font(BuiltinFont::Courier);
    let mut t = TextObject::new();
    t.set_font(&font, 12);
    t.show("a(b)c\\d é");
    canvas.text(&t);
    let mut doc = Pdf::new();
    doc.render_page(10, 10, canvas);
    let out = doc.finish_with_date(None);
    assert!(find(&out, b"BT\n/F0 12 Tf\n(a\\(b\\)c\\\\d ??) Tj\nET\n").is_some());
}

#[test]
fn raw_operators_and_lines() {
    let mut canvas = Canvas::new();
    canvas.append_raw("0.5 g\n");
    canvas.line(0, 0, 3, 4);
    canvas.stroke();
    let mut doc = Pdf::new();
    doc.render_page(10, 10, canvas);
    let out = doc.finish_with_date(None);
    assert!(find(&out, b"stream\n/DeviceRGB cs /DeviceRGB CS\n0.5 g\n0 0 m 3 4 l s\nendstream\n").is_some());
}

#[test]
fn symbol_fonts_keep_their_encoding() {
    let mut canvas = Canvas::new();
    canvas.get_font(BuiltinFont::ZapfDingbats);
    canvas.get_font(BuiltinFont::Symbol);
    let mut doc = Pdf::new();
    doc.render_page(10, 10, canvas);
    let out = doc.finish_with_date(None);
    assert!(object_text(&out, 5).contains("/BaseFont /ZapfDingbats /Encoding /ZapfDingbatsEncoding >>"));
    assert!(object_text(&out, 6).contains("/BaseFont /Symbol /Encoding /SymbolEncoding >>"));
}

#[test]
fn colors() {
    assert_eq!(Color::rgb(1, 2, 3), Color::RGB { red: 1, green: 2, blue: 3 });
    assert_eq!(Color::gray(128), Color::Gray { gray: 128 });
    assert_ne!(JoinStyle::Miter, JoinStyle::Bevel);
    assert_ne!(CapStyle::Butt, CapStyle::Round);
}

#[test]
fn left_text_places_a_string() {
    let mut canvas = Canvas::new();
    canvas.get_font(BuiltinFont::Courier);
    canvas.left_text(10, -3, BuiltinFont::Helvetica_Bold, 9, "Hi");
    canvas.left_text(1, 2, BuiltinFont::Courier, 8, "x");
    let mut doc = Pdf::new();
    doc.render_page(20, 20, canvas);
    let out = doc.finish_with_date(None);
    assert!(find(&out, b"BT\n/F1 9 Tf\n10 -3 Td\n(Hi) Tj\nET\nBT\n/F0 8 Tf\n1 2 Td\n(x) Tj\nET\n").is_some());
    assert_eq!(find_all(&out, b"/Type /Font").len(), 2);
}
