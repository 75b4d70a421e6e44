use accretion::graphics::{
    build_font_coverage, codepoints_for_text, coverage_from_parsed, font_covers, symbol_font_verdict, CoverageVerdict,
    FontCoverage, FontSlot,
};

fn be16(out: &mut Vec<u8>, v: u16) {
    out.extend_from_slice(&v.to_be_bytes());
}

fn be32(out: &mut Vec<u8>, v: u32) {
    out.extend_from_slice(&v.to_be_bytes());
}

/// A minimal TrueType font whose character map has one trimmed-table
/// subtable mapping `count` code points from `first`.
fn tiny_font(first: u16, count: u16) -> Vec<u8> {
    let mut head = Vec::new();
    be32(&mut head, 0x0001_0000); // version
    be32(&mut head, 0x0001_0000); // revision
    be32(&mut head, 0); // checksum adjustment
    be32(&mut head, 0x5F0F_3CF5); // magic
    be16(&mut head, 0); // flags
    be16(&mut head, 1000); // units per em
    head.extend_from_slice(&[0; 16]); // created, modified
    head.extend_from_slice(&[0; 8]); // bounding box
    be16(&mut head, 0); // mac style
    be16(&mut head, 8); // lowest ppem
    be16(&mut head, 2); // direction hint
    be16(&mut head, 0); // index to loc format
    be16(&mut head, 0); // glyph data format

    let mut hhea = Vec::new();
    be32(&mut hhea, 0x0001_0000);
    hhea.extend_from_slice(&[0; 30]);
    be16(&mut hhea, 1); // number of metrics

    let mut maxp = Vec::new();
    be32(&mut maxp, 0x0000_5000);
    be16(&mut maxp, count + 1);

    let mut cmap = Vec::new();
    be16(&mut cmap, 0); // version
    be16(&mut cmap, 1); // subtables
    be16(&mut cmap, 3); // platform: windows
    be16(&mut cmap, 1); // encoding: unicode BMP
    be32(&mut cmap, 12); // subtable offset
    be16(&mut cmap, 6); // format
    be16(&mut cmap, 10 + 2 * count); // length
    be16(&mut cmap, 0); // language
    be16(&mut cmap, first);
    be16(&mut cmap, count);
    for g in 1..=count {
        be16(&mut cmap, g);
    }

    let tables: [(&[u8; 4], Vec<u8>); 4] = [(b"cmap", cmap), (b"head", head), (b"hhea", hhea), (b"maxp", maxp)];
    let mut font = Vec::new();
    be32(&mut font, 0x0001_0000);
    be16(&mut font, tables.len() as u16);
    be16(&mut font, 0);
    be16(&mut font, 0);
    be16(&mut font, 0);
    let mut offset = 12 + 16 * tables.len() as u32;
    for (tag, data) in tables.iter() {
        font.extend_from_slice(*tag);
        be32(&mut font, 0);
        be32(&mut font, offset);
        be32(&mut font, data.len() as u32);
        offset += data.len() as u32;
    }
    for (_, data) in tables.iter() {
        font.extend_from_slice(data);
    }
    font
}

#[test]
fn codepoints_skip_selectors_and_joiners() {
    assert_eq!(codepoints_for_text("❤️"), vec![0x2764]);
    assert_eq!(codepoints_for_text("A\u{200D}B"), vec![0x41, 0x42]);
    assert_eq!(codepoints_for_text(""), Vec::<u32>::new());
}

#[test]
fn coverage_is_read_from_font_files() {
    let fonts = vec![
        (FontSlot::Game, Some(tiny_font(0x41, 3))),
        (FontSlot::Symbol1, None),
        (FontSlot::Emoji, Some(vec![1, 2, 3, 4])),
        (FontSlot::Unicode, Some(tiny_font(0x2764, 1))),
    ];
    let coverage = build_font_coverage(&fonts);
    assert_eq!(coverage.len(), 2);
    assert_eq!(coverage[0].font, FontSlot::Game);
    assert_eq!(coverage[0].codepoints, vec![0x41, 0x42, 0x43]);
    assert_eq!(coverage[1].font, FontSlot::Unicode);
    assert_eq!(coverage[1].codepoints, vec![0x2764]);
}

#[test]
fn verdicts_prefer_assigned_font() {
    let coverage = vec![
        FontCoverage { font: FontSlot::Game, codepoints: vec![0x41, 0x42] },
        FontCoverage { font: FontSlot::Symbol1, codepoints: vec![0x2764, 0x41] },
        FontCoverage { font: FontSlot::Emoji, codepoints: vec![0x1F680, 0x2764] },
    ];
    assert!(font_covers(&coverage[0].codepoints, &vec![0x42, 0x41]));
    assert!(!font_covers(&coverage[0].codepoints, &vec![0x43]));
    assert_eq!(symbol_font_verdict(&coverage, &vec![0x2764], FontSlot::Emoji), CoverageVerdict::Direct);
    assert_eq!(
        symbol_font_verdict(&coverage, &vec![0x2764], FontSlot::Game),
        CoverageVerdict::Substituted(FontSlot::Symbol1)
    );
    assert_eq!(
        symbol_font_verdict(&coverage, &vec![0x1F680], FontSlot::Unicode),
        CoverageVerdict::Substituted(FontSlot::Emoji)
    );
    assert_eq!(symbol_font_verdict(&coverage, &vec![0x2B9D], FontSlot::Symbol2), CoverageVerdict::Missing);
}

#[test]
fn unreadable_fonts_are_left_out_of_coverage() {
    let parsed = vec![
        (FontSlot::Symbol2, None),
        (FontSlot::Emoji, Some(vec![0x1F680])),
        (FontSlot::Game, Some(vec![])),
    ];
    let coverage = coverage_from_parsed(parsed);
    assert_eq!(coverage.len(), 2);
    assert_eq!((coverage[0].font, coverage[0].codepoints.clone()), (FontSlot::Emoji, vec![0x1F680]));
    assert_eq!((coverage[1].font, coverage[1].codepoints.len()), (FontSlot::Game, 0));
}
