//! Font coverage diagnostics: which fonts cover the code points of each UI
//! symbol, and which font a symbol will probably be drawn with.

use vstd::prelude::*;

verus! {

/// The fonts the game loads.
#[derive(Clone, Copy, Debug, PartialEq, Eq, Structural)]
pub enum FontSlot {
    Game,
    Symbol1,
    Symbol2,
    Unicode,
    Emoji,
}

/// The code points one font maps, as read from its character map.
#[derive(Clone, Debug)]
pub struct FontCoverage {
    pub font: FontSlot,
    pub codepoints: Vec<u32>,
}

/// How a symbol is drawn.
#[derive(Clone, Copy, Debug, PartialEq, Eq, Structural)]
pub enum CoverageVerdict {
    /// The assigned font covers every code point of the symbol.
    Direct,
    /// The assigned font does not; this font, the first that does, stands in.
    Substituted(FontSlot),
    /// No loaded font covers the symbol.
    Missing,
}

/// Variation selector 16, which only picks a presentation.
pub const VARIATION_SELECTOR_16: u32 = 0xFE0F;

/// The zero-width joiner, which only glues emoji together.
pub const ZERO_WIDTH_JOINER: u32 = 0x200D;

/// The code points of `s` that must be drawn: all but presentation selectors
/// and joiners.
pub open spec fn drawn_codepoints(s: Seq<char>) -> Seq<u32>
    decreases s.len(),
{
    if s.len() == 0 {
        Seq::empty()
    } else {
        let rest = drawn_codepoints(s.drop_last());
        let cp = s.last() as u32;
        if cp != VARIATION_SELECTOR_16 && cp != ZERO_WIDTH_JOINER {
            rest.push(cp)
        } else {
            rest
        }
    }
}

/// The code points of `text` that a font must have to draw it.
pub fn codepoints_for_text(text: &str) -> (cps: Vec<u32>)
    ensures
        cps@ == drawn_codepoints(text@),
{
    let n = text.unicode_len();
    let mut out: Vec<u32> = Vec::new();
    let mut i: usize = 0;
    while i < n
        invariant
            n == text@.len(),
            i <= n,
            out@ == drawn_codepoints(text@.subrange(0, i as int)),
        decreases n - i,
    {
        let c = text.get_char(i);
        let cp: u32 = c as u32;
        proof {
            assert(text@.subrange(0, i + 1).drop_last() =~= text@.subrange(0, i as int));
        }
        if cp != VARIATION_SELECTOR_16 && cp != ZERO_WIDTH_JOINER {
            out.push(cp);
        }
        i = i + 1;
    }
    proof {
        assert(text@.subrange(0, n as int) =~= text@);
    }
    out
}

/// The code points that the font in `bytes` maps, subtable by subtable, or
/// `None` when the font or its character map cannot be read.
pub uninterp spec fn font_codepoint_list(bytes: Seq<u8>) -> Option<Seq<u32>>;

fn push_codepoint(out: &mut Vec<u32>, cp: u32)
    ensures
        final(out)@ == old(out)@.push(cp),
{
    out.push(cp);
}

/// Parses the font in `bytes` with `ttf_parser::Face::parse` (face 0) and
/// lists the code points of every subtable of its character map through
/// `cmap::Subtable::codepoints`, giving `None` when the face does not parse or
/// has no `cmap` table. Claimed: the result is a function of the bytes alone,
/// named `font_codepoint_list`; nothing more is claimed about which code
/// points a given font yields.
#[verifier::external_body]
fn load_font_codepoints(bytes: &[u8]) -> (cps: Option<Vec<u32>>)
    ensures
        match cps {
            Some(v) => font_codepoint_list(bytes@) == Some(v@),
            None => font_codepoint_list(bytes@) is None,
        },
{
    let face = ttf_parser::Face::parse(bytes, 0).ok()?;
    let cmap = face.tables().cmap?;
    let mut out: Vec<u32> = Vec::new();
    for subtable in cmap.subtables {
        subtable.codepoints(|cp| push_codepoint(&mut out, cp));
    }
    Some(out)
}

/// The plain view of a coverage list.
pub open spec fn coverage_view(c: Seq<FontCoverage>) -> Seq<(FontSlot, Seq<u32>)> {
    Seq::new(c.len(), |i: int| (c[i].font, c[i].codepoints@))
}

/// The plain view of a list of font files.
pub open spec fn font_files_view(f: Seq<(FontSlot, Option<Vec<u8>>)>) -> Seq<(FontSlot, Option<Seq<u8>>)> {
    Seq::new(
        f.len(),
        |i: int|
            (
                f[i].0,
                match f[i].1 {
                    Some(b) => Some(b@),
                    None => None,
                },
            ),
    )
}

/// The coverage of the fonts whose code points could be read, in the order
/// given; `None` stands for a font that could not be read or parsed.
pub open spec fn coverage_from(parsed: Seq<(FontSlot, Option<Seq<u32>>)>) -> Seq<(FontSlot, Seq<u32>)>
    decreases parsed.len(),
{
    if parsed.len() == 0 {
        Seq::empty()
    } else {
        let rest = coverage_from(parsed.drop_last());
        match parsed.last().1 {
            Some(cps) => rest.push((parsed.last().0, cps)),
            None => rest,
        }
    }
}

/// The code points parsed from each font file, or `None` where a file could
/// not be read or parsed.
pub open spec fn parsed_fonts(fonts: Seq<(FontSlot, Option<Seq<u8>>)>) -> Seq<(FontSlot, Option<Seq<u32>>)> {
    Seq::new(
        fonts.len(),
        |i: int|
            (
                fonts[i].0,
                match fonts[i].1 {
                    Some(b) => font_codepoint_list(b),
                    None => None,
                },
            ),
    )
}

/// The plain view of a list of parse results.
pub open spec fn parsed_view(p: Seq<(FontSlot, Option<Vec<u32>>)>) -> Seq<(FontSlot, Option<Seq<u32>>)> {
    Seq::new(
        p.len(),
        |i: int|
            (
                p[i].0,
                match p[i].1 {
                    Some(v) => Some(v@),
                    None => None,
                },
            ),
    )
}

/// Keeps the fonts whose code points could be read, in the order given.
pub fn coverage_from_parsed(parsed: Vec<(FontSlot, Option<Vec<u32>>)>) -> (coverage: Vec<FontCoverage>)
    ensures
        coverage_view(coverage@) == coverage_from(parsed_view(parsed@)),
{
    let ghost whole = parsed_view(parsed@);
    let mut rest = parsed;
    let mut out: Vec<FontCoverage> = Vec::new();
    let n = rest.len();
    let mut i: usize = 0;
    while i < n
        invariant
            i <= n,
            n == whole.len(),
            rest@.len() == n - i,
            parsed_view(rest@) == whole.subrange(i as int, n as int),
            coverage_view(out@) == coverage_from(whole.subrange(0, i as int)),
        decreases n - i,
    {
        proof {
            assert(whole.subrange(0, i + 1).drop_last() =~= whole.subrange(0, i as int));
        }
        let ghost before = out@;
        let ghost old_rest = rest@;
        let (font, cps) = rest.remove(0);
        proof {
            assert(rest@ =~= old_rest.subrange(1, old_rest.len() as int));
            assert forall|k: int| 0 <= k < rest@.len() implies parsed_view(rest@)[k] == whole.subrange(
                i + 1,
                n as int,
            )[k] by {
                assert(parsed_view(old_rest)[k + 1] == whole.subrange(i as int, n as int)[k + 1]);
            }
            assert(parsed_view(rest@) =~= whole.subrange(i + 1, n as int));
            assert(parsed_view(old_rest)[0] == whole[i as int]);
        }
        match cps {
            Some(v) => {
                out.push(FontCoverage { font, codepoints: v });
                proof {
                    assert(coverage_view(out@) =~= coverage_view(before).push(
                        (font, out@[out@.len() - 1].codepoints@),
                    ));
                }
            },
            None => {},
        }
        i = i + 1;
    }
    proof {
        assert(whole.subrange(0, n as int) =~= whole);
    }
    out
}

/// Parses each font file that could be read and keeps those that parse.
pub fn build_font_coverage(fonts: &Vec<(FontSlot, Option<Vec<u8>>)>) -> (coverage: Vec<FontCoverage>)
    ensures
        coverage_view(coverage@) == coverage_from(parsed_fonts(font_files_view(fonts@))),
{
    let mut parsed: Vec<(FontSlot, Option<Vec<u32>>)> = Vec::new();
    let mut i: usize = 0;
    while i < fonts.len()
        invariant
            i <= fonts@.len(),
            parsed@.len() == i,
            parsed_view(parsed@) == parsed_fonts(font_files_view(fonts@)).subrange(0, i as int),
        decreases fonts@.len() - i,
    {
        let ghost before = parsed@;
        let ghost expected = parsed_fonts(font_files_view(fonts@))[i as int].1;
        let cps: Option<Vec<u32>> = match &fonts[i].1 {
            Some(bytes) => {
                let r = load_font_codepoints(bytes.as_slice());
                proof {
                    assert(font_files_view(fonts@)[i as int].1 == Some(bytes@));
                    assert(match r {
                        Some(v) => Some(v@),
                        None => None,
                    } == expected);
                }
                r
            },
            None => {
                proof {
                    assert(font_files_view(fonts@)[i as int].1 is None);
                }
                None
            },
        };
        parsed.push((fonts[i].0, cps));
        proof {
            let target = parsed_fonts(font_files_view(fonts@));
            assert(font_files_view(fonts@)[i as int].0 == fonts@[i as int].0);
            assert(parsed_view(parsed@)[i as int] == target[i as int]);
            assert forall|k: int| 0 <= k < i implies parsed_view(parsed@)[k] == target[k] by {
                assert(parsed@[k] == before[k]);
                assert(parsed_view(before)[k] == target.subrange(0, i as int)[k]);
            }
            assert(parsed_view(parsed@) =~= parsed_fonts(font_files_view(fonts@)).subrange(0, i + 1));
        }
        i = i + 1;
    }
    proof {
        assert(parsed_fonts(font_files_view(fonts@)).subrange(0, fonts@.len() as int) =~= parsed_fonts(
            font_files_view(fonts@),
        ));
    }
    coverage_from_parsed(parsed)
}

/// Whether every code point of `needed` is in `cps`.
pub open spec fn covers(cps: Seq<u32>, needed: Seq<u32>) -> bool {
    forall|i: int| 0 <= i < needed.len() ==> cps.contains(#[trigger] needed[i])
}

/// The position of the first entry of `coverage` for `font`, or the length
/// when there is none.
pub open spec fn first_of_font(coverage: Seq<(FontSlot, Seq<u32>)>, font: FontSlot) -> int
    decreases coverage.len(),
{
    if coverage.len() == 0 {
        0
    } else if coverage[0].0 == font {
        0
    } else {
        1 + first_of_font(coverage.drop_first(), font)
    }
}

/// The position of the first entry of `coverage` that covers `needed`, or
/// the length when there is none.
pub open spec fn first_covering(coverage: Seq<(FontSlot, Seq<u32>)>, needed: Seq<u32>) -> int
    decreases coverage.len(),
{
    if coverage.len() == 0 {
        0
    } else if covers(coverage[0].1, needed) {
        0
    } else {
        1 + first_covering(coverage.drop_first(), needed)
    }
}

/// How a symbol whose code points are `needed` is drawn when assigned to
/// `assigned`: directly when the assigned font's (first) entry covers it,
/// else by the first font that covers it, else not at all.
pub open spec fn verdict_for(coverage: Seq<(FontSlot, Seq<u32>)>, needed: Seq<u32>, assigned: FontSlot) -> CoverageVerdict {
    let a = first_of_font(coverage, assigned);
    let f = first_covering(coverage, needed);
    if a < coverage.len() && covers(coverage[a].1, needed) {
        CoverageVerdict::Direct
    } else if f < coverage.len() {
        CoverageVerdict::Substituted(coverage[f].0)
    } else {
        CoverageVerdict::Missing
    }
}

proof fn lemma_first_of_font_step(coverage: Seq<(FontSlot, Seq<u32>)>, i: int, font: FontSlot)
    requires
        0 <= i < coverage.len(),
        forall|j: int| 0 <= j < i ==> coverage[j].0 != font,
    ensures
        first_of_font(coverage, font) == i + first_of_font(coverage.subrange(i, coverage.len() as int), font),
    decreases i,
{
    if i > 0 {
        let rest = coverage.drop_first();
        assert(rest.subrange(i - 1, rest.len() as int) =~= coverage.subrange(i, coverage.len() as int));
        lemma_first_of_font_step(rest, i - 1, font);
    } else {
        assert(coverage.subrange(0, coverage.len() as int) =~= coverage);
    }
}

proof fn lemma_first_covering_step(coverage: Seq<(FontSlot, Seq<u32>)>, i: int, needed: Seq<u32>)
    requires
        0 <= i < coverage.len(),
        forall|j: int| 0 <= j < i ==> !covers(#[trigger] coverage[j].1, needed),
    ensures
        first_covering(coverage, needed) == i + first_covering(
            coverage.subrange(i, coverage.len() as int),
            needed,
        ),
    decreases i,
{
    if i > 0 {
        let rest = coverage.drop_first();
        assert(rest.subrange(i - 1, rest.len() as int) =~= coverage.subrange(i, coverage.len() as int));
        assert forall|j: int| 0 <= j < i - 1 implies !covers(#[trigger] rest[j].1, needed) by {
            assert(rest[j] == coverage[j + 1]);
        }
        lemma_first_covering_step(rest, i - 1, needed);
    } else {
        assert(coverage.subrange(0, coverage.len() as int) =~= coverage);
    }
}

proof fn lemma_first_of_font_none(coverage: Seq<(FontSlot, Seq<u32>)>, font: FontSlot)
    requires
        forall|j: int| 0 <= j < coverage.len() ==> coverage[j].0 != font,
    ensures
        first_of_font(coverage, font) == coverage.len(),
    decreases coverage.len(),
{
    if coverage.len() > 0 {
        let rest = coverage.drop_first();
        assert forall|j: int| 0 <= j < rest.len() implies rest[j].0 != font by {
            assert(rest[j] == coverage[j + 1]);
        }
        lemma_first_of_font_none(rest, font);
    }
}

proof fn lemma_first_covering_none(coverage: Seq<(FontSlot, Seq<u32>)>, needed: Seq<u32>)
    requires
        forall|j: int| 0 <= j < coverage.len() ==> !covers(#[trigger] coverage[j].1, needed),
    ensures
        first_covering(coverage, needed) == coverage.len(),
    decreases coverage.len(),
{
    if coverage.len() > 0 {
        let rest = coverage.drop_first();
        assert forall|j: int| 0 <= j < rest.len() implies !covers(#[trigger] rest[j].1, needed) by {
            assert(rest[j] == coverage[j + 1]);
        }
        lemma_first_covering_none(rest, needed);
    }
}

/// Whether the code points `cps` include every one of `needed`.
pub fn font_covers(cps: &Vec<u32>, needed: &Vec<u32>) -> (covered: bool)
    ensures
        covered == covers(cps@, needed@),
{
    let mut i: usize = 0;
    while i < needed.len()
        invariant
            i <= needed@.len(),
            forall|k: int| 0 <= k < i ==> cps@.contains(#[trigger] needed@[k]),
        decreases needed@.len() - i,
    {
        let cp = needed[i];
        let mut j: usize = 0;
        let mut found = false;
        while j < cps.len() && !found
            invariant
                j <= cps@.len(),
                found ==> cps@.contains(cp),
                !found ==> forall|k: int| 0 <= k < j ==> cps@[k] != cp,
            decreases cps@.len() - j,
        {
            if cps[j] == cp {
                found = true;
                proof {
                    assert(cps@[j as int] == cp);
                }
            }
            j = j + 1;
        }
        if !found {
            proof {
                assert(!cps@.contains(cp));
            }
            return false;
        }
        i = i + 1;
    }
    true
}

/// How the symbol with code points `needed`, assigned to `assigned`, is drawn
/// with the fonts of `coverage`.
pub fn symbol_font_verdict(coverage: &Vec<FontCoverage>, needed: &Vec<u32>, assigned: FontSlot) -> (verdict: CoverageVerdict)
    ensures
        verdict == verdict_for(coverage_view(coverage@), needed@, assigned),
{
    let ghost view = coverage_view(coverage@);
    let n = coverage.len();
    let mut a: usize = 0;
    while a < n && coverage[a].font != assigned
        invariant
            n == coverage@.len(),
            view == coverage_view(coverage@),
            a <= n,
            forall|j: int| 0 <= j < a ==> view[j].0 != assigned,
        decreases n - a,
    {
        a = a + 1;
    }
    proof {
        if a < n {
            lemma_first_of_font_step(view, a as int, assigned);
        } else {
            lemma_first_of_font_none(view, assigned);
        }
    }
    if a < n && font_covers(&coverage[a].codepoints, needed) {
        return CoverageVerdict::Direct;
    }
    let mut f: usize = 0;
    while f < n && !font_covers(&coverage[f].codepoints, needed)
        invariant
            n == coverage@.len(),
            view == coverage_view(coverage@),
            f <= n,
            forall|j: int| 0 <= j < f ==> !covers(#[trigger] view[j].1, needed@),
        decreases n - f,
    {
        f = f + 1;
    }
    proof {
        if f < n {
            lemma_first_covering_step(view, f as int, needed@);
        } else {
            lemma_first_covering_none(view, needed@);
        }
    }
    if f < n {
        CoverageVerdict::Substituted(coverage[f].font)
    } else {
        CoverageVerdict::Missing
    }
}

} // verus!
