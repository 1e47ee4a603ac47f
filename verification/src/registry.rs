//! The extension registry: the recognized extensions grouped by the
//! conversion strategy that handles them, and the list of every extension
//! the pipeline will attempt to convert.

use crate::casefold::lower;
use crate::ext::{lemma_table_chars, parse_spec};
use vstd::prelude::*;

verus! {

/// The generic-raster group: extensions handled by a standard bitmap codec.
pub open spec fn generic_extension_strs() -> Seq<Seq<char>> {
    seq![
        "bmp"@,
        "dib"@,
        "ff"@,
        "gif"@,
        "ico"@,
        "jpg"@,
        "jpeg"@,
        "png"@,
        "pnm"@,
        "qoi"@,
        "tga"@,
        "icb"@,
        "vda"@,
        "vst"@,
        "tiff"@,
        "tif"@,
        "webp"@,
    ]
}

/// The vector group: extensions rasterized at a computed target resolution.
pub open spec fn svg_extension_strs() -> Seq<Seq<char>> {
    seq!["svg"@, "svgz"@]
}

/// The document group: extensions rendered page by page at a fixed width.
pub open spec fn pdf_extension_strs() -> Seq<Seq<char>> {
    seq!["pdf"@]
}

/// The extended-raster group: extensions that need a specialized still-image
/// decoder, available only when the extended capability is enabled.
pub open spec fn heif_extension_strs() -> Seq<Seq<char>> {
    seq!["heif"@, "heifs"@, "heic"@, "heics"@, "avif"@, "avci"@, "avcs"@]
}

/// The extensions the pipeline will attempt to convert: the generic-raster
/// group, then — when the extended capability is enabled — the
/// extended-raster group, then the vector group.
pub open spec fn all_compatible_spec(heif_enabled: bool) -> Seq<Seq<char>> {
    if heif_enabled {
        generic_extension_strs() + heif_extension_strs() + svg_extension_strs()
    } else {
        generic_extension_strs() + svg_extension_strs()
    }
}

/// The generic-raster extensions, as owned lowercase strings.
pub fn generic_extensions() -> (v: Vec<String>)
    ensures
        v@.len() == generic_extension_strs().len(),
        forall|i: int| 0 <= i < v@.len() ==> v@[i]@ == generic_extension_strs()[i],
{
    let mut v: Vec<String> = Vec::new();
    v.push("bmp".to_owned());
    v.push("dib".to_owned());
    v.push("ff".to_owned());
    v.push("gif".to_owned());
    v.push("ico".to_owned());
    v.push("jpg".to_owned());
    v.push("jpeg".to_owned());
    v.push("png".to_owned());
    v.push("pnm".to_owned());
    v.push("qoi".to_owned());
    v.push("tga".to_owned());
    v.push("icb".to_owned());
    v.push("vda".to_owned());
    v.push("vst".to_owned());
    v.push("tiff".to_owned());
    v.push("tif".to_owned());
    v.push("webp".to_owned());
    v
}

/// The vector extensions, as owned lowercase strings.
pub fn svg_extensions() -> (v: Vec<String>)
    ensures
        v@.len() == svg_extension_strs().len(),
        forall|i: int| 0 <= i < v@.len() ==> v@[i]@ == svg_extension_strs()[i],
{
    let mut v: Vec<String> = Vec::new();
    v.push("svg".to_owned());
    v.push("svgz".to_owned());
    v
}

/// The document extensions, as owned lowercase strings.
pub fn pdf_extensions() -> (v: Vec<String>)
    ensures
        v@.len() == pdf_extension_strs().len(),
        forall|i: int| 0 <= i < v@.len() ==> v@[i]@ == pdf_extension_strs()[i],
{
    let mut v: Vec<String> = Vec::new();
    v.push("pdf".to_owned());
    v
}

/// The extended-raster extensions, as owned lowercase strings.
pub fn heif_extensions() -> (v: Vec<String>)
    ensures
        v@.len() == heif_extension_strs().len(),
        forall|i: int| 0 <= i < v@.len() ==> v@[i]@ == heif_extension_strs()[i],
{
    let mut v: Vec<String> = Vec::new();
    v.push("heif".to_owned());
    v.push("heifs".to_owned());
    v.push("heic".to_owned());
    v.push("heics".to_owned());
    v.push("avif".to_owned());
    v.push("avci".to_owned());
    v.push("avcs".to_owned());
    v
}

/// Every extension the pipeline will attempt to convert, as owned lowercase
/// strings: the generic-raster and vector groups, plus the extended-raster
/// group when `heif_enabled` holds. The document group is not included.
pub fn all_compatible_extensions(heif_enabled: bool) -> (v: Vec<String>)
    ensures
        v@.len() == all_compatible_spec(heif_enabled).len(),
        forall|i: int| 0 <= i < v@.len() ==> v@[i]@ == all_compatible_spec(heif_enabled)[i],
{
    let mut v = generic_extensions();
    if heif_enabled {
        let mut h = heif_extensions();
        v.append(&mut h);
    }
    let mut s = svg_extensions();
    v.append(&mut s);
    v
}

/// What membership in the generic-raster group means, spelling by spelling.
pub proof fn lemma_generic_contains(x: Seq<char>)
    ensures
        generic_extension_strs().contains(x) <==> (x == "bmp"@
            || x == "dib"@
            || x == "ff"@
            || x == "gif"@
            || x == "ico"@
            || x == "jpg"@
            || x == "jpeg"@
            || x == "png"@
            || x == "pnm"@
            || x == "qoi"@
            || x == "tga"@
            || x == "icb"@
            || x == "vda"@
            || x == "vst"@
            || x == "tiff"@
            || x == "tif"@
            || x == "webp"@),
{
    let g = generic_extension_strs();
    assert(g[0] == "bmp"@);
    assert(g[1] == "dib"@);
    assert(g[2] == "ff"@);
    assert(g[3] == "gif"@);
    assert(g[4] == "ico"@);
    assert(g[5] == "jpg"@);
    assert(g[6] == "jpeg"@);
    assert(g[7] == "png"@);
    assert(g[8] == "pnm"@);
    assert(g[9] == "qoi"@);
    assert(g[10] == "tga"@);
    assert(g[11] == "icb"@);
    assert(g[12] == "vda"@);
    assert(g[13] == "vst"@);
    assert(g[14] == "tiff"@);
    assert(g[15] == "tif"@);
    assert(g[16] == "webp"@);
    if g.contains(x) {
        let i = choose|i: int| 0 <= i < g.len() && g[i] == x;
        assert(x == "bmp"@
            || x == "dib"@
            || x == "ff"@
            || x == "gif"@
            || x == "ico"@
            || x == "jpg"@
            || x == "jpeg"@
            || x == "png"@
            || x == "pnm"@
            || x == "qoi"@
            || x == "tga"@
            || x == "icb"@
            || x == "vda"@
            || x == "vst"@
            || x == "tiff"@
            || x == "tif"@
            || x == "webp"@);
    }
    if x == "bmp"@ {
        assert(g.contains(x)) by { assert(g[0] == x); }
    }
    if x == "dib"@ {
        assert(g.contains(x)) by { assert(g[1] == x); }
    }
    if x == "ff"@ {
        assert(g.contains(x)) by { assert(g[2] == x); }
    }
    if x == "gif"@ {
        assert(g.contains(x)) by { assert(g[3] == x); }
    }
    if x == "ico"@ {
        assert(g.contains(x)) by { assert(g[4] == x); }
    }
    if x == "jpg"@ {
        assert(g.contains(x)) by { assert(g[5] == x); }
    }
    if x == "jpeg"@ {
        assert(g.contains(x)) by { assert(g[6] == x); }
    }
    if x == "png"@ {
        assert(g.contains(x)) by { assert(g[7] == x); }
    }
    if x == "pnm"@ {
        assert(g.contains(x)) by { assert(g[8] == x); }
    }
    if x == "qoi"@ {
        assert(g.contains(x)) by { assert(g[9] == x); }
    }
    if x == "tga"@ {
        assert(g.contains(x)) by { assert(g[10] == x); }
    }
    if x == "icb"@ {
        assert(g.contains(x)) by { assert(g[11] == x); }
    }
    if x == "vda"@ {
        assert(g.contains(x)) by { assert(g[12] == x); }
    }
    if x == "vst"@ {
        assert(g.contains(x)) by { assert(g[13] == x); }
    }
    if x == "tiff"@ {
        assert(g.contains(x)) by { assert(g[14] == x); }
    }
    if x == "tif"@ {
        assert(g.contains(x)) by { assert(g[15] == x); }
    }
    if x == "webp"@ {
        assert(g.contains(x)) by { assert(g[16] == x); }
    }
}

/// What membership in the vector group means, spelling by spelling.
pub proof fn lemma_svg_contains(x: Seq<char>)
    ensures
        svg_extension_strs().contains(x) <==> (x == "svg"@
            || x == "svgz"@),
{
    let g = svg_extension_strs();
    assert(g[0] == "svg"@);
    assert(g[1] == "svgz"@);
    if g.contains(x) {
        let i = choose|i: int| 0 <= i < g.len() && g[i] == x;
        assert(x == "svg"@
            || x == "svgz"@);
    }
    if x == "svg"@ {
        assert(g.contains(x)) by { assert(g[0] == x); }
    }
    if x == "svgz"@ {
        assert(g.contains(x)) by { assert(g[1] == x); }
    }
}

/// What membership in the document group means, spelling by spelling.
pub proof fn lemma_pdf_contains(x: Seq<char>)
    ensures
        pdf_extension_strs().contains(x) <==> (x == "pdf"@),
{
    let g = pdf_extension_strs();
    assert(g[0] == "pdf"@);
    if g.contains(x) {
        let i = choose|i: int| 0 <= i < g.len() && g[i] == x;
        assert(x == "pdf"@);
    }
    if x == "pdf"@ {
        assert(g.contains(x)) by { assert(g[0] == x); }
    }
}

/// What membership in the extended-raster group means, spelling by spelling.
pub proof fn lemma_heif_contains(x: Seq<char>)
    ensures
        heif_extension_strs().contains(x) <==> (x == "heif"@
            || x == "heifs"@
            || x == "heic"@
            || x == "heics"@
            || x == "avif"@
            || x == "avci"@
            || x == "avcs"@),
{
    let g = heif_extension_strs();
    assert(g[0] == "heif"@);
    assert(g[1] == "heifs"@);
    assert(g[2] == "heic"@);
    assert(g[3] == "heics"@);
    assert(g[4] == "avif"@);
    assert(g[5] == "avci"@);
    assert(g[6] == "avcs"@);
    if g.contains(x) {
        let i = choose|i: int| 0 <= i < g.len() && g[i] == x;
        assert(x == "heif"@
            || x == "heifs"@
            || x == "heic"@
            || x == "heics"@
            || x == "avif"@
            || x == "avci"@
            || x == "avcs"@);
    }
    if x == "heif"@ {
        assert(g.contains(x)) by { assert(g[0] == x); }
    }
    if x == "heifs"@ {
        assert(g.contains(x)) by { assert(g[1] == x); }
    }
    if x == "heic"@ {
        assert(g.contains(x)) by { assert(g[2] == x); }
    }
    if x == "heics"@ {
        assert(g.contains(x)) by { assert(g[3] == x); }
    }
    if x == "avif"@ {
        assert(g.contains(x)) by { assert(g[4] == x); }
    }
    if x == "avci"@ {
        assert(g.contains(x)) by { assert(g[5] == x); }
    }
    if x == "avcs"@ {
        assert(g.contains(x)) by { assert(g[6] == x); }
    }
}

/// The four groups are pairwise disjoint: no extension spelling belongs to
/// more than one conversion strategy.
pub proof fn lemma_groups_disjoint(x: Seq<char>)
    ensures
        !(generic_extension_strs().contains(x) && svg_extension_strs().contains(x)),
        !(generic_extension_strs().contains(x) && pdf_extension_strs().contains(x)),
        !(generic_extension_strs().contains(x) && heif_extension_strs().contains(x)),
        !(svg_extension_strs().contains(x) && pdf_extension_strs().contains(x)),
        !(svg_extension_strs().contains(x) && heif_extension_strs().contains(x)),
        !(pdf_extension_strs().contains(x) && heif_extension_strs().contains(x)),
{
    lemma_table_chars();
    lemma_generic_contains(x);
    lemma_svg_contains(x);
    lemma_pdf_contains(x);
    lemma_heif_contains(x);
}

/// Parsing recognizes exactly the registry's spellings: it succeeds
/// precisely when the folded input is in the generic-raster, vector or
/// document group, or in the extended-raster group with that capability
/// enabled.
pub proof fn lemma_parse_closure(s: Seq<char>, heif_enabled: bool)
    ensures
        parse_spec(s, heif_enabled) is Some <==> (generic_extension_strs().contains(lower(s))
            || svg_extension_strs().contains(lower(s))
            || pdf_extension_strs().contains(lower(s))
            || (heif_enabled && heif_extension_strs().contains(lower(s)))),
{
    lemma_generic_contains(lower(s));
    lemma_svg_contains(lower(s));
    lemma_pdf_contains(lower(s));
    lemma_heif_contains(lower(s));
}

/// The registry is complete: it lists exactly the generic-raster and vector
/// extensions, together with the extended-raster extensions when that
/// capability is enabled — 19 or 26 spellings respectively.
pub proof fn lemma_registry_completeness(heif_enabled: bool)
    ensures
        all_compatible_spec(heif_enabled).len() == if heif_enabled {
            26int
        } else {
            19int
        },
        forall|x: Seq<char>|
            all_compatible_spec(heif_enabled).contains(x) <==> (
            generic_extension_strs().contains(x) || svg_extension_strs().contains(x) || (
            heif_enabled && heif_extension_strs().contains(x))),
{
    let a = all_compatible_spec(heif_enabled);
    assert forall|x: Seq<char>|
        a.contains(x) <==> (generic_extension_strs().contains(x)
            || svg_extension_strs().contains(x) || (heif_enabled
            && heif_extension_strs().contains(x))) by {
        lemma_concat_contains(x, heif_enabled);
    }
}

/// Membership in the registry list, reduced to membership in its groups.
proof fn lemma_concat_contains(x: Seq<char>, heif_enabled: bool)
    ensures
        all_compatible_spec(heif_enabled).contains(x) <==> (generic_extension_strs().contains(x)
            || svg_extension_strs().contains(x) || (heif_enabled
            && heif_extension_strs().contains(x))),
{
    let g = generic_extension_strs();
    let v = svg_extension_strs();
    let h = heif_extension_strs();
    let a = all_compatible_spec(heif_enabled);
    if a.contains(x) {
        let i = choose|i: int| 0 <= i < a.len() && a[i] == x;
        if heif_enabled {
            if i < g.len() {
                assert(g.contains(x)) by { assert(g[i] == x); }
            } else if i < g.len() + h.len() {
                assert(h.contains(x)) by { assert(h[i - g.len()] == x); }
            } else {
                assert(v.contains(x)) by { assert(v[i - g.len() - h.len()] == x); }
            }
        } else {
            if i < g.len() {
                assert(g.contains(x)) by { assert(g[i] == x); }
            } else {
                assert(v.contains(x)) by { assert(v[i - g.len()] == x); }
            }
        }
    }
    if g.contains(x) {
        let i = choose|i: int| 0 <= i < g.len() && g[i] == x;
        assert(a.contains(x)) by { assert(a[i] == x); }
    }
    if v.contains(x) {
        let i = choose|i: int| 0 <= i < v.len() && v[i] == x;
        if heif_enabled {
            assert(a.contains(x)) by { assert(a[i + g.len() + h.len()] == x); }
        } else {
            assert(a.contains(x)) by { assert(a[i + g.len()] == x); }
        }
    }
    if heif_enabled && h.contains(x) {
        let i = choose|i: int| 0 <= i < h.len() && h[i] == x;
        assert(a.contains(x)) by { assert(a[i + g.len()] == x); }
    }
}

} // verus!
