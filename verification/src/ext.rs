//! The closed enumeration of every file extension the thumbnail pipeline can
//! convert, with case-insensitive parsing from text and canonical lowercase
//! rendering back to text. Parsing is the sole fallible operation: any text
//! whose folded form is not a recognized spelling is rejected with an error
//! naming the offending text.

use crate::casefold::{eq_ignore_case, lower};
use vstd::prelude::*;
use vstd::string::StringExecFns;

verus! {

/// One variant per extension the pipeline can convert. The last seven
/// raster variants (`Heif` through `Avcs`) form the extended-raster group,
/// which needs a specialized decoder and is only recognized by the parser
/// when that capability is enabled.
#[derive(Debug, Clone, Copy, PartialEq, Eq, Structural)]
pub enum ConvertableExtension {
    Bmp,
    Dib,
    Ff,
    Gif,
    Ico,
    Jpg,
    Jpeg,
    Png,
    Pnm,
    Qoi,
    Tga,
    Icb,
    Vda,
    Vst,
    Tiff,
    Tif,
    Heif,
    Heifs,
    Heic,
    Heics,
    Avif,
    Avci,
    Avcs,
    Svg,
    Svgz,
    Pdf,
    Webp,
}

/// The canonical spelling of an extension: the exact lowercase string that
/// [`ConvertableExtension::render`] produces and that parsing maps back to
/// the same variant.
pub open spec fn canonical(e: ConvertableExtension) -> Seq<char> {
    match e {
        ConvertableExtension::Bmp => "bmp"@,
        ConvertableExtension::Dib => "dib"@,
        ConvertableExtension::Ff => "ff"@,
        ConvertableExtension::Gif => "gif"@,
        ConvertableExtension::Ico => "ico"@,
        ConvertableExtension::Jpg => "jpg"@,
        ConvertableExtension::Jpeg => "jpeg"@,
        ConvertableExtension::Png => "png"@,
        ConvertableExtension::Pnm => "pnm"@,
        ConvertableExtension::Qoi => "qoi"@,
        ConvertableExtension::Tga => "tga"@,
        ConvertableExtension::Icb => "icb"@,
        ConvertableExtension::Vda => "vda"@,
        ConvertableExtension::Vst => "vst"@,
        ConvertableExtension::Tiff => "tiff"@,
        ConvertableExtension::Tif => "tif"@,
        ConvertableExtension::Heif => "heif"@,
        ConvertableExtension::Heifs => "heifs"@,
        ConvertableExtension::Heic => "heic"@,
        ConvertableExtension::Heics => "heics"@,
        ConvertableExtension::Avif => "avif"@,
        ConvertableExtension::Avci => "avci"@,
        ConvertableExtension::Avcs => "avcs"@,
        ConvertableExtension::Svg => "svg"@,
        ConvertableExtension::Svgz => "svgz"@,
        ConvertableExtension::Pdf => "pdf"@,
        ConvertableExtension::Webp => "webp"@,
    }
}

/// Whether a variant belongs to the extended-raster group, the part of the
/// enumeration that is gated behind the extended capability.
pub open spec fn is_extended(e: ConvertableExtension) -> bool {
    match e {
        ConvertableExtension::Heif => true,
        ConvertableExtension::Heifs => true,
        ConvertableExtension::Heic => true,
        ConvertableExtension::Heics => true,
        ConvertableExtension::Avif => true,
        ConvertableExtension::Avci => true,
        ConvertableExtension::Avcs => true,
        _ => false,
    }
}

/// What parsing a string yields: the input is folded to lowercase and
/// matched against the table of recognized spellings. The extended-raster
/// spellings are only recognized when `heif_enabled` holds.
pub open spec fn parse_spec(s: Seq<char>, heif_enabled: bool) -> Option<ConvertableExtension> {
    let l = lower(s);
    if l == "bmp"@ {
        Some(ConvertableExtension::Bmp)
    } else if l == "dib"@ {
        Some(ConvertableExtension::Dib)
    } else if l == "ff"@ {
        Some(ConvertableExtension::Ff)
    } else if l == "gif"@ {
        Some(ConvertableExtension::Gif)
    } else if l == "ico"@ {
        Some(ConvertableExtension::Ico)
    } else if l == "jpg"@ {
        Some(ConvertableExtension::Jpg)
    } else if l == "jpeg"@ {
        Some(ConvertableExtension::Jpeg)
    } else if l == "png"@ {
        Some(ConvertableExtension::Png)
    } else if l == "pnm"@ {
        Some(ConvertableExtension::Pnm)
    } else if l == "qoi"@ {
        Some(ConvertableExtension::Qoi)
    } else if l == "tga"@ {
        Some(ConvertableExtension::Tga)
    } else if l == "icb"@ {
        Some(ConvertableExtension::Icb)
    } else if l == "vda"@ {
        Some(ConvertableExtension::Vda)
    } else if l == "vst"@ {
        Some(ConvertableExtension::Vst)
    } else if l == "tiff"@ {
        Some(ConvertableExtension::Tiff)
    } else if l == "tif"@ {
        Some(ConvertableExtension::Tif)
    } else if heif_enabled && l == "heif"@ {
        Some(ConvertableExtension::Heif)
    } else if heif_enabled && l == "heifs"@ {
        Some(ConvertableExtension::Heifs)
    } else if heif_enabled && l == "heic"@ {
        Some(ConvertableExtension::Heic)
    } else if heif_enabled && l == "heics"@ {
        Some(ConvertableExtension::Heics)
    } else if heif_enabled && l == "avif"@ {
        Some(ConvertableExtension::Avif)
    } else if heif_enabled && l == "avci"@ {
        Some(ConvertableExtension::Avci)
    } else if heif_enabled && l == "avcs"@ {
        Some(ConvertableExtension::Avcs)
    } else if l == "svg"@ {
        Some(ConvertableExtension::Svg)
    } else if l == "svgz"@ {
        Some(ConvertableExtension::Svgz)
    } else if l == "pdf"@ {
        Some(ConvertableExtension::Pdf)
    } else if l == "webp"@ {
        Some(ConvertableExtension::Webp)
    } else {
        None
    }
}

/// Every recognized spelling is already lowercase, so folding fixes it.
pub(crate) proof fn lemma_table_folded()
    ensures
        lower("bmp"@) == "bmp"@,
        lower("dib"@) == "dib"@,
        lower("ff"@) == "ff"@,
        lower("gif"@) == "gif"@,
        lower("ico"@) == "ico"@,
        lower("jpg"@) == "jpg"@,
        lower("jpeg"@) == "jpeg"@,
        lower("png"@) == "png"@,
        lower("pnm"@) == "pnm"@,
        lower("qoi"@) == "qoi"@,
        lower("tga"@) == "tga"@,
        lower("icb"@) == "icb"@,
        lower("vda"@) == "vda"@,
        lower("vst"@) == "vst"@,
        lower("tiff"@) == "tiff"@,
        lower("tif"@) == "tif"@,
        lower("heif"@) == "heif"@,
        lower("heifs"@) == "heifs"@,
        lower("heic"@) == "heic"@,
        lower("heics"@) == "heics"@,
        lower("avif"@) == "avif"@,
        lower("avci"@) == "avci"@,
        lower("avcs"@) == "avcs"@,
        lower("svg"@) == "svg"@,
        lower("svgz"@) == "svgz"@,
        lower("pdf"@) == "pdf"@,
        lower("webp"@) == "webp"@,
{
    reveal_strlit("bmp");
    reveal_strlit("dib");
    reveal_strlit("ff");
    reveal_strlit("gif");
    reveal_strlit("ico");
    reveal_strlit("jpg");
    reveal_strlit("jpeg");
    reveal_strlit("png");
    reveal_strlit("pnm");
    reveal_strlit("qoi");
    reveal_strlit("tga");
    reveal_strlit("icb");
    reveal_strlit("vda");
    reveal_strlit("vst");
    reveal_strlit("tiff");
    reveal_strlit("tif");
    reveal_strlit("heif");
    reveal_strlit("heifs");
    reveal_strlit("heic");
    reveal_strlit("heics");
    reveal_strlit("avif");
    reveal_strlit("avci");
    reveal_strlit("avcs");
    reveal_strlit("svg");
    reveal_strlit("svgz");
    reveal_strlit("pdf");
    reveal_strlit("webp");
    assert(lower("bmp"@) =~= "bmp"@);
    assert(lower("dib"@) =~= "dib"@);
    assert(lower("ff"@) =~= "ff"@);
    assert(lower("gif"@) =~= "gif"@);
    assert(lower("ico"@) =~= "ico"@);
    assert(lower("jpg"@) =~= "jpg"@);
    assert(lower("jpeg"@) =~= "jpeg"@);
    assert(lower("png"@) =~= "png"@);
    assert(lower("pnm"@) =~= "pnm"@);
    assert(lower("qoi"@) =~= "qoi"@);
    assert(lower("tga"@) =~= "tga"@);
    assert(lower("icb"@) =~= "icb"@);
    assert(lower("vda"@) =~= "vda"@);
    assert(lower("vst"@) =~= "vst"@);
    assert(lower("tiff"@) =~= "tiff"@);
    assert(lower("tif"@) =~= "tif"@);
    assert(lower("heif"@) =~= "heif"@);
    assert(lower("heifs"@) =~= "heifs"@);
    assert(lower("heic"@) =~= "heic"@);
    assert(lower("heics"@) =~= "heics"@);
    assert(lower("avif"@) =~= "avif"@);
    assert(lower("avci"@) =~= "avci"@);
    assert(lower("avcs"@) =~= "avcs"@);
    assert(lower("svg"@) =~= "svg"@);
    assert(lower("svgz"@) =~= "svgz"@);
    assert(lower("pdf"@) =~= "pdf"@);
    assert(lower("webp"@) =~= "webp"@);
}

/// A canonical spelling is its own folded form.
pub proof fn lemma_canonical_folded(e: ConvertableExtension)
    ensures
        lower(canonical(e)) == canonical(e),
{
    lemma_table_folded();
}

/// The concrete characters of every recognized spelling.
pub(crate) proof fn lemma_table_chars()
    ensures
        "bmp"@.len() == 3,
        "bmp"@[0] == 'b',
        "bmp"@[1] == 'm',
        "bmp"@[2] == 'p',
        "dib"@.len() == 3,
        "dib"@[0] == 'd',
        "dib"@[1] == 'i',
        "dib"@[2] == 'b',
        "ff"@.len() == 2,
        "ff"@[0] == 'f',
        "ff"@[1] == 'f',
        "gif"@.len() == 3,
        "gif"@[0] == 'g',
        "gif"@[1] == 'i',
        "gif"@[2] == 'f',
        "ico"@.len() == 3,
        "ico"@[0] == 'i',
        "ico"@[1] == 'c',
        "ico"@[2] == 'o',
        "jpg"@.len() == 3,
        "jpg"@[0] == 'j',
        "jpg"@[1] == 'p',
        "jpg"@[2] == 'g',
        "jpeg"@.len() == 4,
        "jpeg"@[0] == 'j',
        "jpeg"@[1] == 'p',
        "jpeg"@[2] == 'e',
        "jpeg"@[3] == 'g',
        "png"@.len() == 3,
        "png"@[0] == 'p',
        "png"@[1] == 'n',
        "png"@[2] == 'g',
        "pnm"@.len() == 3,
        "pnm"@[0] == 'p',
        "pnm"@[1] == 'n',
        "pnm"@[2] == 'm',
        "qoi"@.len() == 3,
        "qoi"@[0] == 'q',
        "qoi"@[1] == 'o',
        "qoi"@[2] == 'i',
        "tga"@.len() == 3,
        "tga"@[0] == 't',
        "tga"@[1] == 'g',
        "tga"@[2] == 'a',
        "icb"@.len() == 3,
        "icb"@[0] == 'i',
        "icb"@[1] == 'c',
        "icb"@[2] == 'b',
        "vda"@.len() == 3,
        "vda"@[0] == 'v',
        "vda"@[1] == 'd',
        "vda"@[2] == 'a',
        "vst"@.len() == 3,
        "vst"@[0] == 'v',
        "vst"@[1] == 's',
        "vst"@[2] == 't',
        "tiff"@.len() == 4,
        "tiff"@[0] == 't',
        "tiff"@[1] == 'i',
        "tiff"@[2] == 'f',
        "tiff"@[3] == 'f',
        "tif"@.len() == 3,
        "tif"@[0] == 't',
        "tif"@[1] == 'i',
        "tif"@[2] == 'f',
        "heif"@.len() == 4,
        "heif"@[0] == 'h',
        "heif"@[1] == 'e',
        "heif"@[2] == 'i',
        "heif"@[3] == 'f',
        "heifs"@.len() == 5,
        "heifs"@[0] == 'h',
        "heifs"@[1] == 'e',
        "heifs"@[2] == 'i',
        "heifs"@[3] == 'f',
        "heifs"@[4] == 's',
        "heic"@.len() == 4,
        "heic"@[0] == 'h',
        "heic"@[1] == 'e',
        "heic"@[2] == 'i',
        "heic"@[3] == 'c',
        "heics"@.len() == 5,
        "heics"@[0] == 'h',
        "heics"@[1] == 'e',
        "heics"@[2] == 'i',
        "heics"@[3] == 'c',
        "heics"@[4] == 's',
        "avif"@.len() == 4,
        "avif"@[0] == 'a',
        "avif"@[1] == 'v',
        "avif"@[2] == 'i',
        "avif"@[3] == 'f',
        "avci"@.len() == 4,
        "avci"@[0] == 'a',
        "avci"@[1] == 'v',
        "avci"@[2] == 'c',
        "avci"@[3] == 'i',
        "avcs"@.len() == 4,
        "avcs"@[0] == 'a',
        "avcs"@[1] == 'v',
        "avcs"@[2] == 'c',
        "avcs"@[3] == 's',
        "svg"@.len() == 3,
        "svg"@[0] == 's',
        "svg"@[1] == 'v',
        "svg"@[2] == 'g',
        "svgz"@.len() == 4,
        "svgz"@[0] == 's',
        "svgz"@[1] == 'v',
        "svgz"@[2] == 'g',
        "svgz"@[3] == 'z',
        "pdf"@.len() == 3,
        "pdf"@[0] == 'p',
        "pdf"@[1] == 'd',
        "pdf"@[2] == 'f',
        "webp"@.len() == 4,
        "webp"@[0] == 'w',
        "webp"@[1] == 'e',
        "webp"@[2] == 'b',
        "webp"@[3] == 'p',
{
    reveal_strlit("bmp");
    reveal_strlit("dib");
    reveal_strlit("ff");
    reveal_strlit("gif");
    reveal_strlit("ico");
    reveal_strlit("jpg");
    reveal_strlit("jpeg");
    reveal_strlit("png");
    reveal_strlit("pnm");
    reveal_strlit("qoi");
    reveal_strlit("tga");
    reveal_strlit("icb");
    reveal_strlit("vda");
    reveal_strlit("vst");
    reveal_strlit("tiff");
    reveal_strlit("tif");
    reveal_strlit("heif");
    reveal_strlit("heifs");
    reveal_strlit("heic");
    reveal_strlit("heics");
    reveal_strlit("avif");
    reveal_strlit("avci");
    reveal_strlit("avcs");
    reveal_strlit("svg");
    reveal_strlit("svgz");
    reveal_strlit("pdf");
    reveal_strlit("webp");
}

/// Round trip, render then parse: parsing the canonical text of a variant
/// yields that variant back, whenever the variant is available — an
/// extended-raster variant needs the extended capability enabled.
pub proof fn lemma_render_parse_round_trip(e: ConvertableExtension, heif_enabled: bool)
    requires
        heif_enabled || !is_extended(e),
    ensures
        parse_spec(canonical(e), heif_enabled) == Some(e),
{
    lemma_table_folded();
    lemma_table_chars();
}

/// Round trip, parse then render: a successful parse yields the variant
/// whose canonical text is exactly the folded input, so rendering it
/// reproduces any lowercase input that parses.
pub proof fn lemma_parse_render_round_trip(
    s: Seq<char>,
    heif_enabled: bool,
    e: ConvertableExtension,
)
    requires
        parse_spec(s, heif_enabled) == Some(e),
    ensures
        canonical(e) == lower(s),
{
    lemma_table_folded();
}

/// Parsing is case-insensitive: two inputs with the same folded form parse
/// alike. In particular any mixed-case spelling of a recognized extension
/// parses to the same variant as its lowercase form.
pub proof fn lemma_parse_case_insensitive(s: Seq<char>, t: Seq<char>, heif_enabled: bool)
    requires
        lower(s) == lower(t),
    ensures
        parse_spec(s, heif_enabled) == parse_spec(t, heif_enabled),
{
}

/// Folding the input before parsing changes nothing: a text and its
/// lowercased form parse to the same result.
pub proof fn lemma_parse_of_folded(s: Seq<char>, heif_enabled: bool)
    ensures
        parse_spec(lower(s), heif_enabled) == parse_spec(s, heif_enabled),
{
    crate::casefold::lemma_lower_idempotent(s);
    lemma_parse_case_insensitive(lower(s), s, heif_enabled);
}

/// The error a failed parse returns: the offending text, kept so that
/// callers can surface a message naming it.
#[derive(Debug, Clone, PartialEq, Eq)]
pub struct UnsupportedExtension {
    pub text: String,
}

impl UnsupportedExtension {
    /// A human-readable description naming the text that was rejected.
    pub fn message(&self) -> (r: String)
        ensures
            r@ == "unsupported extension: "@ + self.text@,
    {
        let mut m = "unsupported extension: ".to_owned();
        m.append(self.text.as_str());
        m
    }
}

impl ConvertableExtension {
    /// The canonical lowercase text of this extension.
    pub fn render(&self) -> (r: String)
        ensures
            r@ == canonical(*self),
    {
        match self {
            ConvertableExtension::Bmp => "bmp".to_owned(),
            ConvertableExtension::Dib => "dib".to_owned(),
            ConvertableExtension::Ff => "ff".to_owned(),
            ConvertableExtension::Gif => "gif".to_owned(),
            ConvertableExtension::Ico => "ico".to_owned(),
            ConvertableExtension::Jpg => "jpg".to_owned(),
            ConvertableExtension::Jpeg => "jpeg".to_owned(),
            ConvertableExtension::Png => "png".to_owned(),
            ConvertableExtension::Pnm => "pnm".to_owned(),
            ConvertableExtension::Qoi => "qoi".to_owned(),
            ConvertableExtension::Tga => "tga".to_owned(),
            ConvertableExtension::Icb => "icb".to_owned(),
            ConvertableExtension::Vda => "vda".to_owned(),
            ConvertableExtension::Vst => "vst".to_owned(),
            ConvertableExtension::Tiff => "tiff".to_owned(),
            ConvertableExtension::Tif => "tif".to_owned(),
            ConvertableExtension::Heif => "heif".to_owned(),
            ConvertableExtension::Heifs => "heifs".to_owned(),
            ConvertableExtension::Heic => "heic".to_owned(),
            ConvertableExtension::Heics => "heics".to_owned(),
            ConvertableExtension::Avif => "avif".to_owned(),
            ConvertableExtension::Avci => "avci".to_owned(),
            ConvertableExtension::Avcs => "avcs".to_owned(),
            ConvertableExtension::Svg => "svg".to_owned(),
            ConvertableExtension::Svgz => "svgz".to_owned(),
            ConvertableExtension::Pdf => "pdf".to_owned(),
            ConvertableExtension::Webp => "webp".to_owned(),
        }
    }

    /// Parses extension text, case-insensitively, into its variant. Returns
    /// the variant whose spelling matches the folded input, or an error
    /// carrying the rejected text when no spelling matches. The
    /// extended-raster spellings only match when `heif_enabled` holds.
    pub fn try_from(value: String, heif_enabled: bool) -> (r: Result<
        ConvertableExtension,
        UnsupportedExtension,
    >)
        ensures
            match r {
                Ok(e) => parse_spec(value@, heif_enabled) == Some(e),
                Err(err) => parse_spec(value@, heif_enabled) is None && err.text@ == value@,
            },
    {
        proof {
            lemma_table_folded();
        }
        let v = value.as_str();
        let found: Option<ConvertableExtension> = if eq_ignore_case(v, "bmp") {
            Some(ConvertableExtension::Bmp)
        } else if eq_ignore_case(v, "dib") {
            Some(ConvertableExtension::Dib)
        } else if eq_ignore_case(v, "ff") {
            Some(ConvertableExtension::Ff)
        } else if eq_ignore_case(v, "gif") {
            Some(ConvertableExtension::Gif)
        } else if eq_ignore_case(v, "ico") {
            Some(ConvertableExtension::Ico)
        } else if eq_ignore_case(v, "jpg") {
            Some(ConvertableExtension::Jpg)
        } else if eq_ignore_case(v, "jpeg") {
            Some(ConvertableExtension::Jpeg)
        } else if eq_ignore_case(v, "png") {
            Some(ConvertableExtension::Png)
        } else if eq_ignore_case(v, "pnm") {
            Some(ConvertableExtension::Pnm)
        } else if eq_ignore_case(v, "qoi") {
            Some(ConvertableExtension::Qoi)
        } else if eq_ignore_case(v, "tga") {
            Some(ConvertableExtension::Tga)
        } else if eq_ignore_case(v, "icb") {
            Some(ConvertableExtension::Icb)
        } else if eq_ignore_case(v, "vda") {
            Some(ConvertableExtension::Vda)
        } else if eq_ignore_case(v, "vst") {
            Some(ConvertableExtension::Vst)
        } else if eq_ignore_case(v, "tiff") {
            Some(ConvertableExtension::Tiff)
        } else if eq_ignore_case(v, "tif") {
            Some(ConvertableExtension::Tif)
        } else if heif_enabled && eq_ignore_case(v, "heif") {
            Some(ConvertableExtension::Heif)
        } else if heif_enabled && eq_ignore_case(v, "heifs") {
            Some(ConvertableExtension::Heifs)
        } else if heif_enabled && eq_ignore_case(v, "heic") {
            Some(ConvertableExtension::Heic)
        } else if heif_enabled && eq_ignore_case(v, "heics") {
            Some(ConvertableExtension::Heics)
        } else if heif_enabled && eq_ignore_case(v, "avif") {
            Some(ConvertableExtension::Avif)
        } else if heif_enabled && eq_ignore_case(v, "avci") {
            Some(ConvertableExtension::Avci)
        } else if heif_enabled && eq_ignore_case(v, "avcs") {
            Some(ConvertableExtension::Avcs)
        } else if eq_ignore_case(v, "svg") {
            Some(ConvertableExtension::Svg)
        } else if eq_ignore_case(v, "svgz") {
            Some(ConvertableExtension::Svgz)
        } else if eq_ignore_case(v, "pdf") {
            Some(ConvertableExtension::Pdf)
        } else if eq_ignore_case(v, "webp") {
            Some(ConvertableExtension::Webp)
        } else {
            None
        };
        match found {
            Some(e) => Ok(e),
            None => Err(UnsupportedExtension { text: value }),
        }
    }
}

} // verus!
