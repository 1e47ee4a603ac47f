use image_exts::ext::ConvertableExtension;

fn parse(s: &str, heif_enabled: bool) -> Result<ConvertableExtension, image_exts::ext::UnsupportedExtension> {
    ConvertableExtension::try_from(s.to_string(), heif_enabled)
}

fn known_pairs() -> Vec<(&'static str, ConvertableExtension)> {
    vec![
        ("bmp", ConvertableExtension::Bmp),
        ("dib", ConvertableExtension::Dib),
        ("ff", ConvertableExtension::Ff),
        ("gif", ConvertableExtension::Gif),
        ("ico", ConvertableExtension::Ico),
        ("jpg", ConvertableExtension::Jpg),
        ("jpeg", ConvertableExtension::Jpeg),
        ("png", ConvertableExtension::Png),
        ("pnm", ConvertableExtension::Pnm),
        ("qoi", ConvertableExtension::Qoi),
        ("tga", ConvertableExtension::Tga),
        ("icb", ConvertableExtension::Icb),
        ("vda", ConvertableExtension::Vda),
        ("vst", ConvertableExtension::Vst),
        ("tiff", ConvertableExtension::Tiff),
        ("tif", ConvertableExtension::Tif),
        ("heif", ConvertableExtension::Heif),
        ("heifs", ConvertableExtension::Heifs),
        ("heic", ConvertableExtension::Heic),
        ("heics", ConvertableExtension::Heics),
        ("avif", ConvertableExtension::Avif),
        ("avci", ConvertableExtension::Avci),
        ("avcs", ConvertableExtension::Avcs),
        ("svg", ConvertableExtension::Svg),
        ("svgz", ConvertableExtension::Svgz),
        ("pdf", ConvertableExtension::Pdf),
        ("webp", ConvertableExtension::Webp),
    ]
}

#[test]
fn round_trip_all_known_extensions() {
    for (s, e) in known_pairs() {
        let parsed = parse(s, true).unwrap();
        assert_eq!(parsed, e);
        assert_eq!(parsed.render(), s);
    }
}

#[test]
fn parse_is_case_insensitive() {
    for (s, e) in known_pairs() {
        let upper = s.to_uppercase();
        assert_eq!(parse(&upper, true).unwrap(), e);
        let mut mixed = String::new();
        for (i, c) in s.chars().enumerate() {
            if i % 2 == 0 {
                mixed.extend(c.to_uppercase());
            } else {
                mixed.push(c);
            }
        }
        assert_eq!(parse(&mixed, true).unwrap(), e);
    }
}

#[test]
fn parse_rejects_unknown_text() {
    for bad in ["", "PNG ", "png.jpg", "raw", " jpg", ".png", "jpg2", "b m p"] {
        let err = parse(bad, true).unwrap_err();
        assert_eq!(err.text, bad);
    }
}

#[test]
fn parse_rejects_extended_when_disabled() {
    for s in ["heif", "heifs", "heic", "heics", "avif", "avci", "avcs"] {
        assert!(parse(s, true).is_ok());
        let err = parse(s, false).unwrap_err();
        assert_eq!(err.text, s);
    }
}

#[test]
fn error_message_names_offending_text() {
    let err = parse("raw", true).unwrap_err();
    assert_eq!(err.message(), "unsupported extension: raw");
    assert!(err.message().contains("raw"));
}

#[test]
fn example_jpg_and_raw() {
    let e = parse("JPG", true).unwrap();
    assert_eq!(e, ConvertableExtension::Jpg);
    let rendered = e.render();
    assert_eq!(rendered, "jpg");
    assert_eq!(parse(&rendered, true).unwrap(), ConvertableExtension::Jpg);
    assert!(parse("raw", true).is_err());
}

#[test]
fn extension_groups_are_disjoint() {
    let groups = vec![
        image_exts::registry::generic_extensions(),
        image_exts::registry::svg_extensions(),
        image_exts::registry::pdf_extensions(),
        image_exts::registry::heif_extensions(),
    ];
    for (i, a) in groups.iter().enumerate() {
        for (j, b) in groups.iter().enumerate() {
            if i != j {
                for s in a {
                    assert!(!b.contains(s), "{} appears in two groups", s);
                }
            }
        }
    }
}

#[test]
fn registry_without_extended_group() {
    let all = image_exts::registry::all_compatible_extensions(false);
    assert_eq!(all.len(), 19);
    let mut expected = image_exts::registry::generic_extensions();
    expected.append(&mut image_exts::registry::svg_extensions());
    assert_eq!(all, expected);
    assert!(!all.contains(&"pdf".to_string()));
}

#[test]
fn registry_with_extended_group() {
    let all = image_exts::registry::all_compatible_extensions(true);
    assert_eq!(all.len(), 26);
    let mut expected = image_exts::registry::generic_extensions();
    expected.append(&mut image_exts::registry::heif_extensions());
    expected.append(&mut image_exts::registry::svg_extensions());
    assert_eq!(all, expected);
    assert!(!all.contains(&"pdf".to_string()));
}

#[test]
fn registry_entries_parse_back() {
    for s in image_exts::registry::all_compatible_extensions(true) {
        assert!(parse(&s, true).is_ok());
    }
    for s in image_exts::registry::all_compatible_extensions(false) {
        assert!(parse(&s, false).is_ok());
    }
}

#[test]
fn constants_have_expected_values() {
    assert_eq!(image_exts::consts::MIB, 1_048_576);
    assert_eq!(image_exts::consts::MAXIMUM_FILE_SIZE, 201_326_592);
    assert_eq!(image_exts::consts::MAXIMUM_FILE_SIZE, 192 * 1_048_576);
    assert_eq!(image_exts::consts::SVG_TARGET_PX, 262_144);
    assert_eq!(image_exts::consts::SVG_TARGET_PX as f32, 262_144_f32);
    assert_eq!(image_exts::consts::PDF_RENDER_WIDTH, 992);
}
