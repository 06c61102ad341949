use zendriver::gpu::catalogue::{
    corpus_url, parse_pci_ids, pci_ids_url, PciDevice, CORPUS_COMMIT, PCI_IDS_COMMIT,
};
use zendriver::gpu::emit::{emit_enum_names, emit_extensions, emit_precision, enum_name_pairs};
use zendriver::gpu::tier::{gl_type_for, is_served_cap, GlType};
use zendriver::locale::{emit_rust, tz_rows_from_zone_tab, CountryRow};

const MINI: &str = "# List of PCI ID's (trimmed for tests)\n\
#\n\
\n\
10de  NVIDIA Corporation\n\
\t2684  AD102 [GeForce RTX 4090]\n\
\t\t1043 87b3  TUF Gaming GeForce RTX 4090\n\
\t2782  AD104 [GeForce RTX 4070 Ti]\n\
1002  Advanced Micro Devices, Inc. [AMD/ATI]\n\
\t164e  Raphael\n\
\t73bf  Navi 21 [Radeon RX 6800/6800 XT / 6900 XT]\n\
8086  Intel Corporation\n\
\t3e92  CoffeeLake-S GT2 [UHD Graphics 630]\n\
\n\
# List of known device classes, subclasses and programming interfaces\n\
C 00  Unclassified device\n\
\t00  Non-VGA unclassified device\n\
\t01  VGA compatible unclassified device\n\
C 03  Display controller\n\
\t00  VGA compatible controller\n";

#[test]
fn parses_vendor_and_device_lines() {
    let devices = parse_pci_ids(MINI);
    let rtx4090 = devices
        .iter()
        .find(|d| d.device_id == 0x2684)
        .expect("RTX 4090 device line");
    assert_eq!(rtx4090.vendor_id, 0x10de);
    assert_eq!(rtx4090.name, "AD102 [GeForce RTX 4090]");
}

#[test]
fn keeps_each_device_under_its_own_vendor() {
    let devices = parse_pci_ids(MINI);
    let raphael = devices.iter().find(|d| d.device_id == 0x164e).unwrap();
    assert_eq!(raphael.vendor_id, 0x1002);
    let uhd = devices.iter().find(|d| d.device_id == 0x3e92).unwrap();
    assert_eq!(uhd.vendor_id, 0x8086);
}

#[test]
fn skips_subsystem_lines() {
    let devices = parse_pci_ids(MINI);
    assert!(
        !devices.iter().any(|d| d.name.contains("TUF Gaming")),
        "subsystem lines must not become devices"
    );
    assert!(!devices.iter().any(|d| d.device_id == 0x1043));
}

#[test]
fn ignores_comments_and_blank_lines() {
    let devices = parse_pci_ids(MINI);
    assert!(!devices.iter().any(|d| d.name.starts_with('#')));
    assert!(!devices.iter().any(|d| d.name.is_empty()));
}

#[test]
fn device_class_sections_contribute_nothing() {
    let devices = parse_pci_ids(MINI);
    for name in [
        "Non-VGA unclassified device",
        "VGA compatible unclassified device",
        "VGA compatible controller",
    ] {
        assert!(
            !devices.iter().any(|d| d.name == name),
            "class subclass {name:?} leaked into the device list"
        );
    }
    assert_eq!(
        devices.len(),
        5,
        "expected exactly the five real device lines, got {:?}",
        devices.iter().map(|d| &d.name).collect::<Vec<_>>()
    );
}

#[test]
fn devices_come_out_in_file_order_with_trimmed_names() {
    let devices = parse_pci_ids("1af4  Red Hat\n\t1050   Virtio GPU  \r\n");
    assert_eq!(
        devices,
        vec![PciDevice {
            vendor_id: 0x1af4,
            device_id: 0x1050,
            name: "Virtio GPU".into(),
        }]
    );
    assert!(parse_pci_ids("\t1050  orphan device\n").is_empty());
}

#[test]
fn both_sources_are_pinned_to_a_full_commit_sha() {
    for (label, pin) in [("pci.ids", PCI_IDS_COMMIT), ("corpus", CORPUS_COMMIT)] {
        assert_eq!(pin.len(), 40, "{label} pin must be a full SHA, got {pin:?}");
        assert!(
            pin.chars().all(|c| c.is_ascii_hexdigit()),
            "{label} pin must be hex, got {pin:?}"
        );
    }
}

#[test]
fn both_urls_embed_their_pin() {
    assert!(pci_ids_url().contains(PCI_IDS_COMMIT));
    assert!(corpus_url().contains(CORPUS_COMMIT));
    assert!(
        !corpus_url().contains(' '),
        "corpus URL has a space in it: {}",
        corpus_url()
    );
    assert_eq!(
        pci_ids_url(),
        "https://raw.githubusercontent.com/pciutils/pciids/e91752832f366923b29d518f4d5e58abd0ccb917/pci.ids"
    );
}

#[test]
fn float_typed_params_are_not_inferred_from_json() {
    assert_eq!(gl_type_for("ALIASED_POINT_SIZE_RANGE"), GlType::FloatPair);
    assert_eq!(gl_type_for("ALIASED_LINE_WIDTH_RANGE"), GlType::FloatPair);
    assert_eq!(gl_type_for("DEPTH_RANGE"), GlType::FloatPair);
    assert_eq!(gl_type_for("BLEND_COLOR"), GlType::FloatQuad);
    assert_eq!(gl_type_for("COLOR_CLEAR_VALUE"), GlType::FloatQuad);
    assert_eq!(gl_type_for("LINE_WIDTH"), GlType::Float);
    assert_eq!(gl_type_for("MAX_TEXTURE_MAX_ANISOTROPY_EXT"), GlType::Float);
    assert_eq!(gl_type_for("MAX_TEXTURE_LOD_BIAS"), GlType::Float);
}

#[test]
fn int_typed_arrays_stay_integer() {
    assert_eq!(gl_type_for("MAX_VIEWPORT_DIMS"), GlType::IntPair);
    assert_eq!(gl_type_for("VIEWPORT"), GlType::IntQuad);
    assert_eq!(gl_type_for("SCISSOR_BOX"), GlType::IntQuad);
    assert_eq!(gl_type_for("COMPRESSED_TEXTURE_FORMATS"), GlType::IntList);
}

#[test]
fn unlisted_params_fall_back_to_the_json_shape() {
    assert_eq!(gl_type_for("MAX_TEXTURE_SIZE"), GlType::FromJson);
    assert_eq!(gl_type_for("CULL_FACE"), GlType::FromJson);
}

#[test]
fn only_static_capabilities_are_served() {
    assert!(is_served_cap("MAX_TEXTURE_SIZE"));
    assert!(is_served_cap("RENDERER"));
    assert!(!is_served_cap("COMPRESSED_TEXTURE_FORMATS"));
    assert!(!is_served_cap("IMPLEMENTATION_COLOR_READ_FORMAT"));
    assert!(!is_served_cap("VIEWPORT"));
}

const TZ_FIXTURE: &str = "# tzdb timezone descriptions, trimmed for tests\n\
#codes\tcoordinates\tTZ\tcomments\n\
US\t+404251-0740023\tAmerica/New_York\tEastern (most areas)\n\
US\t+415100-0873900\tAmerica/Chicago\tCentral (most areas)\n\
FR,MC\t+4852+00220\tEurope/Paris\n\
RU\t+5443+02030\tEurope/Kaliningrad\tMSK-01 - Kaliningrad\n\
RU\t+554521+0373704\tEurope/Moscow\tMSK+00 - Moscow area\n\
RU,UA\t+4457+03406\tEurope/Simferopol\tCrimea\n\
\n\
JP\t+353916+1394441\tAsia/Tokyo\n";

fn lookup<'a>(rows: &'a [(String, String)], cc: &str) -> Option<&'a str> {
    rows.iter().find(|(c, _)| c == cc).map(|(_, z)| z.as_str())
}

#[test]
fn tz_first_occurrence_per_country() {
    let rows = tz_rows_from_zone_tab(TZ_FIXTURE);
    assert_eq!(lookup(&rows, "US"), Some("America/New_York"));
    assert_eq!(lookup(&rows, "FR"), Some("Europe/Paris"));
    assert_eq!(lookup(&rows, "MC"), Some("Europe/Paris"));
}

#[test]
fn tz_override_wins() {
    let rows = tz_rows_from_zone_tab(TZ_FIXTURE);
    assert_eq!(lookup(&rows, "RU"), Some("Europe/Moscow"));
    assert_eq!(lookup(&rows, "UA"), Some("Europe/Kyiv"));
    assert_eq!(lookup(&rows, "BR"), Some("America/Sao_Paulo"));
}

#[test]
fn tz_rows_sorted() {
    let rows = tz_rows_from_zone_tab(TZ_FIXTURE);
    assert!(rows.windows(2).all(|w| w[0].0 <= w[1].0));
    assert!(rows.windows(2).all(|w| w[0].0 != w[1].0));
}

#[test]
fn emit_is_valid_rust_shape() {
    let rows = vec![
        CountryRow {
            cc: "CH".into(),
            langs: vec!["de".into(), "fr".into(), "it".into()],
        },
        CountryRow {
            cc: "US".into(),
            langs: vec!["en".into()],
        },
    ];
    let tz_rows = tz_rows_from_zone_tab(TZ_FIXTURE);
    let out = emit_rust("46.0.0", &rows, "2026c", &tz_rows);
    assert!(out.contains("CLDR_VERSION: &str = \"46.0.0\""));
    assert!(out.contains("(\"US\", &[\"en\"]),"));
    assert!(out.contains("(\"CH\", &[\"de\", \"fr\", \"it\"]),"));
    assert!(out.contains("TZDATA_VERSION: &str = \"2026c\""));
    assert!(out.contains("(\"US\", \"America/New_York\"),"));
    assert!(out.contains("(\"RU\", \"Europe/Moscow\"),"));
    assert!(out.starts_with("// CLDR 46.0.0, tzdata 2026c."));
    assert!(out.ends_with("];\n"));
}

// -- the tier tables' float-free sections -----------------------------------------

fn enums(entries: &[(&str, u32)]) -> Vec<(String, u32)> {
    entries.iter().map(|(n, v)| (n.to_string(), *v)).collect()
}

#[test]
fn enum_names_union_across_tiers_is_emitted_and_deduplicated() {
    let a = enums(&[("ACTIVE_TEXTURE", 34016)]);
    let b = enums(&[("ACTIVE_TEXTURE", 34016), ("BLEND", 3042)]);
    let out = emit_enum_names(&enum_name_pairs(&[a, b]).unwrap());
    assert!(out.contains("(3042, \"BLEND\")"));
    assert!(out.contains("(34016, \"ACTIVE_TEXTURE\")"));
    assert_eq!(out.matches("34016").count(), 1);
}

#[test]
fn a_number_may_legitimately_answer_to_two_names() {
    let a = enums(&[("BLEND_EQUATION", 32777), ("BLEND_EQUATION_RGB", 32777)]);
    let out = emit_enum_names(&enum_name_pairs(&[a]).unwrap());
    assert!(out.contains("(32777, \"BLEND_EQUATION\")"));
    assert!(out.contains("(32777, \"BLEND_EQUATION_RGB\")"));
}

#[test]
fn enum_pairs_sort_by_number_then_name() {
    let a = enums(&[("Z", 5), ("A", 9)]);
    let b = enums(&[("B", 5), ("Z", 5)]);
    let pairs = enum_name_pairs(&[a, b]).unwrap();
    assert_eq!(
        pairs,
        vec![(5, "B".to_string()), (5, "Z".to_string()), (9, "A".to_string())]
    );
    assert_eq!(
        emit_enum_names(&pairs).lines().skip(8).collect::<Vec<_>>(),
        vec!["    (5, \"B\"),", "    (5, \"Z\"),", "    (9, \"A\"),", "];"]
    );
}

#[test]
fn a_name_with_two_numbers_is_refused() {
    let a = enums(&[("MAX_SAMPLES", 36183)]);
    let b = enums(&[("MAX_SAMPLES", 4)]);
    assert_eq!(enum_name_pairs(&[a, b]), Err("MAX_SAMPLES".to_string()));
}

#[test]
fn precision_table_keeps_each_triple() {
    let out = emit_precision(&[(
        "metal".to_string(),
        vec![("HIGH_FLOAT".to_string(), (127, 127, 23)), ("LOW_INT".to_string(), (-31, 30, 0))],
    )]);
    assert_eq!(
        out,
        "/// `getShaderPrecisionFormat` results per tier.\n\
         pub(crate) static PRECISION: &[(&str, &[(&str, [i32; 3])])] = &[\n\
         \x20   (\"metal\", &[\n\
         \x20       (\"HIGH_FLOAT\", [127, 127, 23]),\n\
         \x20       (\"LOW_INT\", [-31, 30, 0]),\n\
         \x20   ]),\n\
         ];\n\n"
    );
}

#[test]
fn extension_order_is_kept_as_captured() {
    let out = emit_extensions(
        true,
        &[(
            "metal".to_string(),
            vec!["EXT_shader_texture_lod".to_string(), "EXT_sRGB".to_string()],
        )],
    );
    assert!(out.starts_with("/// Extension list per tier for WebGL1.\n"));
    assert!(out.contains("pub(crate) static EXTENSIONS_WEBGL1: &[(&str, &[&str])] = &[\n"));
    let lod = out.find("EXT_shader_texture_lod").unwrap();
    let srgb = out.find("EXT_sRGB").unwrap();
    assert!(lod < srgb);
    let webgl2 = emit_extensions(false, &[]);
    assert_eq!(
        webgl2,
        "/// Extension list per tier for WebGL2.\npub(crate) static EXTENSIONS_WEBGL2: &[(&str, &[&str])] = &[\n];\n\n"
    );
}

/// Every parameter a context changes, or that the page's context attributes,
/// bound framebuffer or enabled extensions decide.
const DELEGATED_PARAMS: &[&str] = &[
    "ACTIVE_TEXTURE",
    "BLEND",
    "BLEND_COLOR",
    "BLEND_DST_ALPHA",
    "BLEND_DST_RGB",
    "BLEND_EQUATION",
    "BLEND_EQUATION_ALPHA",
    "BLEND_EQUATION_RGB",
    "BLEND_SRC_ALPHA",
    "BLEND_SRC_RGB",
    "COLOR_CLEAR_VALUE",
    "CULL_FACE",
    "CULL_FACE_MODE",
    "DEPTH_CLEAR_VALUE",
    "DEPTH_FUNC",
    "DEPTH_RANGE",
    "DEPTH_TEST",
    "DEPTH_WRITEMASK",
    "DITHER",
    "DRAW_BUFFER0",
    "DRAW_BUFFER1",
    "DRAW_BUFFER2",
    "DRAW_BUFFER3",
    "DRAW_BUFFER4",
    "DRAW_BUFFER5",
    "DRAW_BUFFER6",
    "DRAW_BUFFER7",
    "FRAGMENT_SHADER_DERIVATIVE_HINT",
    "FRONT_FACE",
    "GENERATE_MIPMAP_HINT",
    "LINE_WIDTH",
    "PACK_ALIGNMENT",
    "PACK_ROW_LENGTH",
    "PACK_SKIP_PIXELS",
    "PACK_SKIP_ROWS",
    "POLYGON_OFFSET_FACTOR",
    "POLYGON_OFFSET_FILL",
    "POLYGON_OFFSET_UNITS",
    "RASTERIZER_DISCARD",
    "READ_BUFFER",
    "SAMPLE_ALPHA_TO_COVERAGE",
    "SAMPLE_COVERAGE",
    "SAMPLE_COVERAGE_INVERT",
    "SAMPLE_COVERAGE_VALUE",
    "SCISSOR_BOX",
    "SCISSOR_TEST",
    "STENCIL_BACK_FAIL",
    "STENCIL_BACK_FUNC",
    "STENCIL_BACK_PASS_DEPTH_FAIL",
    "STENCIL_BACK_PASS_DEPTH_PASS",
    "STENCIL_BACK_REF",
    "STENCIL_BACK_VALUE_MASK",
    "STENCIL_BACK_WRITEMASK",
    "STENCIL_CLEAR_VALUE",
    "STENCIL_FAIL",
    "STENCIL_FUNC",
    "STENCIL_PASS_DEPTH_FAIL",
    "STENCIL_PASS_DEPTH_PASS",
    "STENCIL_REF",
    "STENCIL_TEST",
    "STENCIL_VALUE_MASK",
    "STENCIL_WRITEMASK",
    "TRANSFORM_FEEDBACK_ACTIVE",
    "TRANSFORM_FEEDBACK_PAUSED",
    "UNPACK_ALIGNMENT",
    "UNPACK_COLORSPACE_CONVERSION_WEBGL",
    "UNPACK_FLIP_Y_WEBGL",
    "UNPACK_IMAGE_HEIGHT",
    "UNPACK_PREMULTIPLY_ALPHA_WEBGL",
    "UNPACK_ROW_LENGTH",
    "UNPACK_SKIP_IMAGES",
    "UNPACK_SKIP_PIXELS",
    "UNPACK_SKIP_ROWS",
    "VIEWPORT",
    "ALPHA_BITS",
    "BLUE_BITS",
    "DEPTH_BITS",
    "GREEN_BITS",
    "RED_BITS",
    "SAMPLES",
    "SAMPLE_BUFFERS",
    "STENCIL_BITS",
    "COMPRESSED_TEXTURE_FORMATS",
    "IMPLEMENTATION_COLOR_READ_FORMAT",
    "IMPLEMENTATION_COLOR_READ_TYPE",
];

#[test]
fn no_delegated_param_survives_into_the_real_tables() {
    for name in DELEGATED_PARAMS {
        assert!(!is_served_cap(name), "delegated param `{name}` is served");
    }
}
