use galatea::heuristics::{analyze_image, analyze_pe, section_range, HeurReport};
use galatea::packers::{match_pattern, parse_pattern, PackerSignatureEngine};
use galatea::pe::{parse_image, PeImport, PeInfo, PeSection};

fn section(va: u32, vsize: u32, raw: u32, raw_size: u32, characteristics: u32) -> PeSection {
    PeSection {
        virtual_address: va,
        virtual_size: vsize,
        size_of_raw_data: raw_size,
        pointer_to_raw_data: raw,
        characteristics,
    }
}

fn import(dll: &str, name: &str, ordinal: u16) -> PeImport {
    PeImport { dll: dll.to_string(), name: name.to_string(), ordinal }
}

fn engine_with(lines: &[&str]) -> PackerSignatureEngine {
    let mut engine = PackerSignatureEngine::new();
    let lines: Vec<String> = lines.iter().map(|l| l.to_string()).collect();
    engine.load(&lines, true);
    engine
}

#[test]
fn pattern_tokens_parse_as_bytes_and_wildcards() {
    assert_eq!(
        parse_pattern("60 E8 ?? 00 zz"),
        vec![Some(0x60), Some(0xE8), None, Some(0x00), None]
    );
    assert_eq!(parse_pattern("   "), Vec::<Option<u8>>::new());
    assert_eq!(parse_pattern("+f 100"), vec![Some(0x0f), None]);
}

#[test]
fn patterns_match_with_wildcards_at_the_start() {
    let data = [0x60u8, 0xE8, 0x11, 0x00, 0x55];
    assert!(match_pattern(&data, &[Some(0x60), Some(0xE8), None, Some(0x00)]));
    assert!(!match_pattern(&data, &[Some(0x60), Some(0xE9)]));
    assert!(!match_pattern(&data[..2], &[Some(0x60), Some(0xE8), None]));
    assert!(match_pattern(&data, &[]));
}

#[test]
fn signature_database_blocks_become_signatures() {
    let engine = engine_with(&[
        "; comment",
        "[UPX 3.x]",
        "signature = 60 BE ?? ?? ?? ??",
        "ep_only = TRUE",
        "",
        "[Empty block]",
        "[Anywhere]",
        "signature = 4D 5A",
        "ep_only = false",
    ]);
    let pe = PeInfo {
        entry: 0x1000,
        sections: vec![section(0x1000, 0x100, 0x10, 0x100, 0x6000_0020)],
        imports: vec![],
    };
    let mut buffer = vec![0u8; 0x40];
    buffer[0] = 0x4D;
    buffer[1] = 0x5A;
    assert_eq!(engine.scan(&pe, &buffer), Some("Anywhere".to_string()));
    buffer[0x10] = 0x60;
    buffer[0x11] = 0xBE;
    assert_eq!(engine.scan(&pe, &buffer), Some("UPX 3.x".to_string()));
}

#[test]
fn a_database_cut_short_drops_its_open_block() {
    let mut engine = PackerSignatureEngine::new();
    let lines = vec!["[Open]".to_string(), "signature = 4D".to_string()];
    engine.load(&lines, false);
    let pe = PeInfo { entry: 0, sections: vec![section(0, 0x10, 0, 0x10, 0)], imports: vec![] };
    assert_eq!(engine.scan(&pe, &[0x4D, 0, 0, 0]), None);
}

#[test]
fn scan_needs_an_entry_point_inside_the_file() {
    let engine = engine_with(&["[Any]", "signature = 00", "ep_only = false"]);
    let outside = PeInfo { entry: 0x5000, sections: vec![section(0x1000, 0x100, 0, 0x100, 0)], imports: vec![] };
    assert_eq!(engine.scan(&outside, &[0u8; 16]), None);
    let past_end = PeInfo { entry: 0x1000, sections: vec![section(0x1000, 0x100, 0x20, 0x100, 0)], imports: vec![] };
    assert_eq!(engine.scan(&past_end, &[0u8; 16]), None);
}

#[test]
fn heuristic_report_starts_empty() {
    let r = HeurReport::new();
    assert!(!r.is_packed && !r.has_rwx && !r.high_entropy);
    assert!(r.packer.is_none());
    assert!(r.imphash.is_empty());
    assert_eq!(r.score_mod, 0);
}

#[test]
fn section_ranges_must_lie_inside_the_file() {
    assert_eq!(section_range(&section(0, 0, 4, 8, 0), 16), Some((4, 12)));
    assert_eq!(section_range(&section(0, 0, 4, 20, 0), 16), None);
    assert_eq!(section_range(&section(0, 0, 16, 0, 0), 16), None);
}

#[test]
fn thin_import_table_and_entropy_score() {
    let engine = PackerSignatureEngine::new();
    let pe = PeInfo {
        entry: 0,
        sections: vec![
            section(0x1000, 0x100, 0, 8, 0xE000_0020),
            section(0x2000, 0x100, 8, 8, 0x4000_0040),
        ],
        imports: vec![import("KERNEL32.DLL", "LoadLibraryA", 0), import("ws2_32.dll", "", 23)],
    };
    let buffer = [0u8; 16];
    let report = analyze_pe(&buffer, &pe, &engine, &[false, true]);
    assert!(!report.is_packed);
    assert!(report.has_rwx);
    assert!(report.high_entropy);
    // entropy 25 + thin imports 20
    assert_eq!(report.score_mod, 45);
    // md5("kernel32.loadlibrarya,ws2_32.ord23")
    assert_eq!(report.imphash, "37dac3e163d66b0199e4a2037382ccbf");
}

#[test]
fn import_hash_is_md5_of_the_joined_entries() {
    let engine = PackerSignatureEngine::new();
    let pe = PeInfo {
        entry: 0,
        sections: vec![],
        imports: vec![import("A.dll", "F", 0), import("b.sys", "G", 0), import("c", "", 1)],
    };
    let report = analyze_pe(&[], &pe, &engine, &[]);
    // md5("a.f,b.g,c.ord1")
    assert_eq!(report.imphash, "12ffdb5e2df9338c0bbc8164e6a84fec");
    assert_eq!(report.score_mod, 0);
}

#[test]
fn no_imports_means_no_hash_and_the_hidden_import_score() {
    let engine = engine_with(&["[Stub]", "signature = 4D 5A", "ep_only = false"]);
    let pe = PeInfo { entry: 0, sections: vec![section(0, 0x10, 0, 4, 0)], imports: vec![] };
    let report = analyze_pe(&[0x4D, 0x5A, 0, 0], &pe, &engine, &[true]);
    assert!(report.is_packed);
    assert_eq!(report.packer.as_deref(), Some("Stub"));
    assert!(report.imphash.is_empty());
    // packed entropy 30 + 25, hidden imports while packed 10
    assert_eq!(report.score_mod, 65);
}

#[test]
fn bytes_that_are_not_a_pe_image_do_not_parse() {
    assert!(parse_image(&[0u8; 64]).is_none());
    assert!(parse_image(&[]).is_none());
}

#[test]
fn an_image_that_does_not_parse_gets_no_report() {
    let engine = PackerSignatureEngine::new();
    assert!(analyze_image(&[0u8; 64], &engine, |_, _| true).is_none());
    assert!(analyze_image(b"MZ not really", &engine, |_, _| false).is_none());
}
