use shaperglot::text::join;
use shaperglot::{Checker, Fix, Problem, ShapingDiffers, ShapingError, ShapingInput};

fn put_u16(v: &mut Vec<u8>, x: u16) {
    v.extend_from_slice(&x.to_be_bytes());
}

fn put_u32(v: &mut Vec<u8>, x: u32) {
    v.extend_from_slice(&x.to_be_bytes());
}

/// A TrueType font with the three required tables and a single glyph: it
/// has no features and maps every character to glyph 0.
fn tiny_font() -> Vec<u8> {
    let mut head = Vec::new();
    put_u32(&mut head, 0x0001_0000); // version
    put_u32(&mut head, 0x0001_0000); // font revision
    put_u32(&mut head, 0); // checksum adjustment
    put_u32(&mut head, 0x5F0F_3CF5); // magic number
    put_u16(&mut head, 0); // flags
    put_u16(&mut head, 1000); // units per em
    head.extend_from_slice(&[0u8; 16]); // created, modified
    head.extend_from_slice(&[0u8; 8]); // bounding box
    put_u16(&mut head, 0); // mac style
    put_u16(&mut head, 8); // lowest ppem
    put_u16(&mut head, 2); // font direction hint
    put_u16(&mut head, 0); // index to location format
    put_u16(&mut head, 0); // glyph data format
    assert_eq!(head.len(), 54);

    let mut hhea = Vec::new();
    put_u32(&mut hhea, 0x0001_0000);
    put_u16(&mut hhea, 800); // ascender
    put_u16(&mut hhea, 0xFF38); // descender (-200)
    put_u16(&mut hhea, 0); // line gap
    hhea.extend_from_slice(&[0u8; 24]);
    put_u16(&mut hhea, 0); // number of horizontal metrics
    assert_eq!(hhea.len(), 36);

    let mut maxp = Vec::new();
    put_u32(&mut maxp, 0x0000_5000);
    put_u16(&mut maxp, 1); // number of glyphs

    let tables: [(&[u8; 4], &Vec<u8>); 3] = [(b"head", &head), (b"hhea", &hhea), (b"maxp", &maxp)];
    let mut font = Vec::new();
    put_u32(&mut font, 0x0001_0000);
    put_u16(&mut font, 3); // number of tables
    put_u16(&mut font, 32); // search range
    put_u16(&mut font, 1); // entry selector
    put_u16(&mut font, 16); // range shift
    let mut offset = 12 + 16 * tables.len() as u32;
    for (tag, data) in tables.iter() {
        font.extend_from_slice(*tag);
        put_u32(&mut font, 0);
        put_u32(&mut font, offset);
        put_u32(&mut font, data.len() as u32);
        offset += ((data.len() as u32) + 3) & !3;
    }
    for (_, data) in tables.iter() {
        font.extend_from_slice(data);
        while font.len() % 4 != 0 {
            font.push(0);
        }
    }
    font
}

fn strings(items: &[&str]) -> Vec<String> {
    items.iter().map(|s| s.to_string()).collect()
}

fn input(text: &str, features: &[&str]) -> ShapingInput {
    ShapingInput::new(text.to_string(), strings(features), None)
}

fn fi_liga_pair() -> Vec<(ShapingInput, ShapingInput)> {
    vec![(input("fi", &[]), input("fi", &["liga"]))]
}

#[test]
fn mandatory_features_never_skip() {
    let data = tiny_font();
    let checker = Checker::new(&data, 0, vec![]).unwrap();
    let check = ShapingDiffers::new(fi_liga_pair(), false);
    assert_eq!(check.should_skip(&checker), None);
}

#[test]
fn same_shaping_gives_one_problem() {
    let data = tiny_font();
    let checker = Checker::new(&data, 0, vec![]).unwrap();
    let check = ShapingDiffers::new(fi_liga_pair(), false);
    let (problems, attempted) = check.execute(&checker).unwrap();
    assert_eq!(attempted, 1);
    assert_eq!(problems.len(), 1);
    let p = &problems[0];
    assert_eq!(p.check_name, "Shaping Differs");
    assert_eq!(p.code, "shaping-same");
    assert_eq!(
        p.message,
        "When shaping the text 'fi' and shaping the text 'fi' with features: liga, \
         the output is expected to be different, but was the same"
    );
    assert_eq!(p.fixes.len(), 1);
    assert_eq!(p.fixes[0].fix_type, "add_feature");
    assert_eq!(
        p.fixes[0].fix_thing,
        "A rule such that shaping the text 'fi' and shaping the text 'fi' with features: liga \
         give different results"
    );
}

#[test]
fn optional_missing_feature_skips() {
    let data = tiny_font();
    let checker = Checker::new(&data, 0, vec![]).unwrap();
    let check = ShapingDiffers::new(fi_liga_pair(), true);
    assert_eq!(
        check.should_skip(&checker),
        Some("The following features are needed for this check, but are missing: liga".to_string())
    );
}

#[test]
fn missing_features_listed_once_in_first_seen_order() {
    let data = tiny_font();
    let checker = Checker::new(&data, 0, strings(&["kern"])).unwrap();
    let pairs = vec![
        (input("a", &["liga", "kern"]), input("a", &["liga"])),
        (input("b", &["dlig"]), input("b", &["liga", "dlig", "kern"])),
    ];
    let check = ShapingDiffers::new(pairs, true);
    assert_eq!(
        check.should_skip(&checker),
        Some("The following features are needed for this check, but are missing: liga, dlig".to_string())
    );
}

#[test]
fn all_features_present_never_skips() {
    let pairs = || vec![(input("fi", &["kern"]), input("fi", &["liga", "kern"]))];
    for optional in [false, true] {
        let data = tiny_font();
        let checker = Checker::new(&data, 0, strings(&["liga", "kern", "smcp"])).unwrap();
        let check = ShapingDiffers::new(pairs(), optional);
        assert_eq!(check.should_skip(&checker), None);
    }
}

#[test]
fn no_pairs_never_skip() {
    let data = tiny_font();
    let checker = Checker::new(&data, 0, vec![]).unwrap();
    let check = ShapingDiffers::new(vec![], true);
    assert_eq!(check.should_skip(&checker), None);
    let (problems, attempted) = check.execute(&checker).unwrap();
    assert!(problems.is_empty());
    assert_eq!(attempted, 0);
}

#[test]
fn different_shaping_gives_no_problem() {
    let data = tiny_font();
    let checker = Checker::new(&data, 0, vec![]).unwrap();
    let check = ShapingDiffers::new(vec![(input("fi", &[]), input("f", &[]))], false);
    let (problems, attempted) = check.execute(&checker).unwrap();
    assert!(problems.is_empty());
    assert_eq!(attempted, 1);
}

#[test]
fn attempted_counts_every_pair_and_order_is_kept() {
    let data = tiny_font();
    let checker = Checker::new(&data, 0, vec![]).unwrap();
    let pairs = vec![
        (input("a", &[]), input("a", &["smcp"])),
        (input("ab", &[]), input("a", &[])),
        (input("c", &["-kern"]), input("c", &["kern"])),
    ];
    let check = ShapingDiffers::new(pairs, false);
    let (problems, attempted) = check.execute(&checker).unwrap();
    assert_eq!(attempted, 3);
    assert_eq!(problems.len(), 2);
    assert!(problems[0].message.starts_with("When shaping the text 'a' and"));
    assert!(problems[1].message.starts_with("When shaping the text 'c' with features: -kern"));
}

#[test]
fn execute_twice_gives_same_problems() {
    let data = tiny_font();
    let checker = Checker::new(&data, 0, vec![]).unwrap();
    let pairs = vec![
        (input("x", &[]), input("x", &["liga"])),
        (input("xy", &[]), input("x", &[])),
    ];
    let check = ShapingDiffers::new(pairs, false);
    let (first, n1) = check.execute(&checker).unwrap();
    let (second, n2) = check.execute(&checker).unwrap();
    assert_eq!(n1, n2);
    assert_eq!(format!("{:?}", first), format!("{:?}", second));
}

#[test]
fn unreadable_feature_is_an_error() {
    let data = tiny_font();
    let checker = Checker::new(&data, 0, vec![]).unwrap();
    let check = ShapingDiffers::new(vec![(input("fi", &[]), input("fi", &["li ga=x"]))], false);
    match check.execute(&checker) {
        Err(ShapingError::InvalidFeature(f)) => assert_eq!(f, "li ga=x"),
        other => panic!("unexpected result: {:?}", other),
    }
    let check = ShapingDiffers::new(vec![(input("fi", &[""]), input("fi", &[]))], false);
    assert!(matches!(check.execute(&checker), Err(ShapingError::InvalidFeature(_))));
}

#[test]
fn empty_language_is_an_error() {
    let data = tiny_font();
    let checker = Checker::new(&data, 0, vec![]).unwrap();
    let before = ShapingInput::new("fi".to_string(), vec![], Some(String::new()));
    let check = ShapingDiffers::new(vec![(before, input("fi", &[]))], false);
    assert!(matches!(check.execute(&checker), Err(ShapingError::InvalidLanguage(_))));
}

#[test]
fn language_is_accepted() {
    let data = tiny_font();
    let checker = Checker::new(&data, 0, vec![]).unwrap();
    let before = ShapingInput::new("fi".to_string(), vec![], Some("tr".to_string()));
    let check = ShapingDiffers::new(vec![(before, input("fi", &[]))], false);
    let (problems, attempted) = check.execute(&checker).unwrap();
    assert_eq!(attempted, 1);
    assert_eq!(problems.len(), 1);
}

#[test]
fn report_follows_the_outputs() {
    let pairs = vec![
        (input("a", &[]), input("a", &["liga"])),
        (input("b", &[]), input("b", &["liga"])),
        (input("c", &[]), input("c", &["liga"])),
    ];
    let check = ShapingDiffers::new(pairs, false);
    let outputs = vec![
        ("gid1=0+500".to_string(), "gid1=0+500".to_string()),
        ("gid2=0+500".to_string(), "gid3=0+500".to_string()),
        ("".to_string(), "".to_string()),
    ];
    let (problems, attempted) = check.report(&outputs);
    assert_eq!(attempted, 3);
    assert_eq!(problems.len(), 2);
    assert_eq!(
        problems[1].message,
        "When shaping the text 'c' and shaping the text 'c' with features: liga, \
         the output is expected to be different, but was the same"
    );
    assert!(problems.iter().all(|p| p.code == "shaping-same" && p.fixes.len() == 1));
}

#[test]
fn report_with_all_outputs_different_is_empty() {
    let check = ShapingDiffers::new(fi_liga_pair(), true);
    let outputs = vec![("gid1=0+500|gid2=1+500".to_string(), "gid3=0+1000".to_string())];
    let (problems, attempted) = check.report(&outputs);
    assert!(problems.is_empty());
    assert_eq!(attempted, 1);
}

#[test]
fn input_description() {
    assert_eq!(input("fi", &[]).describe(), "shaping the text 'fi'");
    assert_eq!(
        input("fi", &["liga", "-kern"]).describe(),
        "shaping the text 'fi' with features: liga, -kern"
    );
    let with_language = ShapingInput::new("fi".to_string(), strings(&["smcp"]), Some("tr".to_string()));
    assert_eq!(with_language.describe(), "shaping the text 'fi' with features: smcp in language tr");
}

#[test]
fn check_description_and_name() {
    let pairs = vec![
        (input("fi", &[]), input("fi", &["liga"])),
        (input("a", &[]), input("b", &[])),
    ];
    let check = ShapingDiffers::new(pairs, false);
    assert_eq!(check.name(), "Shaping Differs");
    assert_eq!(
        check.describe(),
        "in the following situations, different results are produced: \
         shaping the text 'fi' versus shaping the text 'fi' with features: liga, \
         shaping the text 'a' versus shaping the text 'b'"
    );
    assert_eq!(check.pairs().len(), 2);
    assert!(!check.features_optional());
}

#[test]
fn join_with_separator() {
    assert_eq!(join(&vec![], ", "), "");
    assert_eq!(join(&strings(&["a"]), ", "), "a");
    assert_eq!(join(&strings(&["a", "b", "c"]), "; "), "a; b; c");
}

#[test]
fn fixes_are_appended() {
    let mut p = Problem::new("Some check", "some-code", "a message".to_string());
    assert!(p.fixes.is_empty());
    p.add_fix(Fix::new("one", "first".to_string()));
    p.add_fix(Fix::new("two", "second".to_string()));
    assert_eq!(p.fixes.len(), 2);
    assert_eq!(p.fixes[0].fix_type, "one");
    assert_eq!(p.fixes[1].fix_thing, "second");
    assert_eq!(p.check_name, "Some check");
    assert_eq!(p.code, "some-code");
}

#[test]
fn unreadable_font_gives_no_checker() {
    assert!(Checker::new(&[0u8; 16], 0, vec![]).is_none());
    let data = tiny_font();
    assert!(Checker::new(&data, 1, vec![]).is_none());
    let checker = Checker::new(&data, 0, strings(&["kern"])).unwrap();
    assert_eq!(checker.features(), &strings(&["kern"]));
}

#[test]
fn shaping_gives_canonical_glyphs() {
    let data = tiny_font();
    let checker = Checker::new(&data, 0, vec![]).unwrap();
    let out = input("fi", &["liga"]).shape(&checker).unwrap();
    assert!(!out.is_empty());
    assert_ne!(out, "fi");
    assert_eq!(out.matches('|').count(), 1);
    assert_ne!(out, input("f", &[]).shape(&checker).unwrap());
}
