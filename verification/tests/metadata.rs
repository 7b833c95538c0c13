use mcvm::instruction::{InstrKind, Instruction};
use mcvm::lex::TextPos;
use mcvm::metadata::{eval_metadata, MetadataError, PackageMetadata};
use mcvm::parse::{Block, Parsed};
use mcvm::value::Value;

fn parsed(routine: &str, instrs: Vec<InstrKind>) -> Parsed {
    let contents = instrs
        .into_iter()
        .enumerate()
        .map(|(i, kind)| Instruction::new(kind, TextPos(i + 1, 2)))
        .collect();
    Parsed {
        blocks: vec![Block { contents }],
        routines: vec![(routine.into(), 0)],
    }
}

#[test]
fn metadata_is_collected_from_the_meta_routine() {
    let meta = eval_metadata(&parsed(
        "meta",
        vec![
            InstrKind::Name(Some("Name".into())),
            InstrKind::Description(Some("Short".into())),
            InstrKind::LongDescription(Some("Long".into())),
            InstrKind::Version(Some("1.2".into())),
            InstrKind::Authors(vec!["A".into(), "B".into()]),
            InstrKind::PackageMaintainers(vec!["M".into()]),
            InstrKind::Website(Some("w".into())),
            InstrKind::SupportLink(Some("s".into())),
            InstrKind::Documentation(Some("d".into())),
            InstrKind::Source(Some("src".into())),
            InstrKind::Issues(Some("i".into())),
            InstrKind::Community(Some("c".into())),
            InstrKind::Icon(Some("icon".into())),
            InstrKind::Banner(Some("b".into())),
            InstrKind::License(Some("MIT".into())),
            InstrKind::Name(Some("Last".into())),
        ],
    ))
    .unwrap();
    assert_eq!(meta.name, Some("Last".to_string()));
    assert_eq!(meta.description, Some("Short".to_string()));
    assert_eq!(meta.long_description, Some("Long".to_string()));
    assert_eq!(meta.version, Some("1.2".to_string()));
    assert_eq!(meta.authors, Some(vec!["A".to_string(), "B".to_string()]));
    assert_eq!(meta.package_maintainers, Some(vec!["M".to_string()]));
    assert_eq!(meta.website, Some("w".to_string()));
    assert_eq!(meta.support_link, Some("s".to_string()));
    assert_eq!(meta.documentation, Some("d".to_string()));
    assert_eq!(meta.source, Some("src".to_string()));
    assert_eq!(meta.issues, Some("i".to_string()));
    assert_eq!(meta.community, Some("c".to_string()));
    assert_eq!(meta.icon, Some("icon".to_string()));
    assert_eq!(meta.banner, Some("b".to_string()));
    assert_eq!(meta.license, Some("MIT".to_string()));
}

#[test]
fn script_without_meta_routine_has_no_metadata() {
    let meta = eval_metadata(&parsed("install", vec![InstrKind::Finish()])).unwrap();
    assert_eq!(meta.name, None);
    assert_eq!(meta.authors, None);
    let mut script = parsed("meta", vec![]);
    script.routines = vec![("meta".into(), 4)];
    let meta = eval_metadata(&script).unwrap();
    assert_eq!(meta.license, None);
    assert_eq!(PackageMetadata::default().name, None);
}

#[test]
fn other_instructions_are_not_allowed_in_meta() {
    let result = eval_metadata(&parsed(
        "meta",
        vec![
            InstrKind::Name(Some("n".into())),
            InstrKind::Bundle(Value::Constant("x".into())),
            InstrKind::Finish(),
        ],
    ));
    assert_eq!(result.unwrap_err(), MetadataError { pos: TextPos(2, 2) });
}
