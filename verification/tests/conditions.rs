use mcvm::asset::{ModloaderMatch, PluginLoaderMatch};
use mcvm::conditions::{Condition, ConditionKind, OSCondition};
use mcvm::instance::Side;
use mcvm::instruction::{parse_arg, ParseError, ParseErrorKind};
use mcvm::lang::Language;
use mcvm::lex::{TextPos, Token};
use mcvm::pkg::PackageStability;
use mcvm::value::Value;

fn pos() -> TextPos {
    TextPos(3, 7)
}

fn ident(name: &str) -> Token {
    Token::Ident(name.into())
}

fn parse_all(start: &str, tokens: Vec<Token>) -> Result<ConditionKind, ParseError> {
    let mut condition = ConditionKind::from_str(start).unwrap();
    for token in tokens {
        condition.parse(&token, &pos())?;
    }
    Ok(condition)
}

#[test]
fn os_condition_names() {
    assert_eq!(OSCondition::parse_from_str("windows"), Some(OSCondition::Windows));
    assert_eq!(OSCondition::parse_from_str("linux"), Some(OSCondition::Linux));
    assert_eq!(OSCondition::parse_from_str("macos"), Some(OSCondition::MacOS));
    assert_eq!(OSCondition::parse_from_str("other"), Some(OSCondition::Other));
    assert_eq!(OSCondition::parse_from_str("Linux"), None);
}

#[test]
fn condition_keywords() {
    assert_eq!(ConditionKind::from_str("not"), Some(ConditionKind::Not(None)));
    assert_eq!(
        ConditionKind::from_str("version"),
        Some(ConditionKind::Version(Value::Empty))
    );
    assert_eq!(ConditionKind::from_str("side"), Some(ConditionKind::Side(None)));
    assert_eq!(ConditionKind::from_str("modloader"), Some(ConditionKind::Modloader(None)));
    assert_eq!(
        ConditionKind::from_str("plugin_loader"),
        Some(ConditionKind::PluginLoader(None))
    );
    assert_eq!(
        ConditionKind::from_str("feature"),
        Some(ConditionKind::Feature(Value::Empty))
    );
    assert_eq!(
        ConditionKind::from_str("value"),
        Some(ConditionKind::Value(Value::Empty, Value::Empty))
    );
    assert_eq!(ConditionKind::from_str("defined"), Some(ConditionKind::Defined(None)));
    assert_eq!(ConditionKind::from_str("os"), Some(ConditionKind::OS(None)));
    assert_eq!(ConditionKind::from_str("stability"), Some(ConditionKind::Stability(None)));
    assert_eq!(ConditionKind::from_str("language"), Some(ConditionKind::Language(None)));
    assert_eq!(ConditionKind::from_str("and"), None);
    assert_eq!(ConditionKind::from_str("Side"), None);
}

#[test]
fn side_condition_finishes_after_one_identifier() {
    let mut condition = ConditionKind::Side(None);
    assert!(!condition.is_finished_parsing());
    condition.parse(&ident("client"), &pos()).unwrap();
    assert!(condition.is_finished_parsing());
    assert_eq!(condition, ConditionKind::Side(Some(Side::Client)));
}

#[test]
fn combinator_wraps_a_finished_condition() {
    let mut condition = ConditionKind::Side(Some(Side::Client));
    condition.parse(&ident("and"), &pos()).unwrap();
    assert_eq!(
        condition,
        ConditionKind::And(Box::new(ConditionKind::Side(Some(Side::Client))), None)
    );
    assert!(!condition.is_finished_parsing());
    condition.parse(&ident("os"), &pos()).unwrap();
    assert!(!condition.is_finished_parsing());
    condition.parse(&ident("linux"), &pos()).unwrap();
    assert!(condition.is_finished_parsing());
    assert_eq!(
        condition,
        ConditionKind::And(
            Box::new(ConditionKind::Side(Some(Side::Client))),
            Some(Box::new(ConditionKind::OS(Some(OSCondition::Linux))))
        )
    );
    condition.parse(&ident("or"), &pos()).unwrap();
    assert!(!condition.is_finished_parsing());
    assert!(matches!(condition, ConditionKind::Or(_, None)));
}

#[test]
fn chains_associate_to_the_left() {
    let condition = parse_all(
        "side",
        vec![
            ident("client"),
            ident("or"),
            ident("side"),
            ident("server"),
            ident("and"),
            ident("not"),
            ident("os"),
            ident("windows"),
        ],
    )
    .unwrap();
    let left = ConditionKind::Or(
        Box::new(ConditionKind::Side(Some(Side::Client))),
        Some(Box::new(ConditionKind::Side(Some(Side::Server)))),
    );
    assert_eq!(
        condition,
        ConditionKind::And(
            Box::new(left),
            Some(Box::new(ConditionKind::Not(Some(Box::new(ConditionKind::OS(Some(
                OSCondition::Windows
            )))))))
        )
    );
    assert!(condition.is_finished_parsing());
}

#[test]
fn not_takes_a_nested_condition() {
    let mut condition = ConditionKind::Not(None);
    assert!(!condition.is_finished_parsing());
    condition.parse(&ident("modloader"), &pos()).unwrap();
    assert!(!condition.is_finished_parsing());
    condition.parse(&ident("fabriclike"), &pos()).unwrap();
    assert!(condition.is_finished_parsing());
    assert_eq!(
        condition,
        ConditionKind::Not(Some(Box::new(ConditionKind::Modloader(Some(
            ModloaderMatch::FabricLike
        )))))
    );
}

#[test]
fn every_leaf_takes_its_argument() {
    assert_eq!(
        parse_all("version", vec![Token::Str("1.19+".into())]).unwrap(),
        ConditionKind::Version(Value::Constant("1.19+".into()))
    );
    assert_eq!(
        parse_all("plugin_loader", vec![ident("bukkitlike")]).unwrap(),
        ConditionKind::PluginLoader(Some(PluginLoaderMatch::BukkitLike))
    );
    assert_eq!(
        parse_all("feature", vec![Token::Variable("f".into())]).unwrap(),
        ConditionKind::Feature(Value::Var("f".into()))
    );
    assert_eq!(
        parse_all("feature", vec![ident("extras"), ident("and"), ident("os"), ident("linux")])
            .unwrap(),
        ConditionKind::And(
            Box::new(ConditionKind::Feature(Value::Constant("extras".into()))),
            Some(Box::new(ConditionKind::OS(Some(OSCondition::Linux))))
        )
    );
    assert_eq!(
        parse_all("defined", vec![ident("x")]).unwrap(),
        ConditionKind::Defined(Some("x".into()))
    );
    assert_eq!(
        parse_all("stability", vec![ident("latest")]).unwrap(),
        ConditionKind::Stability(Some(PackageStability::Latest))
    );
    assert_eq!(
        parse_all("language", vec![ident("french")]).unwrap(),
        ConditionKind::Language(Some(Language::French))
    );
}

#[test]
fn value_condition_is_binary() {
    let mut condition = ConditionKind::from_str("value").unwrap();
    condition.parse(&Token::Variable("a".into()), &pos()).unwrap();
    assert!(!condition.is_finished_parsing());
    assert_eq!(condition, ConditionKind::Value(Value::Var("a".into()), Value::Empty));
    condition.parse(&Token::Num(12), &pos()).unwrap();
    assert!(condition.is_finished_parsing());
    assert_eq!(
        condition,
        ConditionKind::Value(Value::Var("a".into()), Value::Constant("12".into()))
    );
}

#[test]
fn finished_condition_rejects_other_tokens() {
    let mut condition = ConditionKind::Side(Some(Side::Client));
    let before = condition.clone();
    assert_eq!(
        condition.parse(&Token::Semicolon, &pos()),
        Err(ParseError {
            kind: ParseErrorKind::UnexpectedToken(Token::Semicolon),
            pos: pos()
        })
    );
    assert_eq!(
        condition.parse(&ident("xor"), &pos()),
        Err(ParseError {
            kind: ParseErrorKind::UnknownCombinator("xor".into()),
            pos: pos()
        })
    );
    assert_eq!(condition, before);
}

#[test]
fn unknown_names_are_errors_with_their_position() {
    assert_eq!(
        parse_all("not", vec![ident("nothing")]),
        Err(ParseError {
            kind: ParseErrorKind::UnknownCondition("nothing".into()),
            pos: pos()
        })
    );
    assert_eq!(
        parse_all("side", vec![ident("Client")]),
        Err(ParseError {
            kind: ParseErrorKind::UnknownConditionArgument("Client".into()),
            pos: pos()
        })
    );
    assert_eq!(
        parse_all("side", vec![Token::Str("client".into())]),
        Err(ParseError {
            kind: ParseErrorKind::UnexpectedToken(Token::Str("client".into())),
            pos: pos()
        })
    );
    assert_eq!(
        parse_all("version", vec![Token::Colon]),
        Err(ParseError {
            kind: ParseErrorKind::UnexpectedToken(Token::Colon),
            pos: pos()
        })
    );
    assert_eq!(
        parse_all("not", vec![Token::Comma]),
        Err(ParseError {
            kind: ParseErrorKind::UnexpectedToken(Token::Comma),
            pos: pos()
        })
    );
}

#[test]
fn condition_wrapper_parses_like_its_kind() {
    let mut condition = Condition::new(ConditionKind::OS(None));
    condition.parse(&ident("macos"), &pos()).unwrap();
    assert_eq!(condition.kind, ConditionKind::OS(Some(OSCondition::MacOS)));
    assert!(condition.parse(&Token::Bang, &pos()).is_err());
}

#[test]
fn parse_arg_reads_values() {
    assert_eq!(
        parse_arg(&Token::Variable("v".into()), &pos()),
        Ok(Value::Var("v".into()))
    );
    assert_eq!(
        parse_arg(&Token::Str("text".into()), &pos()),
        Ok(Value::Constant("text".into()))
    );
    assert_eq!(
        parse_arg(&Token::Num(-45), &pos()),
        Ok(Value::Constant("-45".into()))
    );
    assert_eq!(
        parse_arg(&ident("bare"), &pos()),
        Ok(Value::Constant("bare".into()))
    );
    assert_eq!(
        parse_arg(&Token::Colon, &pos()),
        Err(ParseError {
            kind: ParseErrorKind::UnexpectedToken(Token::Colon),
            pos: pos()
        })
    );
}
