use mcvm::asset::{AssetKind, ModloaderMatch};
use mcvm::conditions::{ConditionKind, OSCondition};
use mcvm::instance::Side;
use mcvm::instr_parse::{Stage, Statement};
use mcvm::instruction::{
    FailReason, InstrKind, ParseError, ParseErrorKind, RequirePackage,
};
use mcvm::lex::{lex, LexError, TextPos, Token};
use mcvm::metadata::{eval_metadata, MetadataError};
use mcvm::parse::Parsed;
use mcvm::parser::{lex_and_parse, parse, parse_and_validate, Parser, ScriptError};
use mcvm::value::Value;

fn constant(text: &str) -> Value {
    Value::Constant(text.into())
}

fn kinds(parsed: &Parsed, block: usize) -> Vec<String> {
    parsed.blocks[block]
        .contents
        .iter()
        .map(|instr| format!("{:?}", instr.kind))
        .collect()
}

fn parse_error(text: &str) -> ParseError {
    match lex_and_parse(text) {
        Err(ScriptError::Parse(e)) => e,
        other => panic!("{other:?}"),
    }
}

fn single(text: &str) -> InstrKind {
    let script = format!("@install {{ {text} }}");
    let mut parsed = lex_and_parse(&script).unwrap();
    assert_eq!(parsed.blocks.len(), 1);
    assert_eq!(parsed.blocks[0].contents.len(), 1);
    parsed.blocks[0].contents.pop().unwrap().kind
}

#[test]
fn empty_text_is_an_empty_script() {
    let parsed = lex_and_parse("").unwrap();
    assert!(parsed.blocks.is_empty());
    assert!(parsed.routines.is_empty());
    let parsed = lex_and_parse("  # nothing here\n").unwrap();
    assert!(parsed.blocks.is_empty());
}

#[test]
fn routines_name_their_blocks() {
    let parsed = lex_and_parse("@meta { name \"Pkg\"; }\n@install { finish; }").unwrap();
    assert_eq!(
        parsed.routines,
        vec![("meta".to_string(), 0), ("install".to_string(), 1)]
    );
    assert_eq!(parsed.get_routine("install"), Some(1));
    assert_eq!(parsed.get_routine("other"), None);
    assert_eq!(kinds(&parsed, 0), vec!["Name(Some(\"Pkg\"))"]);
    assert_eq!(kinds(&parsed, 1), vec!["Finish"]);
    assert!(parsed.is_well_formed());
    // An instruction is recorded where its keyword was lexed: behind it.
    assert_eq!(parsed.blocks[0].contents[0].pos, TextPos(1, 12));
    assert_eq!(parsed.blocks[1].contents[0].pos, TextPos(2, 18));
}

#[test]
fn require_reads_groups_of_alternatives() {
    let alt = |name: &str, explicit: bool| RequirePackage {
        value: constant(name),
        explicit,
    };
    match single("require [a | b, c];") {
        InstrKind::Require(groups) => {
            assert_eq!(groups.len(), 2);
            assert_eq!(format!("{:?}", groups[0]), format!("{:?}", vec![alt("a", false), alt("b", false)]));
            assert_eq!(format!("{:?}", groups[1]), format!("{:?}", vec![alt("c", false)]));
        }
        other => panic!("{other:?}"),
    }
    match single("require [<\"x\"> | $y];") {
        InstrKind::Require(groups) => {
            assert_eq!(groups.len(), 1);
            assert_eq!(groups[0][0].value, constant("x"));
            assert!(groups[0][0].explicit);
            assert_eq!(groups[0][1].value, Value::Var("y".into()));
            assert!(!groups[0][1].explicit);
        }
        other => panic!("{other:?}"),
    }
    assert!(matches!(
        parse_error("@install { require a; }").kind,
        ParseErrorKind::UnexpectedToken(Token::Ident(_))
    ));
    assert!(matches!(
        parse_error("@install { require []; }").kind,
        ParseErrorKind::UnexpectedToken(Token::Square(_))
    ));
    assert!(matches!(
        parse_error("@install { require [a,]; }").kind,
        ParseErrorKind::UnexpectedToken(Token::Square(_))
    ));
    assert!(matches!(
        parse_error("@install { require [a b]; }").kind,
        ParseErrorKind::UnexpectedToken(Token::Ident(_))
    ));
    assert!(matches!(
        parse_error("@install { require [<a]; }").kind,
        ParseErrorKind::UnexpectedToken(Token::Square(_))
    ));
}

#[test]
fn addon_reads_its_properties() {
    match single("addon thing (kind: mod, url: \"https://example.com/t.jar\", version: $v);") {
        InstrKind::Addon {
            id,
            file_name,
            kind,
            url,
            path,
            version,
        } => {
            assert_eq!(id, constant("thing"));
            assert_eq!(file_name, Value::Empty);
            assert_eq!(kind, Some(AssetKind::Mod));
            assert_eq!(url, constant("https://example.com/t.jar"));
            assert_eq!(path, Value::Empty);
            assert_eq!(version, Value::Var("v".into()));
        }
        other => panic!("{other:?}"),
    }
    match single("addon \"id\" (path: \"~/a.zip\", file_name: \"a.zip\", kind: \"shader\",);") {
        InstrKind::Addon {
            id,
            file_name,
            kind,
            path,
            ..
        } => {
            assert_eq!(id, constant("id"));
            assert_eq!(file_name, constant("a.zip"));
            assert_eq!(kind, Some(AssetKind::Shader));
            assert_eq!(path, constant("~/a.zip"));
        }
        other => panic!("{other:?}"),
    }
    assert!(matches!(single("addon x ();"), InstrKind::Addon { kind: None, .. }));
    assert_eq!(
        parse_error("@install { addon x (color: red); }").kind,
        ParseErrorKind::UnknownAddonKey("color".into())
    );
    assert_eq!(
        parse_error("@install { addon x (kind: jar); }").kind,
        ParseErrorKind::UnknownAddonKind("jar".into())
    );
    assert!(matches!(
        parse_error("@install { addon x (kind mod); }").kind,
        ParseErrorKind::UnexpectedToken(Token::Ident(_))
    ));
    assert!(matches!(
        parse_error("@install { addon x; }").kind,
        ParseErrorKind::UnexpectedToken(Token::Semicolon)
    ));
}

#[test]
fn plain_instructions_take_their_arguments() {
    assert_eq!(format!("{:?}", single("finish;")), "Finish");
    assert_eq!(
        format!("{:?}", single("fail unsupported_version;")),
        format!("{:?}", InstrKind::Fail(Some(FailReason::UnsupportedVersion)))
    );
    assert_eq!(format!("{:?}", single("fail;")), "Fail(None)");
    assert_eq!(
        format!("{:?}", single("set x \"1\";")),
        format!("{:?}", InstrKind::SetVar(Some("x".into()), constant("1")))
    );
    assert_eq!(
        format!("{:?}", single("compat \"a\" $b;")),
        format!("{:?}", InstrKind::Compat(constant("a"), Value::Var("b".into())))
    );
    assert_eq!(
        format!("{:?}", single("cmd \"echo\" 12 $x;")),
        format!(
            "{:?}",
            InstrKind::Cmd(vec![constant("echo"), constant("12"), Value::Var("x".into())])
        )
    );
    assert_eq!(
        format!("{:?}", single("authors \"A\" \"B\";")),
        format!("{:?}", InstrKind::Authors(vec!["A".into(), "B".into()]))
    );
    for keyword in ["refuse", "recommend", "bundle", "extend", "notice"] {
        let text = format!("{keyword} \"x\";");
        assert!(format!("{:?}", single(&text)).ends_with("(Constant(\"x\"))"));
    }
}

#[test]
fn statement_errors() {
    assert_eq!(
        parse_error("@install { bundle; }"),
        ParseError {
            kind: ParseErrorKind::IncompleteInstruction,
            pos: TextPos(1, 17),
        }
    );
    assert_eq!(
        parse_error("@install { set x; }").kind,
        ParseErrorKind::IncompleteInstruction
    );
    assert_eq!(
        parse_error("@install { compat \"a\"; }").kind,
        ParseErrorKind::IncompleteInstruction
    );
    assert_eq!(
        parse_error("@install { bundle \"a\" \"b\"; }").kind,
        ParseErrorKind::UnexpectedToken(Token::Str("b".into()))
    );
    assert_eq!(
        parse_error("@install { finish now; }").kind,
        ParseErrorKind::UnexpectedToken(Token::Ident("now".into()))
    );
    assert_eq!(
        format!("{:?}", single("bundle bare;")),
        format!("{:?}", InstrKind::Bundle(constant("bare")))
    );
    assert_eq!(
        parse_error("@install { fail because; }").kind,
        ParseErrorKind::UnknownFailReason("because".into())
    );
    assert_eq!(
        parse_error("@install { explode; }"),
        ParseError {
            kind: ParseErrorKind::UnknownInstruction("explode".into()),
            pos: TextPos(1, 18),
        }
    );
    assert_eq!(
        parse_error("@install { name bare; }").kind,
        ParseErrorKind::UnexpectedToken(Token::Ident("bare".into()))
    );
}

#[test]
fn if_opens_a_nested_block() {
    let parsed = lex_and_parse(
        "@install {\n  if modloader fabriclike {\n    bundle \"a\";\n    if not os windows { finish; }\n  }\n  bundle \"b\";\n}",
    )
    .unwrap();
    assert_eq!(parsed.blocks.len(), 3);
    assert!(parsed.is_well_formed());
    match &parsed.blocks[0].contents[0].kind {
        InstrKind::If(condition, block) => {
            assert_eq!(
                condition.kind,
                ConditionKind::Modloader(Some(ModloaderMatch::FabricLike))
            );
            assert_eq!(*block, 1);
        }
        other => panic!("{other:?}"),
    }
    assert_eq!(parsed.blocks[0].contents.len(), 2);
    assert_eq!(parsed.blocks[1].contents.len(), 2);
    match &parsed.blocks[1].contents[1].kind {
        InstrKind::If(condition, block) => {
            assert_eq!(
                condition.kind,
                ConditionKind::Not(Some(Box::new(ConditionKind::OS(Some(
                    OSCondition::Windows
                )))))
            );
            assert_eq!(*block, 2);
        }
        other => panic!("{other:?}"),
    }
    assert_eq!(kinds(&parsed, 2), vec!["Finish"]);
}

#[test]
fn if_condition_may_stand_in_parentheses() {
    let parsed =
        lex_and_parse("@install { if (side client and os linux) { finish; } }").unwrap();
    match &parsed.blocks[0].contents[0].kind {
        InstrKind::If(condition, 1) => {
            assert_eq!(
                condition.kind,
                ConditionKind::And(
                    Box::new(ConditionKind::Side(Some(Side::Client))),
                    Some(Box::new(ConditionKind::OS(Some(OSCondition::Linux))))
                )
            );
        }
        other => panic!("{other:?}"),
    }
    assert!(matches!(
        parse_error("@install { if (side client { finish; } }").kind,
        ParseErrorKind::UnexpectedToken(Token::Curly(_))
    ));
    assert!(matches!(
        parse_error("@install { if side client) { finish; } }").kind,
        ParseErrorKind::UnexpectedToken(Token::Paren(_))
    ));
    assert!(matches!(
        parse_error("@install { if (side client) finish; }").kind,
        ParseErrorKind::UnexpectedToken(Token::Ident(_))
    ));
    assert!(matches!(
        parse_error("@install { if ((side client)) { } }").kind,
        ParseErrorKind::UnexpectedToken(Token::Paren(_))
    ));
    assert!(matches!(
        parse_error("@install { if { } }").kind,
        ParseErrorKind::UnexpectedToken(Token::Curly(_))
    ));
    assert_eq!(
        parse_error("@install { if weather sunny { } }").kind,
        ParseErrorKind::UnknownCondition("weather".into())
    );
    assert!(matches!(
        parse_error("@install { if side { } }").kind,
        ParseErrorKind::UnexpectedToken(Token::Curly(_))
    ));
}

#[test]
fn structure_errors() {
    assert_eq!(
        parse_error("finish;"),
        ParseError {
            kind: ParseErrorKind::UnexpectedToken(Token::Ident("finish".into())),
            pos: TextPos(1, 6),
        }
    );
    assert_eq!(
        parse_error("@install { finish; "),
        ParseError {
            kind: ParseErrorKind::UnexpectedEnd,
            pos: TextPos(1, 17),
        }
    );
    assert_eq!(parse_error("@").kind, ParseErrorKind::UnexpectedEnd);
    assert_eq!(parse_error("@a").kind, ParseErrorKind::UnexpectedEnd);
    assert_eq!(
        parse_error("@install { finish }").kind,
        ParseErrorKind::UnexpectedToken(Token::Curly(mcvm::lex::Side::Right))
    );
    assert_eq!(
        parse_error("@a { } @a { }").kind,
        ParseErrorKind::DuplicateRoutine("a".into())
    );
    assert!(matches!(
        parse_error("@a { } }").kind,
        ParseErrorKind::UnexpectedToken(Token::Curly(_))
    ));
    assert!(matches!(
        parse_error("@\"a\" { }").kind,
        ParseErrorKind::UnexpectedToken(Token::Str(_))
    ));
    assert!(matches!(
        parse_error("@a finish;").kind,
        ParseErrorKind::UnexpectedToken(Token::Ident(_))
    ));
}

#[test]
fn lex_errors_are_reported() {
    assert_eq!(
        lex_and_parse("@install { % }"),
        Err(ScriptError::Lex(LexError::UnexpectedChar('%', TextPos(1, 11))))
    );
}

#[test]
fn validation_checks_the_meta_routine() {
    assert!(parse_and_validate("@meta { name \"n\"; authors \"a\"; }").is_ok());
    assert_eq!(
        parse_and_validate("@meta { name \"n\"; finish; }"),
        Err(ScriptError::Metadata(MetadataError { pos: TextPos(1, 24) }))
    );
    let parsed = parse_and_validate(
        "@meta {\n name \"Name\";\n description \"d\";\n license \"MIT\";\n}\n@install { }",
    )
    .unwrap();
    let meta = eval_metadata(&parsed).unwrap();
    assert_eq!(meta.name, Some("Name".to_string()));
    assert_eq!(meta.description, Some("d".to_string()));
    assert_eq!(meta.license, Some("MIT".to_string()));
    assert_eq!(meta.version, None);
}

#[test]
fn parser_is_fed_token_by_token() {
    let tokens = lex("@a{finish;}").unwrap();
    let mut parser = Parser::new();
    for (tok, pos) in &tokens {
        parser.parse(tok, pos).unwrap();
    }
    let parsed = parser.finish(TextPos(1, 10)).unwrap();
    assert_eq!(parsed.routines, vec![("a".to_string(), 0)]);
    assert_eq!(parse(&tokens).unwrap().routines, parsed.routines);
}

#[test]
fn statement_reports_when_it_is_finished() {
    let pos = TextPos(1, 0);
    let mut statement = Statement::start("bundle", &pos).unwrap();
    assert_eq!(statement.stage, Stage::Args);
    assert_eq!(statement.parse(&Token::Str("x".into()), &pos), Ok(false));
    assert_eq!(statement.parse(&Token::Semicolon, &pos), Ok(true));
    assert_eq!(
        Statement::start("nothing", &pos).unwrap_err().kind,
        ParseErrorKind::UnknownInstruction("nothing".into())
    );
    assert_eq!(Statement::start("require", &pos).unwrap().stage, Stage::RequireOpen);
    assert_eq!(Statement::start("addon", &pos).unwrap().stage, Stage::AddonId);
}
