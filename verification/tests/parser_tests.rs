use otterlang::{parse, tokenize, Expr, Literal, Statement};

#[test]
fn parse_print_function() {
    let source = "fn main:\n    print(\"Hello\")\n";
    let tokens = tokenize(source).expect("tokenization should succeed");
    let program = parse(&tokens).expect("parsing should succeed");

    assert_eq!(program.statements.len(), 1);
    match &program.statements[0] {
        Statement::Function(function) => {
            assert_eq!(function.name, "main");
            assert_eq!(function.body.statements.len(), 1);
            match &function.body.statements[0] {
                Statement::Expr(expr) => match expr {
                    Expr::Call { func, args } => {
                        match &**func {
                            Expr::Identifier(name) => assert_eq!(name, "print"),
                            other => panic!("expected print identifier, got {:?}", other),
                        }
                        assert_eq!(args.len(), 1);
                        match &args[0] {
                            Expr::Literal(Literal::String(value)) => assert_eq!(value, "Hello"),
                            other => panic!("expected string literal, got {:?}", other),
                        }
                    }
                    other => panic!("expected function call, got {:?}", other),
                },
                stmt => panic!("expected expression statement, got {:?}", stmt),
            }
        }
        stmt => panic!("expected function statement, got {:?}", stmt),
    }
}

#[test]
fn parse_function_call_expression() {
    let source = "fn main:\n    x = add(2, 3)\n";
    let tokens = tokenize(source).expect("tokenization should succeed");
    let program = parse(&tokens).expect("parsing should succeed");

    assert_eq!(program.statements.len(), 1);
    match &program.statements[0] {
        Statement::Function(function) => {
            assert_eq!(function.name, "main");
            assert_eq!(function.body.statements.len(), 1);
            match &function.body.statements[0] {
                Statement::Assignment { name, expr } => {
                    assert_eq!(name, "x");
                    match expr {
                        Expr::Call { func, args } => {
                            match &**func {
                                Expr::Identifier(name) => assert_eq!(name, "add"),
                                other => panic!("expected identifier func, got {:?}", other),
                            }
                            assert_eq!(args.len(), 2);
                        }
                        other => panic!("expected call expression, got {:?}", other),
                    }
                }
                other => panic!("expected assignment statement, got {:?}", other),
            }
        }
        other => panic!("expected function statement, got {:?}", other),
    }
}

#[test]
fn parse_if_with_elif() {
    let source = "fn main:\n    x = 10.0\n    if x > 5.0:\n        print(\"greater\")\n    elif x > 0.0:\n        print(\"positive\")\n    else:\n        print(\"zero or negative\")\n";
    let tokens = tokenize(source).expect("tokenization should succeed");
    let program = parse(&tokens).expect("parsing should succeed");

    assert_eq!(program.statements.len(), 1);
    match &program.statements[0] {
        Statement::Function(function) => {
            assert_eq!(function.name, "main");
            assert_eq!(function.body.statements.len(), 2);

            match &function.body.statements[1] {
                Statement::If {
                    cond: _,
                    then_block,
                    elif_blocks,
                    else_block,
                } => {
                    assert_eq!(elif_blocks.len(), 1, "should have one elif block");
                    assert!(else_block.is_some(), "should have else block");
                    assert_eq!(then_block.statements.len(), 1);
                    assert_eq!(elif_blocks[0].1.statements.len(), 1);
                }
                other => panic!("expected if statement, got {:?}", other),
            }
        }
        other => panic!("expected function statement, got {:?}", other),
    }
}

#[test]
fn parse_if_with_multiple_elif() {
    let source = "fn main:\n    x = 10.0\n    if x > 10.0:\n        print(\"greater\")\n    elif x > 5.0:\n        print(\"medium\")\n    elif x > 0.0:\n        print(\"small\")\n    else:\n        print(\"zero\")\n";
    let tokens = tokenize(source).expect("tokenization should succeed");
    let program = parse(&tokens).expect("parsing should succeed");

    assert_eq!(program.statements.len(), 1);
    match &program.statements[0] {
        Statement::Function(function) => {
            match &function.body.statements[1] {
                Statement::If {
                    elif_blocks,
                    else_block,
                    ..
                } => {
                    assert_eq!(elif_blocks.len(), 2, "should have two elif blocks");
                    assert!(else_block.is_some(), "should have else block");
                }
                other => panic!("expected if statement, got {:?}", other),
            }
        }
        other => panic!("expected function statement, got {:?}", other),
    }
}

#[test]
fn parse_if_without_else() {
    let source = "fn main:\n    x = 10.0\n    if x > 5.0:\n        print(\"greater\")\n    elif x > 0.0:\n        print(\"positive\")\n";
    let tokens = tokenize(source).expect("tokenization should succeed");
    let program = parse(&tokens).expect("parsing should succeed");

    assert_eq!(program.statements.len(), 1);
    match &program.statements[0] {
        Statement::Function(function) => {
            match &function.body.statements[1] {
                Statement::If {
                    elif_blocks,
                    else_block,
                    ..
                } => {
                    assert_eq!(elif_blocks.len(), 1, "should have one elif block");
                    assert!(else_block.is_none(), "should not have else block");
                }
                other => panic!("expected if statement, got {:?}", other),
            }
        }
        other => panic!("expected function statement, got {:?}", other),
    }
}

#[test]
fn parse_range_for_loop() {
    let source = "fn main:\n    for i in 0..3:\n        print(i)\n";
    let tokens = tokenize(source).expect("tokenization should succeed");
    let program = parse(&tokens).expect("parsing should succeed");
    match &program.statements[0] {
        Statement::Function(function) => {
            assert_eq!(function.name, "main");
            match &function.body.statements[0] {
                Statement::For { var, iterable, body } => {
                    assert_eq!(var, "i");
                    match iterable {
                        Expr::Range { start, end } => {
                            assert!(matches!(
                                &**start,
                                Expr::Literal(Literal::Number(n)) if n == "0"
                            ));
                            assert!(matches!(
                                &**end,
                                Expr::Literal(Literal::Number(n)) if n == "3"
                            ));
                        }
                        other => panic!("expected range iterable, got {:?}", other),
                    }
                    assert_eq!(body.statements.len(), 1);
                }
                other => panic!("expected for statement, got {:?}", other),
            }
        }
        other => panic!("expected function statement, got {:?}", other),
    }
}

#[test]
fn parse_use_statement_combines_module() {
    let source = "use reqwest:get as fetch\n";
    let tokens = tokenize(source).expect("tokenization should succeed");
    let program = parse(&tokens).expect("parsing should succeed");
    match &program.statements[0] {
        Statement::Use { module, alias } => {
            assert_eq!(module, "reqwest:get");
            assert_eq!(alias.as_deref(), Some("fetch"));
        }
        other => panic!("expected use statement, got {:?}", other),
    }
}

#[test]
fn parse_number_strips_underscores() {
    let source = "x = 1_000\n";
    let tokens = tokenize(source).expect("tokenization should succeed");
    let program = parse(&tokens).expect("parsing should succeed");
    match &program.statements[0] {
        Statement::Assignment { expr, .. } => {
            assert!(matches!(expr, Expr::Literal(Literal::Number(n)) if n == "1000"));
        }
        other => panic!("expected assignment, got {:?}", other),
    }
}

#[test]
fn parse_rejects_trailing_garbage() {
    let source = "x = )\n";
    let tokens = tokenize(source).expect("tokenization should succeed");
    let errors = match parse(&tokens) {
        Ok(_) => panic!("a stray parenthesis must not parse"),
        Err(errors) => errors,
    };
    assert_eq!(errors.len(), 1);
}

#[test]
fn parse_lambda_member_await_and_spawn() {
    let source = "f = fn (a): a + 1
x = obj.field(1)
y = await fetch()
z = spawn work()
";
    let tokens = tokenize(source).expect("tokenization should succeed");
    let program = parse(&tokens).expect("parsing should succeed");
    assert_eq!(program.statements.len(), 4);
    match &program.statements[0] {
        Statement::Assignment { expr, .. } => match expr {
            Expr::Lambda { params, body, .. } => {
                assert_eq!(params.len(), 1);
                assert_eq!(params[0].name, "a");
                assert_eq!(body.statements.len(), 1);
            }
            other => panic!("expected a lambda, got {:?}", other),
        },
        other => panic!("expected assignment, got {:?}", other),
    }
    match &program.statements[1] {
        Statement::Assignment { expr, .. } => match expr {
            Expr::Call { func, args } => {
                assert!(matches!(&**func, Expr::Member { .. }));
                assert_eq!(args.len(), 1);
            }
            other => panic!("expected a member call, got {:?}", other),
        },
        other => panic!("expected assignment, got {:?}", other),
    }
    assert!(matches!(
        &program.statements[2],
        Statement::Assignment { expr: Expr::Await(_), .. }
    ));
    assert!(matches!(
        &program.statements[3],
        Statement::Assignment { expr: Expr::Spawn(_), .. }
    ));
}

#[test]
fn empty_source_parses_to_the_empty_program() {
    let tokens = tokenize("").expect("the empty source lexes");
    assert_eq!(tokens.len(), 1);
    let program = parse(&tokens).expect("the empty token stream parses");
    assert!(program.statements.is_empty());
}

#[test]
fn braceless_fstring_reads_as_a_plain_string() {
    let source = "s = f\"abc\"\n";
    let tokens = tokenize(source).expect("tokenization should succeed");
    let program = parse(&tokens).expect("parsing should succeed");
    match &program.statements[0] {
        Statement::Assignment { expr, .. } => {
            assert!(matches!(expr, Expr::Literal(Literal::String(t)) if t == "abc"));
        }
        other => panic!("expected assignment, got {:?}", other),
    }
}

#[test]
fn parse_fstring_splits_parts() {
    let source = "s = f\"a{b}c\"\n";
    let tokens = tokenize(source).expect("tokenization should succeed");
    let program = parse(&tokens).expect("parsing should succeed");
    match &program.statements[0] {
        Statement::Assignment { expr, .. } => match expr {
            Expr::FString { parts } => {
                assert_eq!(parts.len(), 3);
            }
            other => panic!("expected f-string, got {:?}", other),
        },
        other => panic!("expected assignment, got {:?}", other),
    }
}

#[test]
fn compound_assignment_desugars_to_a_binary() {
    let source = "x += 2\n";
    let tokens = tokenize(source).expect("tokenization should succeed");
    let program = parse(&tokens).expect("parsing should succeed");

    assert_eq!(program.statements.len(), 1);
    match &program.statements[0] {
        Statement::Assignment { name, expr } => {
            assert_eq!(name, "x");
            match expr {
                Expr::Binary { op, left, right } => {
                    assert_eq!(*op, otterlang::BinaryOp::Add);
                    match &**left {
                        Expr::Identifier(n) => assert_eq!(n, "x"),
                        other => panic!("expected identifier, got {:?}", other),
                    }
                    match &**right {
                        Expr::Literal(Literal::Number(n)) => assert_eq!(n, "2"),
                        other => panic!("expected number, got {:?}", other),
                    }
                }
                other => panic!("expected binary expression, got {:?}", other),
            }
        }
        stmt => panic!("expected assignment, got {:?}", stmt),
    }
}

#[test]
fn call_arguments_allow_a_trailing_comma() {
    let source = "f(1, 2,)\n";
    let tokens = tokenize(source).expect("tokenization should succeed");
    let program = parse(&tokens).expect("parsing should succeed");

    assert_eq!(program.statements.len(), 1);
    match &program.statements[0] {
        Statement::Expr(Expr::Call { func, args }) => {
            match &**func {
                Expr::Identifier(n) => assert_eq!(n, "f"),
                other => panic!("expected identifier, got {:?}", other),
            }
            assert_eq!(args.len(), 2);
        }
        stmt => panic!("expected call statement, got {:?}", stmt),
    }
}
