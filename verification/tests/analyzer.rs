use swiftsc_security::ast::BinaryOp;
use swiftsc_security::ast::Block;
use swiftsc_security::ast::Contract;
use swiftsc_security::ast::ContractMember;
use swiftsc_security::ast::Expression;
use swiftsc_security::ast::ExpressionKind;
use swiftsc_security::ast::Function;
use swiftsc_security::ast::Item;
use swiftsc_security::ast::MatchArm;
use swiftsc_security::ast::Program;
use swiftsc_security::ast::Span;
use swiftsc_security::ast::Statement;
use swiftsc_security::ast::StatementKind;
use swiftsc_security::ast::StorageField;
use swiftsc_security::SecurityAnalyzer;
use swiftsc_security::SecurityWarning;

fn sp(n: usize) -> Span {
    Span::new(n, n + 1)
}

fn ident(name: &str, n: usize) -> Expression {
    Expression { kind: ExpressionKind::Identifier(name.to_string()), span: sp(n) }
}

fn bin(op: BinaryOp, left: Expression, right: Expression, n: usize) -> Expression {
    Expression {
        kind: ExpressionKind::Binary { left: Box::new(left), op, right: Box::new(right) },
        span: sp(n),
    }
}

fn field_access(obj: Expression, field: &str, n: usize) -> Expression {
    Expression {
        kind: ExpressionKind::FieldAccess { expr: Box::new(obj), field: field.to_string() },
        span: sp(n),
    }
}

fn self_field(field: &str, n: usize) -> Expression {
    field_access(ident("self", n), field, n)
}

fn call(func: Expression, args: Vec<Expression>, n: usize) -> Expression {
    Expression { kind: ExpressionKind::Call { func: Box::new(func), args }, span: sp(n) }
}

fn int_lit(v: u64, n: usize) -> Expression {
    Expression { kind: ExpressionKind::IntLiteral(v), span: sp(n) }
}

fn expr_stmt(e: Expression, n: usize) -> Statement {
    Statement { kind: StatementKind::Expr(e), span: sp(n) }
}

fn func(name: &str, stmts: Vec<Statement>) -> Function {
    Function { name: name.to_string(), body: Block { stmts } }
}

fn storage(names: &[&str]) -> ContractMember {
    ContractMember::Storage(
        names
            .iter()
            .map(|n| StorageField { name: n.to_string(), ty: "uint".to_string() })
            .collect(),
    )
}

fn contract(name: &str, members: Vec<ContractMember>) -> Item {
    Item::Contract(Contract { name: name.to_string(), members })
}

fn analyze(p: &Program) -> Vec<SecurityWarning> {
    let mut a = SecurityAnalyzer::new();
    a.analyze_program(p);
    a.get_warnings().to_vec()
}

fn codes(ws: &[SecurityWarning]) -> Vec<&'static str> {
    ws.iter().map(|w| w.code()).collect()
}

/// `self.a = 0;` as a constructor statement.
fn init_assign(field: &str, n: usize) -> Statement {
    expr_stmt(bin(BinaryOp::Assign, self_field(field, n), int_lit(0, n), n), n)
}

#[test]
fn empty_program_yields_no_warnings() {
    let p = Program { items: vec![] };
    assert!(analyze(&p).is_empty());
}

#[test]
fn ignored_items_yield_no_warnings() {
    let p = Program {
        items: vec![Item::Import("math".to_string()), Item::Import("strings".to_string())],
    };
    assert!(analyze(&p).is_empty());
}

#[test]
fn constructor_missing_one_field_warns_once() {
    let p = Program {
        items: vec![contract(
            "Wallet",
            vec![
                storage(&["a", "b"]),
                ContractMember::Init(func("init", vec![init_assign("a", 3)])),
            ],
        )],
    };
    let ws = analyze(&p);
    assert_eq!(ws.len(), 1);
    match &ws[0] {
        SecurityWarning::UninitializedVariable { name, span } => {
            assert_eq!(name, "Storage field 'b'");
            assert_eq!(*span, sp(3));
        }
        w => panic!("unexpected warning {:?}", w),
    }
    assert_eq!(ws[0].code(), "SEC-004");
    assert_eq!(ws[0].message(), "[SEC-004] Uninitialized storage variable: Storage field 'b'");
}

#[test]
fn constructor_covering_all_fields_warns_never() {
    let p = Program {
        items: vec![contract(
            "Wallet",
            vec![
                storage(&["a", "b"]),
                ContractMember::Init(func("init", vec![init_assign("a", 3), init_assign("b", 4)])),
            ],
        )],
    };
    assert!(analyze(&p).is_empty());
}

#[test]
fn contract_without_constructor_warns_for_every_field() {
    let p = Program {
        items: vec![contract("Vault", vec![storage(&["a", "b"])])],
    };
    let ws = analyze(&p);
    assert_eq!(codes(&ws), vec!["SEC-004", "SEC-004"]);
    match &ws[0] {
        SecurityWarning::UninitializedVariable { name, span } => {
            assert_eq!(name, "Storage field 'a'");
            assert_eq!(*span, Span::new(1, 1));
        }
        w => panic!("unexpected warning {:?}", w),
    }
    match &ws[1] {
        SecurityWarning::UninitializedVariable { name, .. } => {
            assert_eq!(name, "Storage field 'b'");
        }
        w => panic!("unexpected warning {:?}", w),
    }
}

#[test]
fn empty_constructor_body_uses_default_span() {
    let p = Program {
        items: vec![contract(
            "Vault",
            vec![storage(&["a"]), ContractMember::Init(func("init", vec![]))],
        )],
    };
    let ws = analyze(&p);
    assert_eq!(ws.len(), 1);
    match &ws[0] {
        SecurityWarning::UninitializedVariable { span, .. } => {
            assert_eq!(*span, Span::new(1, 1));
        }
        w => panic!("unexpected warning {:?}", w),
    }
}

#[test]
fn duplicate_field_declarations_collapse() {
    let p = Program {
        items: vec![contract(
            "Vault",
            vec![
                storage(&["a"]),
                storage(&["a"]),
                ContractMember::Init(func("init", vec![])),
            ],
        )],
    };
    let ws = analyze(&p);
    assert_eq!(ws.len(), 1);
}

#[test]
fn nested_constructor_assignment_is_not_seen() {
    // `if c { self.a = 0; }` does not count: only top-level statements are
    // scanned.
    let nested = Statement {
        kind: StatementKind::If {
            condition: ident("c", 2),
            then_branch: Block { stmts: vec![init_assign("a", 3)] },
            else_branch: None,
        },
        span: sp(2),
    };
    let p = Program {
        items: vec![contract(
            "Vault",
            vec![storage(&["a"]), ContractMember::Init(func("init", vec![nested]))],
        )],
    };
    let ws = analyze(&p);
    assert_eq!(codes(&ws), vec!["SEC-004"]);
}

#[test]
fn plain_addition_warns_add() {
    let body = vec![expr_stmt(bin(BinaryOp::Add, ident("x", 1), ident("y", 2), 5), 1)];
    let p = Program { items: vec![Item::Function(func("compute", body))] };
    let ws = analyze(&p);
    assert_eq!(ws.len(), 1);
    match &ws[0] {
        SecurityWarning::UncheckedArithmetic { operation, span } => {
            assert_eq!(operation, "Add");
            assert_eq!(*span, sp(5));
        }
        w => panic!("unexpected warning {:?}", w),
    }
    assert_eq!(ws[0].code(), "SEC-003");
    assert_eq!(
        ws[0].message(),
        "[SEC-003] Unchecked arithmetic operation: Add. Consider using SafeMath."
    );
}

#[test]
fn checked_prefix_suppresses_arithmetic_warning() {
    let body = vec![expr_stmt(bin(BinaryOp::Add, ident("x", 1), ident("y", 2), 5), 1)];
    let p = Program { items: vec![Item::Function(func("checked_add", body))] };
    assert!(analyze(&p).is_empty());
}

#[test]
fn safe_prefix_suppresses_arithmetic_warning() {
    let body = vec![expr_stmt(bin(BinaryOp::Mul, ident("x", 1), ident("y", 2), 5), 1)];
    let p = Program { items: vec![Item::Function(func("safe_mul", body))] };
    assert!(analyze(&p).is_empty());
}

#[test]
fn sub_and_mul_warn_with_their_names() {
    let body = vec![
        expr_stmt(bin(BinaryOp::Sub, ident("x", 1), ident("y", 2), 3), 1),
        expr_stmt(bin(BinaryOp::Mul, ident("x", 4), ident("y", 5), 6), 4),
    ];
    let p = Program { items: vec![Item::Function(func("f", body))] };
    let ws = analyze(&p);
    assert_eq!(ws.len(), 2);
    match &ws[0] {
        SecurityWarning::UncheckedArithmetic { operation, .. } => assert_eq!(operation, "Sub"),
        w => panic!("unexpected warning {:?}", w),
    }
    match &ws[1] {
        SecurityWarning::UncheckedArithmetic { operation, .. } => assert_eq!(operation, "Mul"),
        w => panic!("unexpected warning {:?}", w),
    }
}

#[test]
fn division_draws_no_arithmetic_warning() {
    let body = vec![expr_stmt(bin(BinaryOp::Div, ident("x", 1), ident("y", 2), 3), 1)];
    let p = Program { items: vec![Item::Function(func("f", body))] };
    assert!(analyze(&p).is_empty());
}

#[test]
fn state_write_after_external_call_warns() {
    let body = vec![
        expr_stmt(call(field_access(ident("other", 1), "call", 1), vec![], 1), 1),
        expr_stmt(bin(BinaryOp::Assign, self_field("balance", 2), int_lit(1, 2), 7), 2),
    ];
    let p = Program { items: vec![Item::Function(func("withdraw", body))] };
    let ws = analyze(&p);
    assert_eq!(ws.len(), 1);
    match &ws[0] {
        SecurityWarning::PotentialReentrancy { message, span } => {
            assert_eq!(message, "Detected state modification after potential external call");
            assert_eq!(*span, sp(7));
        }
        w => panic!("unexpected warning {:?}", w),
    }
    assert_eq!(ws[0].code(), "SEC-002");
    assert_eq!(
        ws[0].message(),
        "[SEC-002] Potential Reentrancy: Detected state modification after potential external call"
    );
}

#[test]
fn state_write_before_external_call_is_silent() {
    let body = vec![
        expr_stmt(bin(BinaryOp::Assign, self_field("balance", 1), int_lit(1, 1), 1), 1),
        expr_stmt(call(field_access(ident("other", 2), "call", 2), vec![], 2), 2),
    ];
    let p = Program { items: vec![Item::Function(func("withdraw", body))] };
    assert!(analyze(&p).is_empty());
}

#[test]
fn call_through_receiver_does_not_set_the_flag() {
    let body = vec![
        expr_stmt(call(field_access(ident("self", 1), "helper", 1), vec![], 1), 1),
        expr_stmt(bin(BinaryOp::Assign, self_field("balance", 2), int_lit(1, 2), 2), 2),
    ];
    let p = Program { items: vec![Item::Function(func("withdraw", body))] };
    assert!(analyze(&p).is_empty());
}

#[test]
fn reentrancy_and_arithmetic_fire_on_one_assignment() {
    // self.balance = self.balance + amt, after an external call: the same
    // assignment draws the reentrancy warning and its right-hand side the
    // arithmetic one.
    let body = vec![
        expr_stmt(call(field_access(ident("other", 1), "call", 1), vec![], 1), 1),
        expr_stmt(
            bin(
                BinaryOp::Assign,
                self_field("balance", 2),
                bin(BinaryOp::Add, self_field("balance", 3), ident("amt", 4), 9),
                8,
            ),
            2,
        ),
    ];
    let p = Program { items: vec![Item::Function(func("withdraw", body))] };
    let ws = analyze(&p);
    assert_eq!(codes(&ws), vec!["SEC-002", "SEC-003"]);
}

#[test]
fn flag_resets_between_functions() {
    let first = func(
        "a",
        vec![expr_stmt(call(field_access(ident("other", 1), "call", 1), vec![], 1), 1)],
    );
    let second = func(
        "b",
        vec![expr_stmt(bin(BinaryOp::Assign, self_field("x", 2), int_lit(1, 2), 2), 2)],
    );
    let p = Program { items: vec![Item::Function(first), Item::Function(second)] };
    assert!(analyze(&p).is_empty());
}

#[test]
fn call_inside_branch_poisons_later_code() {
    // A call inside one `if` branch still poisons checks in later code:
    // there is no control-flow join modelling.
    let branch_call = Statement {
        kind: StatementKind::If {
            condition: ident("c", 1),
            then_branch: Block {
                stmts: vec![expr_stmt(
                    call(field_access(ident("other", 2), "call", 2), vec![], 2),
                    2,
                )],
            },
            else_branch: Some(Block { stmts: vec![] }),
        },
        span: sp(1),
    };
    let body = vec![
        branch_call,
        expr_stmt(bin(BinaryOp::Assign, self_field("x", 3), int_lit(1, 3), 3), 3),
    ];
    let p = Program { items: vec![Item::Function(func("f", body))] };
    assert_eq!(codes(&analyze(&p)), vec!["SEC-002"]);
}

#[test]
fn arguments_of_a_call_are_walked() {
    let body = vec![expr_stmt(
        call(
            ident("helper", 1),
            vec![bin(BinaryOp::Add, ident("x", 2), ident("y", 3), 4)],
            1,
        ),
        1,
    )];
    let p = Program { items: vec![Item::Function(func("f", body))] };
    assert_eq!(codes(&analyze(&p)), vec!["SEC-003"]);
}

#[test]
fn match_arms_and_struct_initializers_are_walked() {
    let m = Expression {
        kind: ExpressionKind::Match {
            value: Box::new(ident("v", 1)),
            arms: vec![MatchArm {
                pattern: "_".to_string(),
                body: bin(BinaryOp::Add, ident("x", 2), ident("y", 3), 4),
            }],
        },
        span: sp(1),
    };
    let s = Expression {
        kind: ExpressionKind::StructInit {
            name: "Pair".to_string(),
            fields: vec![(
                "first".to_string(),
                bin(BinaryOp::Sub, ident("x", 5), ident("y", 6), 7),
            )],
        },
        span: sp(5),
    };
    let body = vec![expr_stmt(m, 1), expr_stmt(s, 5)];
    let p = Program { items: vec![Item::Function(func("f", body))] };
    assert_eq!(codes(&analyze(&p)), vec!["SEC-003", "SEC-003"]);
}

#[test]
fn loops_conditions_and_returns_are_walked() {
    let while_stmt = Statement {
        kind: StatementKind::While {
            condition: bin(BinaryOp::Lt, ident("i", 1), ident("n", 2), 3),
            body: Block {
                stmts: vec![expr_stmt(bin(BinaryOp::Add, ident("i", 4), int_lit(1, 5), 6), 4)],
            },
        },
        span: sp(1),
    };
    let for_stmt = Statement {
        kind: StatementKind::For {
            var: "j".to_string(),
            start: int_lit(0, 7),
            end: bin(BinaryOp::Mul, ident("n", 8), int_lit(2, 9), 10),
            body: Block { stmts: vec![] },
        },
        span: sp(7),
    };
    let ret_stmt = Statement {
        kind: StatementKind::Return(Some(bin(BinaryOp::Sub, ident("a", 11), ident("b", 12), 13))),
        span: sp(11),
    };
    let p = Program {
        items: vec![Item::Function(func("f", vec![while_stmt, for_stmt, ret_stmt]))],
    };
    assert_eq!(codes(&analyze(&p)), vec!["SEC-003", "SEC-003", "SEC-003"]);
}

#[test]
fn contract_methods_are_analyzed_after_the_batch() {
    let p = Program {
        items: vec![contract(
            "Vault",
            vec![
                storage(&["a"]),
                ContractMember::Function(func(
                    "grow",
                    vec![expr_stmt(bin(BinaryOp::Add, ident("x", 1), ident("y", 2), 3), 1)],
                )),
                ContractMember::Init(func("init", vec![])),
            ],
        )],
    };
    // The uninitialized-field batch comes before the method's warnings even
    // though the method is declared first.
    assert_eq!(codes(&analyze(&p)), vec!["SEC-004", "SEC-003"]);
}

#[test]
fn wrapper_expressions_are_transparent() {
    // let z = try((a - b)[i]).<generic>: the subtraction is found through
    // Try, Index and GenericInst wrappers and a Let statement.
    let sub = bin(BinaryOp::Sub, ident("a", 1), ident("b", 2), 3);
    let indexed = Expression {
        kind: ExpressionKind::Index { expr: Box::new(sub), index: Box::new(ident("i", 4)) },
        span: sp(4),
    };
    let tried = Expression { kind: ExpressionKind::Try(Box::new(indexed)), span: sp(5) };
    let inst = Expression {
        kind: ExpressionKind::GenericInst {
            target: Box::new(tried),
            type_args: vec!["uint".to_string()],
        },
        span: sp(6),
    };
    let let_stmt = Statement {
        kind: StatementKind::Let { name: "z".to_string(), init: inst },
        span: sp(1),
    };
    let p = Program { items: vec![Item::Function(func("f", vec![let_stmt]))] };
    assert_eq!(codes(&analyze(&p)), vec!["SEC-003"]);
}

#[test]
fn callee_not_behind_an_identifier_is_no_external_call() {
    // A call through `pool[0].flush()` does not set the flag: the field
    // access sits on an index expression, not on a plain identifier.
    let indexed = Expression {
        kind: ExpressionKind::Index {
            expr: Box::new(ident("pool", 1)),
            index: Box::new(int_lit(0, 1)),
        },
        span: sp(1),
    };
    let body = vec![
        expr_stmt(call(field_access(indexed, "flush", 1), vec![], 1), 1),
        expr_stmt(bin(BinaryOp::Assign, self_field("x", 2), int_lit(1, 2), 2), 2),
    ];
    let p = Program { items: vec![Item::Function(func("f", body))] };
    assert!(analyze(&p).is_empty());
}

#[test]
fn contract_events_are_skipped() {
    let p = Program {
        items: vec![contract(
            "Vault",
            vec![
                ContractMember::Event("Transfer".to_string()),
                ContractMember::Init(func("init", vec![])),
            ],
        )],
    };
    assert!(analyze(&p).is_empty());
}
