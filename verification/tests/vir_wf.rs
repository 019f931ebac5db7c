use hazardflow::vir::decl::{Declaration, PortDeclaration};
use hazardflow::vir::expr::{Concatenation, Expression, Primary, Range, exprs_are_well_formed};
use hazardflow::vir::wiring::{ContinuousAssign, ModuleInstantiation};
use hazardflow::vir::module::{
    conts_are_well_formed, decls_are_well_formed, items_are_well_formed, Module, ModuleItem,
};
use hazardflow::vir::ops::{BinaryOp, UnaryOp};
use hazardflow::vir::shape::Shape;
use hazardflow::vir::stmt::{stmts_are_well_formed, Statement};

fn s(text: &str) -> String {
    text.to_string()
}

fn id(name: &str) -> Expression {
    Expression::ident(s(name))
}

fn empty_concat() -> Expression {
    Expression::Primary(Primary::Concatenation(Concatenation { exprs: vec![] }))
}

#[test]
fn expressions_with_operands_are_well_formed() {
    assert!(id("a").is_well_formed());
    assert!(Expression::number(s("1")).is_well_formed());
    assert!(id("a").concat(id("b")).is_well_formed());
    assert!(id("a").multiple_concat(3).is_well_formed());
    assert!(Expression::binary(BinaryOp::Add, id("a"), id("b")).is_well_formed());
    assert!(Expression::conditional(id("c"), id("a"), id("b")).is_well_formed());
    assert!(id("a").with_range(Range::new_range(id("b"), id("c"))).is_well_formed());
    assert!(exprs_are_well_formed(&vec![]));
    assert!(exprs_are_well_formed(&vec![id("a"), id("b")]));
}

#[test]
fn empty_concatenation_is_not_well_formed() {
    assert!(!empty_concat().is_well_formed());
    assert!(!Concatenation { exprs: vec![] }.is_well_formed());
    assert!(!Primary::MultipleConcatenation(2, Concatenation { exprs: vec![] }).is_well_formed());
    assert!(!exprs_are_well_formed(&vec![id("a"), empty_concat()]));
}

#[test]
fn empty_concatenation_is_found_wherever_it_hides() {
    assert!(!id("a").concat(empty_concat()).is_well_formed());
    assert!(!Expression::unary(UnaryOp::Negation, empty_concat()).is_well_formed());
    assert!(!Expression::binary(BinaryOp::Add, id("a"), empty_concat()).is_well_formed());
    assert!(!Expression::binary(BinaryOp::Add, empty_concat(), id("a")).is_well_formed());
    assert!(!Expression::conditional(empty_concat(), id("a"), id("b")).is_well_formed());
    assert!(!Expression::conditional(id("c"), empty_concat(), id("b")).is_well_formed());
    assert!(!Expression::conditional(id("c"), id("a"), empty_concat()).is_well_formed());
    assert!(!Expression::mintypmax_expr(empty_concat()).is_well_formed());
    assert!(!id("a").with_range(Range::new_index(empty_concat())).is_well_formed());
    assert!(!Range::new_range(id("a"), empty_concat()).is_well_formed());
    assert!(!Range::new_range(empty_concat(), id("a")).is_well_formed());
}

#[test]
fn declarations_of_one_or_two_dimensions_are_well_formed() {
    assert!(Declaration::net(Shape::new(vec![8], true), s("w")).is_well_formed());
    assert!(Declaration::net(Shape::new(vec![4, 8], false), s("w")).is_well_formed());
    assert!(!Declaration::net(Shape::new(vec![4, 8], true), s("w")).is_well_formed());
    assert!(!Declaration::net(Shape::new(vec![], false), s("w")).is_well_formed());
    assert!(!Declaration::net(Shape::new(vec![1, 2, 3], false), s("w")).is_well_formed());
    assert!(Declaration::reg(Shape::new(vec![4, 8], false), s("r")).is_well_formed());
    assert!(!Declaration::reg(Shape::new(vec![4, 8], true), s("r")).is_well_formed());
    assert!(Declaration::integer(s("i")).is_well_formed());
    assert!(Declaration::Reg(Shape::new(vec![8], false), s("r"), Some(id("a"))).is_well_formed());
    assert!(!Declaration::Reg(Shape::new(vec![4, 8], false), s("r"), Some(id("a"))).is_well_formed());
    assert!(!Declaration::Reg(Shape::new(vec![8], false), s("r"), Some(empty_concat())).is_well_formed());
    assert!(decls_are_well_formed(&vec![Declaration::integer(s("i"))]));
    assert!(!decls_are_well_formed(&vec![
        Declaration::integer(s("i")),
        Declaration::net(Shape::new(vec![], false), s("w")),
    ]));
}

#[test]
fn assigns_and_instances_are_checked() {
    assert!(ContinuousAssign::new(id("a"), id("b")).is_well_formed());
    assert!(!ContinuousAssign::new(id("a"), empty_concat()).is_well_formed());
    assert!(!ContinuousAssign::new(empty_concat(), id("a")).is_well_formed());
    assert!(conts_are_well_formed(&vec![]));
    assert!(!conts_are_well_formed(&vec![ContinuousAssign::new(id("a"), empty_concat())]));
    assert!(ModuleInstantiation::new(s("m"), s("u"), vec![], vec![(s("p"), id("a"))]).is_well_formed());
    assert!(!ModuleInstantiation::new(
        s("m"),
        s("u"),
        vec![],
        vec![(s("p"), id("a")), (s("q"), empty_concat())]
    )
    .is_well_formed());
}

#[test]
fn statements_are_checked() {
    let good = || Statement::BlockingAssignment(id("x"), id("a"), s("sp"));
    let bad = || Statement::NonblockingAssignment(id("x"), empty_concat(), s("sp"));
    assert!(good().is_well_formed());
    assert!(!bad().is_well_formed());
    assert!(Statement::Fatal.is_well_formed());
    assert!(Statement::Conditional(vec![], vec![], s("sp")).is_well_formed());
    // an else branch without any condition cannot be written
    assert!(!Statement::Conditional(vec![], vec![good()], s("sp")).is_well_formed());
    assert!(Statement::Conditional(vec![(id("c"), vec![good()])], vec![good()], s("sp")).is_well_formed());
    assert!(!Statement::Conditional(vec![(id("c"), vec![bad()])], vec![], s("sp")).is_well_formed());
    assert!(!Statement::Conditional(vec![(empty_concat(), vec![])], vec![], s("sp")).is_well_formed());
    assert!(!Statement::Conditional(vec![(id("c"), vec![])], vec![bad()], s("sp")).is_well_formed());
    assert!(Statement::Loop(s("i"), id("n"), vec![good()], s("sp")).is_well_formed());
    assert!(!Statement::Loop(s("i"), empty_concat(), vec![], s("sp")).is_well_formed());
    assert!(!Statement::Loop(s("i"), id("n"), vec![bad()], s("sp")).is_well_formed());
    assert!(Statement::Case(id("e"), vec![(id("c"), vec![good()])], vec![good()], s("sp")).is_well_formed());
    assert!(!Statement::Case(empty_concat(), vec![], vec![], s("sp")).is_well_formed());
    assert!(!Statement::Case(id("e"), vec![(id("c"), vec![bad()])], vec![], s("sp")).is_well_formed());
    assert!(!Statement::Case(id("e"), vec![], vec![bad()], s("sp")).is_well_formed());
    assert!(Statement::Display(s("f"), vec![id("a")], s("sp")).is_well_formed());
    assert!(!Statement::Display(s("f"), vec![empty_concat()], s("sp")).is_well_formed());
    assert!(stmts_are_well_formed(&vec![good(), Statement::Fatal]));
    assert!(!stmts_are_well_formed(&vec![good(), bad()]));
}

#[test]
fn module_items_are_checked() {
    let bad = || Statement::NonblockingAssignment(id("x"), empty_concat(), s("sp"));
    assert!(ModuleItem::AlwaysConstruct(s("always @*"), vec![]).is_well_formed());
    assert!(!ModuleItem::AlwaysConstruct(s("always @*"), vec![bad()]).is_well_formed());
    assert!(!ModuleItem::Declarations(vec![Declaration::net(Shape::new(vec![], false), s("w"))])
        .is_well_formed());
    assert!(!ModuleItem::ContinuousAssigns(vec![ContinuousAssign::new(id("a"), empty_concat())])
        .is_well_formed());
    let nested = ModuleItem::comment(
        s("c"),
        None,
        vec![ModuleItem::comment(s("d"), None, vec![ModuleItem::AlwaysConstruct(s("e"), vec![bad()])])],
    );
    assert!(!nested.is_well_formed());
    assert!(items_are_well_formed(&vec![ModuleItem::comment(s("c"), None, vec![])]));
    let module = Module { name: s("m"), port_decls: vec![], module_items: vec![nested] };
    assert!(!module.is_well_formed());
    let module = Module {
        name: s("m"),
        port_decls: vec![PortDeclaration::input(1, s("clk"))],
        module_items: vec![ModuleItem::Declarations(vec![Declaration::integer(s("i"))])],
    };
    assert!(module.is_well_formed());
}

#[test]
fn checked_width_tells_when_the_width_fits() {
    assert_eq!(Shape::new(vec![4, 8], false).checked_width(), Some(32));
    assert_eq!(Shape::new(vec![], false).checked_width(), Some(1));
    assert_eq!(Shape::new(vec![usize::MAX], false).checked_width(), Some(usize::MAX));
    assert_eq!(Shape::new(vec![usize::MAX, 2], false).checked_width(), None);
    // an intermediate product that does not fit is refused, though the whole product is zero
    assert_eq!(Shape::new(vec![usize::MAX, 2, 0], false).checked_width(), None);
    assert_eq!(Shape::new(vec![0, usize::MAX, 2], false).checked_width(), Some(0));
}

#[test]
fn clones_are_equal() {
    let e = Expression::conditional(
        Expression::binary(BinaryOp::Less, id("a"), Expression::number(s("4'd3"))),
        id("x").concat(id("y")).multiple_concat(2),
        Expression::unary(UnaryOp::Negation, id("m").with_range(Range::new_index(id("i")))),
    );
    assert_eq!(e.clone(), e);
    assert_eq!(e.clone().to_string(), e.to_string());

    let port = PortDeclaration::input(8, s("a"));
    assert_eq!(port.clone(), port);

    let decl = Declaration::Reg(Shape::new(vec![8], true), s("r"), Some(e.clone()));
    assert_eq!(decl.clone(), decl);

    let cont = ContinuousAssign::new(id("y"), e.clone());
    assert_eq!(cont.clone(), cont);

    let inst = ModuleInstantiation::new(s("m"), s("u"), vec![(s("N"), 2)], vec![(s("p"), e.clone())]);
    assert_eq!(inst.clone(), inst);

    let stmt = Statement::Case(
        id("sel"),
        vec![(
            Expression::number(s("0")),
            vec![Statement::Conditional(
                vec![(id("c"), vec![Statement::BlockingAssignment(id("x"), e.clone(), s("s1"))])],
                vec![Statement::Loop(s("i"), id("n"), vec![Statement::Fatal], s("s2"))],
                s("s3"),
            )],
        )],
        vec![Statement::Display(s("f"), vec![id("a"), id("b")], s("s4"))],
        s("s5"),
    );
    assert_eq!(stmt.clone(), stmt);
    assert_eq!(stmt.clone().to_string(), stmt.to_string());

    let module = Module {
        name: s("top"),
        port_decls: vec![port.clone(), PortDeclaration::output(1, s("v"))],
        module_items: vec![
            ModuleItem::Declarations(vec![decl.clone()]),
            ModuleItem::ContinuousAssigns(vec![cont.clone()]),
            ModuleItem::ModuleInstantiation(inst.clone()),
            ModuleItem::comment(
                s("c"),
                Some(s("d")),
                vec![ModuleItem::AlwaysConstruct(s("always @*"), vec![stmt.clone()])],
            ),
        ],
    };
    assert_eq!(module.clone(), module);
    assert_eq!(module.clone().to_string(), module.to_string());
}
