//! Declarations of ports, nets, regs and integers.

use vstd::pervasive::unreached;
use vstd::prelude::*;
use crate::vir::expr::{Expression, Primary};
use crate::vir::shape::{lemma_width_of_vector, Shape};
use crate::vir::text::{decimal, join_options, joined_options, present, push_decimal};

verus! {

/// Port declaration.
#[derive(Debug, PartialEq, Eq)]
pub enum PortDeclaration {
    /// Input declaration.
    Input(usize, String),
    /// Output declaration.
    Output(usize, String),
}

/// The bit range `[width-1:0]` of a vector that is `width` bits wide,
/// followed by a space; nothing for a single bit.
pub open spec fn port_range(width: usize) -> Seq<char> {
    if width > 1 {
        "["@ + decimal(width as nat) + "-1:0] "@
    } else {
        Seq::empty()
    }
}

impl PortDeclaration {
    /// The name of the port.
    pub open spec fn spec_name(self) -> String {
        match self {
            PortDeclaration::Input(_, name) => name,
            PortDeclaration::Output(_, name) => name,
        }
    }

    /// The port declaration as Verilog text.
    pub open spec fn text(self) -> Seq<char> {
        match self {
            PortDeclaration::Input(width, ident) => "input wire "@ + port_range(width) + ident@,
            PortDeclaration::Output(width, ident) => "output wire "@ + port_range(width) + ident@,
        }
    }

    /// Writes the port declaration as Verilog text.
    pub fn to_string(&self) -> (r: String)
        ensures
            r@ == self.text(),
    {
        let (mut out, width, ident) = match self {
            PortDeclaration::Input(width, ident) => (String::from_str("input wire "), *width, ident),
            PortDeclaration::Output(width, ident) => (
                String::from_str("output wire "),
                *width,
                ident,
            ),
        };
        let ghost head = out@;
        if width > 1 {
            out.append("[");
            push_decimal(&mut out, width);
            out.append("-1:0] ");
        }
        assert(out@ =~= head + port_range(width));
        out.append(ident.as_str());
        out
    }

    /// Creates new input port declaration.
    pub fn input(width: usize, ident: String) -> (r: Self)
        ensures
            r == PortDeclaration::Input(width, ident),
    {
        PortDeclaration::Input(width, ident)
    }

    /// Creates new output port declaration.
    pub fn output(width: usize, ident: String) -> (r: Self)
        ensures
            r == PortDeclaration::Output(width, ident),
    {
        PortDeclaration::Output(width, ident)
    }

    /// Turns an input into an output of the same width and name, and an output into an input.
    pub fn filp(self) -> (r: Self)
        ensures
            r == match self {
                PortDeclaration::Input(sz, name) => PortDeclaration::Output(sz, name),
                PortDeclaration::Output(sz, name) => PortDeclaration::Input(sz, name),
            },
    {
        match self {
            PortDeclaration::Input(sz, name) => PortDeclaration::Output(sz, name),
            PortDeclaration::Output(sz, name) => PortDeclaration::Input(sz, name),
        }
    }

    /// Returns the name of the port.
    pub fn name(&self) -> (r: String)
        ensures
            r == self.spec_name(),
    {
        match self {
            PortDeclaration::Input(_, name) => name.clone(),
            PortDeclaration::Output(_, name) => name.clone(),
        }
    }
}

/// Declaration.
#[derive(Debug, PartialEq, Eq)]
pub enum Declaration {
    /// Net declaration.
    Net(Shape, String),
    /// Reg declaration.
    Reg(Shape, String, Option<Expression>),
    /// Integer declaration.
    Integer(String),
}

/// The declaration of a vector: the keyword, `signed` for a signed vector,
/// the bit range for one that is more than one bit wide, and the name.
pub open spec fn vector_text(keyword: Seq<char>, shape: Shape, ident: Seq<char>) -> Seq<char> {
    keyword + (if shape.signed {
        " signed"@
    } else {
        Seq::empty()
    }) + (if shape.spec_width() > 1 {
        " ["@ + decimal(shape.spec_width()) + "-1:0]"@
    } else {
        Seq::empty()
    }) + " "@ + ident
}

/// The declaration of an array of vectors: the keyword, the bit range of a
/// vector, the name, and the range of the array.
pub open spec fn array_text(keyword: Seq<char>, shape: Shape, ident: Seq<char>) -> Seq<char> {
    keyword + " ["@ + decimal(shape.inner@[1] as nat) + "-1:0] "@ + ident + "["@ + decimal(
        shape.inner@[0] as nat,
    ) + "-1:0]"@
}

/// The declaration of a signal of one or two dimensions.
pub open spec fn signal_text(keyword: Seq<char>, shape: Shape, ident: Seq<char>) -> Seq<char> {
    if shape.inner@.len() == 2 {
        array_text(keyword, shape, ident)
    } else {
        vector_text(keyword, shape, ident)
    }
}

/// The shape can be declared: a vector, or an unsigned array of vectors.
pub open spec fn is_declarable(shape: Shape) -> bool {
    shape.inner@.len() == 1 || (shape.inner@.len() == 2 && !shape.signed)
}

fn shape_is_declarable(shape: &Shape) -> (r: bool)
    ensures
        r == is_declarable(*shape),
{
    shape.dim() == 1 || (shape.dim() == 2 && !shape.is_signed())
}

fn push_vector(out: &mut String, shape: &Shape, ident: &str)
    requires
        shape.inner@.len() == 1,
    ensures
        final(out)@ == vector_text(old(out)@, *shape, ident@),
{
    proof {
        lemma_width_of_vector(*shape);
    }
    if shape.is_signed() {
        out.append(" signed");
    }
    let ghost head = out@;
    let width = shape.width();
    if width > 1 {
        out.append(" [");
        push_decimal(out, width);
        out.append("-1:0]");
    }
    assert(out@ =~= head + (if shape.spec_width() > 1 {
        " ["@ + decimal(shape.spec_width()) + "-1:0]"@
    } else {
        Seq::empty()
    }));
    out.append(" ");
    out.append(ident);
    assert(out@ =~= vector_text(old(out)@, *shape, ident@));
}

fn push_signal(out: &mut String, shape: &Shape, ident: &str)
    requires
        is_declarable(*shape),
    ensures
        final(out)@ == signal_text(old(out)@, *shape, ident@),
{
    if shape.dim() == 2 {
        out.append(" [");
        push_decimal(out, shape.get(1));
        out.append("-1:0] ");
        out.append(ident);
        out.append("[");
        push_decimal(out, shape.get(0));
        out.append("-1:0]");
    } else {
        push_vector(out, shape, ident);
    }
}

impl Declaration {
    /// The declaration can be written: a net or a reg without an initial
    /// value is a vector or an unsigned array of vectors, and a reg with an
    /// initial value is a vector whose initial value is well formed.
    pub open spec fn wf(self) -> bool {
        match self {
            Declaration::Net(shape, _) => is_declarable(shape),
            Declaration::Reg(shape, _, Some(init)) => shape.inner@.len() == 1 && init.wf(),
            Declaration::Reg(shape, _, None) => is_declarable(shape),
            Declaration::Integer(_) => true,
        }
    }

    /// The name that is declared.
    pub open spec fn spec_name(self) -> String {
        match self {
            Declaration::Net(_, x) => x,
            Declaration::Reg(_, x, _) => x,
            Declaration::Integer(x) => x,
        }
    }

    /// The declaration as Verilog text.
    pub open spec fn text(self) -> Seq<char> {
        match self {
            Declaration::Net(shape, ident) => signal_text("wire"@, shape, ident@) + ";"@,
            Declaration::Reg(shape, ident, Some(init)) => vector_text("reg"@, shape, ident@)
                + " = "@ + init.text() + ";"@,
            Declaration::Reg(shape, ident, None) => signal_text("reg"@, shape, ident@) + ";"@,
            Declaration::Integer(ident) => "integer "@ + ident@ + ";"@,
        }
    }

    /// Tells whether the declaration can be written.
    pub fn is_well_formed(&self) -> (r: bool)
        ensures
            r == self.wf(),
    {
        match self {
            Declaration::Net(shape, _) => shape_is_declarable(shape),
            Declaration::Reg(shape, _, Some(init)) => shape.dim() == 1 && init.is_well_formed(),
            Declaration::Reg(shape, _, None) => shape_is_declarable(shape),
            Declaration::Integer(_) => true,
        }
    }

    /// Generates verilog code.
    pub fn to_string(&self) -> (r: String)
        requires
            self.wf(),
        ensures
            r@ == self.text(),
    {
        match self {
            Declaration::Net(shape, ident) => {
                let mut out = String::from_str("wire");
                push_signal(&mut out, shape, ident.as_str());
                out.append(";");
                out
            },
            Declaration::Reg(shape, ident, Some(init)) => {
                let mut out = String::from_str("reg");
                push_vector(&mut out, shape, ident.as_str());
                out.append(" = ");
                out.append(init.to_string().as_str());
                out.append(";");
                out
            },
            Declaration::Reg(shape, ident, None) => {
                let mut out = String::from_str("reg");
                push_signal(&mut out, shape, ident.as_str());
                out.append(";");
                out
            },
            Declaration::Integer(ident) => {
                let mut out = String::from_str("integer ");
                out.append(ident.as_str());
                out.append(";");
                out
            },
        }
    }

    /// Returns the shape of the declaration.
    pub fn shape(&self) -> (r: Shape)
        requires
            !(self is Integer),
        ensures
            match *self {
                Declaration::Net(shape, _) => r.inner@ == shape.inner@ && r.signed == shape.signed,
                Declaration::Reg(shape, _, _) => r.inner@ == shape.inner@ && r.signed
                    == shape.signed,
                Declaration::Integer(_) => false,
            },
    {
        match self {
            Declaration::Net(shape, _) => shape.clone(),
            Declaration::Reg(shape, _, _) => shape.clone(),
            Declaration::Integer(_) => unreached(),
        }
    }

    /// Net declaration.
    #[inline]
    pub fn net(shape: Shape, ident: String) -> (r: Self)
        ensures
            r == Declaration::Net(shape, ident),
    {
        Declaration::Net(shape, ident)
    }

    /// Reg declaration with no init value.
    #[inline]
    pub fn reg(shape: Shape, ident: String) -> (r: Self)
        ensures
            r == Declaration::Reg(shape, ident, None),
    {
        Declaration::Reg(shape, ident, None)
    }

    /// Gives a reg of one dimension that has no initial value the initial value `init`.
    #[inline]
    pub fn with_init(self, init: Expression) -> (r: Self)
        requires
            self matches Declaration::Reg(shape, _, None) && shape.inner@.len() == 1,
        ensures
            self matches Declaration::Reg(shape, ident, _) && r == Declaration::Reg(
                shape,
                ident,
                Some(init),
            ),
    {
        match self {
            Declaration::Reg(shape, ident, None) => Declaration::Reg(shape, ident, Some(init)),
            _ => unreached(),
        }
    }

    /// Reg declarations with value type: one reg without an initial value for
    /// each port, in order, of the shape of the port. Its name is the prefix
    /// and the name of the port joined by `_`, or the one of them that is present.
    pub fn reg_with_typ(typ: Vec<(Option<String>, Shape)>, prefix: Option<String>) -> (r: Vec<
        Declaration,
    >)
        requires
            forall|i: int| 0 <= i < typ@.len() ==> prefix is Some || (#[trigger] typ@[i]).0 is Some,
        ensures
            r@.len() == typ@.len(),
            forall|i: int|
                0 <= i < typ@.len() ==> (#[trigger] r@[i] matches Declaration::Reg(
                    shape,
                    ident,
                    None,
                ) && shape.inner@ == typ@[i].1.inner@ && shape.signed == typ@[i].1.signed && Some(
                    ident@,
                ) == joined_options(seq![prefix, typ@[i].0], "_"@)),
    {
        let mut out: Vec<Declaration> = Vec::new();
        let mut i: usize = 0;
        while i < typ.len()
            invariant
                0 <= i <= typ.len(),
                forall|i: int|
                    0 <= i < typ@.len() ==> prefix is Some || (#[trigger] typ@[i]).0 is Some,
                out@.len() == i,
                forall|j: int|
                    0 <= j < i ==> (#[trigger] out@[j] matches Declaration::Reg(
                        shape,
                        ident,
                        None,
                    ) && shape.inner@ == typ@[j].1.inner@ && shape.signed == typ@[j].1.signed
                        && Some(ident@) == joined_options(seq![prefix, typ@[j].0], "_"@)),
            decreases typ.len() - i,
        {
            let port = &typ[i];
            let names = vec![prefix.clone(), port.0.clone()];
            assert(names@ =~= seq![prefix, typ@[i as int].0]);
            proof {
                lemma_pair_is_present(prefix, typ@[i as int].0);
            }
            let ident = match join_options("_", names) {
                Some(ident) => ident,
                None => unreached(),
            };
            out.push(Declaration::reg(port.1.clone(), ident));
            i += 1;
        }
        out
    }

    /// Returns the identifier of the declaration.
    pub fn ident(&self) -> (r: Expression)
        ensures
            r == Expression::Primary(Primary::HierarchicalIdentifier(self.spec_name(), None)),
    {
        Expression::ident(self.name())
    }

    /// Returns the name that is declared.
    pub fn name(&self) -> (r: String)
        ensures
            r == self.spec_name(),
    {
        match self {
            Declaration::Net(_, x) => x.clone(),
            Declaration::Reg(_, x, _) => x.clone(),
            Declaration::Integer(x) => x.clone(),
        }
    }

    /// Integer declaration.
    #[inline]
    pub fn integer(ident: String) -> (r: Self)
        ensures
            r == Declaration::Integer(ident),
    {
        Declaration::Integer(ident)
    }
}

proof fn lemma_pair_is_present(a: Option<String>, b: Option<String>)
    requires
        a is Some || b is Some,
    ensures
        joined_options(seq![a, b], "_"@) is Some,
{
    let none = Seq::<Option<String>>::empty();
    assert(present(none).len() == 0);
    assert(seq![a].drop_last() =~= none);
    assert(seq![a].last() == a);
    assert(present(seq![a]).len() == if a is Some {
        1nat
    } else {
        0nat
    });
    assert(seq![a, b].drop_last() =~= seq![a]);
    assert(seq![a, b].last() == b);
}

impl Clone for PortDeclaration {
    fn clone(&self) -> (r: Self)
        ensures
            r == *self,
    {
        match self {
            PortDeclaration::Input(width, ident) => PortDeclaration::Input(*width, ident.clone()),
            PortDeclaration::Output(width, ident) => PortDeclaration::Output(*width, ident.clone()),
        }
    }
}

impl Clone for Declaration {
    /// Returns a declaration of the same text.
    fn clone(&self) -> (r: Self)
        ensures
            r.text() == self.text(),
            r.wf() == self.wf(),
            r.spec_name() == self.spec_name(),
    {
        match self {
            Declaration::Net(shape, ident) => Declaration::Net(shape.clone(), ident.clone()),
            Declaration::Reg(shape, ident, Some(init)) => Declaration::Reg(
                shape.clone(),
                ident.clone(),
                Some(init.clone()),
            ),
            Declaration::Reg(shape, ident, None) => Declaration::Reg(
                shape.clone(),
                ident.clone(),
                None,
            ),
            Declaration::Integer(ident) => Declaration::Integer(ident.clone()),
        }
    }
}

} // verus!
