//! Continuous assigns and module instantiations.

use vstd::prelude::*;
use crate::vir::expr::Expression;
use crate::vir::text::{decimal, join, joined, push_decimal, views};

verus! {

/// Continuous assign.
#[derive(Debug, PartialEq, Eq)]
pub struct ContinuousAssign(pub Expression, pub Expression);

/// Every continuous assign of the sequence is well formed.
pub open spec fn conts_wf(conts: Seq<ContinuousAssign>) -> bool {
    forall|i: int| 0 <= i < conts.len() ==> (#[trigger] conts[i]).wf()
}

/// The continuous assigns as Verilog text, one on each line.
pub open spec fn conts_text(conts: Seq<ContinuousAssign>) -> Seq<char> {
    joined(conts.map_values(|cont: ContinuousAssign| cont.text()), "\n"@)
}

/// Generates verilog code for continuous assigns.
pub fn gen_verilog_conts(conts: &[ContinuousAssign]) -> (r: String)
    requires
        conts_wf(conts@),
    ensures
        r@ == conts_text(conts@),
{
    let mut lines: Vec<String> = Vec::new();
    let mut i: usize = 0;
    while i < conts.len()
        invariant
            0 <= i <= conts.len(),
            conts_wf(conts@),
            lines@.len() == i,
            forall|j: int| 0 <= j < i ==> (#[trigger] lines@[j])@ == conts@[j].text(),
        decreases conts.len() - i,
    {
        lines.push(conts[i].to_string());
        i += 1;
    }
    assert(views(lines@) =~= conts@.map_values(|cont: ContinuousAssign| cont.text()));
    join(&lines, "\n")
}

impl ContinuousAssign {
    /// Both sides of the assign are well formed.
    pub open spec fn wf(self) -> bool {
        self.0.wf() && self.1.wf()
    }

    /// The continuous assign as Verilog text.
    pub open spec fn text(self) -> Seq<char> {
        "assign "@ + self.0.text() + " = "@ + self.1.text() + ";"@
    }

    /// Tells whether the continuous assign can be written.
    pub fn is_well_formed(&self) -> (r: bool)
        ensures
            r == self.wf(),
    {
        self.0.is_well_formed() && self.1.is_well_formed()
    }

    /// Writes the continuous assign as Verilog text.
    pub fn to_string(&self) -> (r: String)
        requires
            self.wf(),
        ensures
            r@ == self.text(),
    {
        let mut out = String::from_str("assign ");
        out.append(self.0.to_string().as_str());
        out.append(" = ");
        out.append(self.1.to_string().as_str());
        out.append(";");
        out
    }

    /// Creates new continuous assign.
    pub fn new(lvalue: Expression, expr: Expression) -> (r: Self)
        ensures
            r == ContinuousAssign(lvalue, expr),
    {
        ContinuousAssign(lvalue, expr)
    }
}

/// Module instantiation.
#[derive(Debug, PartialEq, Eq)]
pub struct ModuleInstantiation {
    /// Module name.
    pub module_name: String,
    /// Inst name.
    pub inst_name: String,
    /// Params.
    pub params: Vec<(String, usize)>,
    /// Port connections.
    pub port_connections: Vec<(String, Expression)>,
}

/// A parameter of an instance with its value: `.name(value)`, indented.
pub open spec fn param_text(param: (String, usize)) -> Seq<char> {
    "    ."@ + param.0@ + "("@ + decimal(param.1 as nat) + ")"@
}

/// A port of an instance with the expression connected to it: `.port(expr)`, indented.
pub open spec fn connection_text(connection: (String, Expression)) -> Seq<char> {
    "    ."@ + connection.0@ + "("@ + connection.1.text() + ")"@
}

impl ModuleInstantiation {
    /// The expression connected to each port is well formed.
    pub open spec fn wf(self) -> bool {
        forall|i: int|
            0 <= i < self.port_connections@.len() ==> (#[trigger] self.port_connections@[i]).1.wf()
    }

    /// The module instantiation as Verilog text: the module, its parameters,
    /// the name of the instance and its port connections.
    pub open spec fn text(self) -> Seq<char> {
        self.module_name@ + " #(\n"@ + joined(
            self.params@.map_values(|param: (String, usize)| param_text(param)),
            ",\n"@,
        ) + "\n)\n"@ + self.inst_name@ + " (\n"@ + joined(
            self.port_connections@.map_values(
                |connection: (String, Expression)| connection_text(connection),
            ),
            ",\n"@,
        ) + "\n);"@
    }

    /// Tells whether the module instantiation can be written.
    pub fn is_well_formed(&self) -> (r: bool)
        ensures
            r == self.wf(),
    {
        let mut i: usize = 0;
        while i < self.port_connections.len()
            invariant
                0 <= i <= self.port_connections.len(),
                forall|j: int| 0 <= j < i ==> (#[trigger] self.port_connections@[j]).1.wf(),
            decreases self.port_connections.len() - i,
        {
            if !self.port_connections[i].1.is_well_formed() {
                return false;
            }
            i += 1;
        }
        true
    }

    /// Writes the module instantiation as Verilog text.
    pub fn to_string(&self) -> (r: String)
        requires
            self.wf(),
        ensures
            r@ == self.text(),
    {
        let mut params: Vec<String> = Vec::new();
        let mut i: usize = 0;
        while i < self.params.len()
            invariant
                0 <= i <= self.params.len(),
                params@.len() == i,
                forall|j: int| 0 <= j < i ==> (#[trigger] params@[j])@ == param_text(self.params@[j]),
            decreases self.params.len() - i,
        {
            let param = &self.params[i];
            let mut line = String::from_str("    .");
            line.append(param.0.as_str());
            line.append("(");
            push_decimal(&mut line, param.1);
            line.append(")");
            params.push(line);
            i += 1;
        }
        assert(views(params@) =~= self.params@.map_values(
            |param: (String, usize)| param_text(param),
        ));

        let mut connections: Vec<String> = Vec::new();
        let mut i: usize = 0;
        while i < self.port_connections.len()
            invariant
                0 <= i <= self.port_connections.len(),
                self.wf(),
                connections@.len() == i,
                forall|j: int|
                    0 <= j < i ==> (#[trigger] connections@[j])@ == connection_text(
                        self.port_connections@[j],
                    ),
            decreases self.port_connections.len() - i,
        {
            let connection = &self.port_connections[i];
            let mut line = String::from_str("    .");
            line.append(connection.0.as_str());
            line.append("(");
            line.append(connection.1.to_string().as_str());
            line.append(")");
            connections.push(line);
            i += 1;
        }
        assert(views(connections@) =~= self.port_connections@.map_values(
            |connection: (String, Expression)| connection_text(connection),
        ));

        let mut out = self.module_name.clone();
        out.append(" #(\n");
        out.append(join(&params, ",\n").as_str());
        out.append("\n)\n");
        out.append(self.inst_name.as_str());
        out.append(" (\n");
        out.append(join(&connections, ",\n").as_str());
        out.append("\n);");
        out
    }

    /// Creates new module instantiation.
    pub fn new(
        module_name: String,
        inst_name: String,
        params: Vec<(String, usize)>,
        port_connections: Vec<(String, Expression)>,
    ) -> (r: Self)
        ensures
            r == (ModuleInstantiation { module_name, inst_name, params, port_connections }),
    {
        ModuleInstantiation { module_name, inst_name, params, port_connections }
    }
}

impl Clone for ContinuousAssign {
    /// Returns a continuous assign of the same text.
    fn clone(&self) -> (r: Self)
        ensures
            r.text() == self.text(),
            r.wf() == self.wf(),
    {
        ContinuousAssign(self.0.clone(), self.1.clone())
    }
}

impl Clone for ModuleInstantiation {
    /// Returns a module instantiation of the same text.
    fn clone(&self) -> (r: Self)
        ensures
            r.text() == self.text(),
            r.wf() == self.wf(),
    {
        let mut params: Vec<(String, usize)> = Vec::new();
        let mut i: usize = 0;
        while i < self.params.len()
            invariant
                0 <= i <= self.params.len(),
                params@ == self.params@.take(i as int),
            decreases self.params.len() - i,
        {
            let param = &self.params[i];
            params.push((param.0.clone(), param.1));
            assert(params@ =~= self.params@.take(i + 1));
            i += 1;
        }
        assert(self.params@.take(self.params.len() as int) =~= self.params@);

        let mut connections: Vec<(String, Expression)> = Vec::new();
        let mut i: usize = 0;
        while i < self.port_connections.len()
            invariant
                0 <= i <= self.port_connections.len(),
                connections@.len() == i,
                forall|j: int|
                    0 <= j < i ==> connection_text(#[trigger] connections@[j]) == connection_text(
                        self.port_connections@[j],
                    ) && connections@[j].1.wf() == self.port_connections@[j].1.wf(),
            decreases self.port_connections.len() - i,
        {
            let connection = &self.port_connections[i];
            connections.push((connection.0.clone(), connection.1.clone()));
            i += 1;
        }
        assert(connections@.map_values(
            |connection: (String, Expression)| connection_text(connection),
        ) =~= self.port_connections@.map_values(
            |connection: (String, Expression)| connection_text(connection),
        ));
        assert forall|j: int| 0 <= j < self.port_connections@.len() implies (
        #[trigger] self.port_connections@[j]).1.wf() == connections@[j].1.wf() by {
            assert(connection_text(connections@[j]) == connection_text(self.port_connections@[j]));
        }
        ModuleInstantiation {
            module_name: self.module_name.clone(),
            inst_name: self.inst_name.clone(),
            params,
            port_connections: connections,
        }
    }
}

} // verus!
