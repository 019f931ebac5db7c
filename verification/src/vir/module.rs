//! Modules and the items in them.

use vstd::prelude::*;
use crate::vir::decl::{Declaration, PortDeclaration};
use crate::vir::wiring::{
    conts_text,
    conts_wf,
    gen_verilog_conts,
    ContinuousAssign,
    ModuleInstantiation,
};
use crate::vir::stmt::{
    block_text,
    clone_stmts,
    block_to_string,
    stmts_are_well_formed,
    stmts_wf,
    Statement,
    INDENT,
};
use crate::vir::text::{indent, indented, join, joined, views};

verus! {

/// Module.
#[derive(Debug, PartialEq, Eq)]
pub struct Module {
    /// Module name.
    pub name: String,
    /// Port declarations.
    pub port_decls: Vec<PortDeclaration>,
    /// Module items.
    pub module_items: Vec<ModuleItem>,
}

/// Module item.
#[derive(Debug, PartialEq, Eq)]
pub enum ModuleItem {
    /// Declarations.
    Declarations(Vec<Declaration>),
    /// Continuous assignments.
    ContinuousAssigns(Vec<ContinuousAssign>),
    /// Module instantiation.
    ModuleInstantiation(ModuleInstantiation),
    /// Always construct: the event that triggers it, and its statements.
    AlwaysConstruct(String, Vec<Statement>),
    /// Comment. (Comment before modules, comment after modules, modules)
    Commented(String, Option<String>, Vec<ModuleItem>),
}

/// Every declaration of the sequence is well formed.
pub open spec fn decls_wf(decls: Seq<Declaration>) -> bool {
    forall|i: int| 0 <= i < decls.len() ==> (#[trigger] decls[i]).wf()
}

/// Every module item of the sequence is well formed.
pub open spec fn items_wf(items: Seq<ModuleItem>) -> bool
    decreases items, 0nat,
{
    forall|i: int| 0 <= i < items.len() ==> (#[trigger] items[i]).wf()
}

/// The declarations as Verilog text, one on each line.
pub open spec fn decls_text(decls: Seq<Declaration>) -> Seq<char> {
    joined(decls.map_values(|decl: Declaration| decl.text()), "\n"@)
}

/// The texts of a sequence of module items, in order.
pub open spec fn item_texts(items: Seq<ModuleItem>) -> Seq<Seq<char>>
    decreases items, 0nat,
{
    if items.len() == 0 {
        Seq::empty()
    } else {
        item_texts(items.drop_last()).push(items.last().text())
    }
}

/// The module items as Verilog text, with an empty line between each two neighbours.
pub open spec fn module_text(items: Seq<ModuleItem>) -> Seq<char>
    decreases items, 1nat,
{
    joined(item_texts(items), "\n\n"@)
}

impl ModuleItem {
    /// The module item can be written: all that it holds is well formed.
    pub open spec fn wf(self) -> bool
        decreases self, 0nat,
    {
        match self {
            ModuleItem::Declarations(decls) => decls_wf(decls@),
            ModuleItem::ContinuousAssigns(conts) => conts_wf(conts@),
            ModuleItem::ModuleInstantiation(module_inst) => module_inst.wf(),
            ModuleItem::AlwaysConstruct(_, stmts) => stmts_wf(stmts@),
            ModuleItem::Commented(_, _, items) => items_wf(items@),
        }
    }

    /// The module item as Verilog text.
    pub open spec fn text(self) -> Seq<char>
        decreases self, 0nat,
    {
        match self {
            ModuleItem::Declarations(decls) => decls_text(decls@),
            ModuleItem::ContinuousAssigns(conts) => conts_text(conts@),
            ModuleItem::ModuleInstantiation(module_inst) => module_inst.text(),
            ModuleItem::AlwaysConstruct(event, stmts) => event@ + " begin\n"@ + block_text(stmts@)
                + "\nend"@,
            ModuleItem::Commented(comment_before, comment_after, items) => "/*\n"@ + indented(
                comment_before@,
                INDENT as nat,
            ) + "\n*/\n"@ + module_text(items@) + (match comment_after {
                Some(c) => "\n/* "@ + c@ + " */"@,
                None => Seq::empty(),
            }),
        }
    }

    /// Wrap module items into with comment
    pub fn comment(comment_before: String, comment_after: Option<String>, items: Vec<Self>) -> (r:
        ModuleItem)
        ensures
            r == ModuleItem::Commented(comment_before, comment_after, items),
    {
        ModuleItem::Commented(comment_before, comment_after, items)
    }

    /// Tells whether the module item can be written.
    pub fn is_well_formed(&self) -> (r: bool)
        ensures
            r == self.wf(),
        decreases self, 0nat,
    {
        match self {
            ModuleItem::Declarations(decls) => decls_are_well_formed(decls),
            ModuleItem::ContinuousAssigns(conts) => conts_are_well_formed(conts),
            ModuleItem::ModuleInstantiation(module_inst) => module_inst.is_well_formed(),
            ModuleItem::AlwaysConstruct(_, stmts) => stmts_are_well_formed(stmts),
            ModuleItem::Commented(_, _, items) => items_are_well_formed(items),
        }
    }

    /// Writes the module item as Verilog text.
    pub fn to_string(&self) -> (r: String)
        requires
            self.wf(),
        ensures
            r@ == self.text(),
        decreases self, 0nat,
    {
        match self {
            ModuleItem::Declarations(decls) => {
                let mut lines: Vec<String> = Vec::new();
                let mut i: usize = 0;
                while i < decls.len()
                    invariant
                        0 <= i <= decls.len(),
                        decls_wf(decls@),
                        lines@.len() == i,
                        forall|j: int| 0 <= j < i ==> (#[trigger] lines@[j])@ == decls@[j].text(),
                    decreases decls.len() - i,
                {
                    lines.push(decls[i].to_string());
                    i += 1;
                }
                assert(views(lines@) =~= decls@.map_values(|decl: Declaration| decl.text()));
                join(&lines, "\n")
            },
            ModuleItem::ContinuousAssigns(conts) => gen_verilog_conts(conts.as_slice()),
            ModuleItem::ModuleInstantiation(module_inst) => module_inst.to_string(),
            ModuleItem::AlwaysConstruct(event, stmts) => {
                let mut out = event.clone();
                out.append(" begin\n");
                out.append(block_to_string(stmts).as_str());
                out.append("\nend");
                out
            },
            ModuleItem::Commented(comment_before, comment_after, items) => {
                let mut out = String::from_str("/*\n");
                out.append(indent(comment_before.clone(), INDENT).as_str());
                out.append("\n*/\n");
                out.append(items_to_string(items).as_str());
                let ghost head = out@;
                match comment_after {
                    Some(c) => {
                        let mut tail = String::from_str("\n/* ");
                        tail.append(c.as_str());
                        tail.append(" */");
                        out.append(tail.as_str());
                    },
                    None => {},
                }
                assert(out@ =~= self.text());
                out
            },
        }
    }
}

/// Tells whether every declaration of the vector is well formed.
pub fn decls_are_well_formed(decls: &Vec<Declaration>) -> (r: bool)
    ensures
        r == decls_wf(decls@),
{
    let mut i: usize = 0;
    while i < decls.len()
        invariant
            0 <= i <= decls.len(),
            forall|j: int| 0 <= j < i ==> (#[trigger] decls@[j]).wf(),
        decreases decls.len() - i,
    {
        if !decls[i].is_well_formed() {
            return false;
        }
        i += 1;
    }
    true
}

/// Tells whether every continuous assign of the vector is well formed.
pub fn conts_are_well_formed(conts: &Vec<ContinuousAssign>) -> (r: bool)
    ensures
        r == conts_wf(conts@),
{
    let mut i: usize = 0;
    while i < conts.len()
        invariant
            0 <= i <= conts.len(),
            forall|j: int| 0 <= j < i ==> (#[trigger] conts@[j]).wf(),
        decreases conts.len() - i,
    {
        if !conts[i].is_well_formed() {
            return false;
        }
        i += 1;
    }
    true
}

/// Tells whether every module item of the vector is well formed.
pub fn items_are_well_formed(items: &Vec<ModuleItem>) -> (r: bool)
    ensures
        r == items_wf(items@),
    decreases items, 1nat,
{
    let mut i: usize = 0;
    while i < items.len()
        invariant
            0 <= i <= items.len(),
            forall|j: int| 0 <= j < i ==> (#[trigger] items@[j]).wf(),
        decreases items.len() - i,
    {
        if !items[i].is_well_formed() {
            return false;
        }
        i += 1;
    }
    true
}

fn items_to_string(items: &Vec<ModuleItem>) -> (r: String)
    requires
        items_wf(items@),
    ensures
        r@ == module_text(items@),
    decreases items, 1nat,
{
    let mut texts: Vec<String> = Vec::new();
    let mut i: usize = 0;
    while i < items.len()
        invariant
            0 <= i <= items.len(),
            items_wf(items@),
            views(texts@) == item_texts(items@.take(i as int)),
        decreases items.len() - i,
    {
        assert(items@.take(i + 1).drop_last() =~= items@.take(i as int));
        assert(items@.take(i + 1).last() == items@[i as int]);
        let ghost before = texts@;
        let text = items[i].to_string();
        texts.push(text);
        assert(views(texts@) =~= views(before).push(text@));
        i += 1;
    }
    assert(items@.take(items.len() as int) =~= items@);
    join(&texts, "\n\n")
}

/// Generates Verilog code for module items.
pub fn gen_verilog_module(module: &[ModuleItem]) -> (r: String)
    requires
        items_wf(module@),
    ensures
        r@ == module_text(module@),
{
    let mut texts: Vec<String> = Vec::new();
    let mut i: usize = 0;
    while i < module.len()
        invariant
            0 <= i <= module.len(),
            items_wf(module@),
            views(texts@) == item_texts(module@.take(i as int)),
        decreases module.len() - i,
    {
        assert(module@.take(i + 1).drop_last() =~= module@.take(i as int));
        assert(module@.take(i + 1).last() == module@[i as int]);
        let ghost before = texts@;
        let text = module[i].to_string();
        texts.push(text);
        assert(views(texts@) =~= views(before).push(text@));
        i += 1;
    }
    assert(module@.take(module.len() as int) =~= module@);
    join(&texts, "\n\n")
}

/// The port declarations as Verilog text, one on each line, separated by commas.
pub open spec fn ports_text(ports: Seq<PortDeclaration>) -> Seq<char> {
    joined(ports.map_values(|port: PortDeclaration| port.text()), ",\n"@)
}

impl Module {
    /// The module can be written: its items are well formed.
    pub open spec fn wf(self) -> bool {
        items_wf(self.module_items@)
    }

    /// The module as Verilog text: its name, its ports between parentheses,
    /// and its items in a generate block.
    pub open spec fn text(self) -> Seq<char> {
        "module "@ + self.name@ + "\n(\n"@ + indented(ports_text(self.port_decls@), INDENT as nat)
            + "\n);\n\ngenerate\n"@ + module_text(self.module_items@)
            + "\nendgenerate\nendmodule"@
    }

    /// Tells whether the module can be written.
    pub fn is_well_formed(&self) -> (r: bool)
        ensures
            r == self.wf(),
    {
        items_are_well_formed(&self.module_items)
    }

    /// Writes the module as Verilog text.
    pub fn to_string(&self) -> (r: String)
        requires
            self.wf(),
        ensures
            r@ == self.text(),
    {
        let mut ports: Vec<String> = Vec::new();
        let mut i: usize = 0;
        while i < self.port_decls.len()
            invariant
                0 <= i <= self.port_decls.len(),
                ports@.len() == i,
                forall|j: int| 0 <= j < i ==> (#[trigger] ports@[j])@ == self.port_decls@[j].text(),
            decreases self.port_decls.len() - i,
        {
            ports.push(self.port_decls[i].to_string());
            i += 1;
        }
        assert(views(ports@) =~= self.port_decls@.map_values(
            |port: PortDeclaration| port.text(),
        ));
        let mut out = String::from_str("module ");
        out.append(self.name.as_str());
        out.append("\n(\n");
        out.append(indent(join(&ports, ",\n"), INDENT).as_str());
        out.append("\n);\n\ngenerate\n");
        out.append(gen_verilog_module(self.module_items.as_slice()).as_str());
        out.append("\nendgenerate\nendmodule");
        out
    }
}

fn clone_items(items: &Vec<ModuleItem>) -> (r: Vec<ModuleItem>)
    ensures
        r@.len() == items@.len(),
        item_texts(r@) == item_texts(items@),
        items_wf(r@) == items_wf(items@),
    decreases items, 1nat,
{
    let mut out: Vec<ModuleItem> = Vec::new();
    let mut i: usize = 0;
    while i < items.len()
        invariant
            0 <= i <= items.len(),
            out@.len() == i,
            item_texts(out@) == item_texts(items@.take(i as int)),
            forall|j: int| 0 <= j < i ==> (#[trigger] out@[j]).wf() == items@[j].wf(),
        decreases items.len() - i,
    {
        assert(items@.take(i + 1).drop_last() =~= items@.take(i as int));
        assert(items@.take(i + 1).last() == items@[i as int]);
        let ghost before = out@;
        let item = items[i].clone();
        out.push(item);
        assert(out@.drop_last() =~= before);
        i += 1;
    }
    assert(items@.take(items.len() as int) =~= items@);
    assert forall|j: int| 0 <= j < items@.len() implies (#[trigger] items@[j]).wf() == out@[j].wf() by {
        assert(out@[j].wf() == items@[j].wf());
    }
    out
}

fn clone_decls(decls: &Vec<Declaration>) -> (r: Vec<Declaration>)
    ensures
        decls_text(r@) == decls_text(decls@),
        decls_wf(r@) == decls_wf(decls@),
{
    let mut out: Vec<Declaration> = Vec::new();
    let mut i: usize = 0;
    while i < decls.len()
        invariant
            0 <= i <= decls.len(),
            out@.len() == i,
            forall|j: int|
                0 <= j < i ==> (#[trigger] out@[j]).wf() == decls@[j].wf() && out@[j].text()
                    == decls@[j].text(),
        decreases decls.len() - i,
    {
        out.push(decls[i].clone());
        i += 1;
    }
    assert(out@.map_values(|decl: Declaration| decl.text()) =~= decls@.map_values(
        |decl: Declaration| decl.text(),
    ));
    assert forall|j: int| 0 <= j < decls@.len() implies (#[trigger] decls@[j]).wf() == out@[j].wf() by {
        assert(out@[j].wf() == decls@[j].wf());
    }
    out
}

fn clone_conts(conts: &Vec<ContinuousAssign>) -> (r: Vec<ContinuousAssign>)
    ensures
        conts_text(r@) == conts_text(conts@),
        conts_wf(r@) == conts_wf(conts@),
{
    let mut out: Vec<ContinuousAssign> = Vec::new();
    let mut i: usize = 0;
    while i < conts.len()
        invariant
            0 <= i <= conts.len(),
            out@.len() == i,
            forall|j: int|
                0 <= j < i ==> (#[trigger] out@[j]).wf() == conts@[j].wf() && out@[j].text()
                    == conts@[j].text(),
        decreases conts.len() - i,
    {
        out.push(conts[i].clone());
        i += 1;
    }
    assert(out@.map_values(|cont: ContinuousAssign| cont.text()) =~= conts@.map_values(
        |cont: ContinuousAssign| cont.text(),
    ));
    assert forall|j: int| 0 <= j < conts@.len() implies (#[trigger] conts@[j]).wf() == out@[j].wf() by {
        assert(out@[j].wf() == conts@[j].wf());
    }
    out
}

impl Clone for ModuleItem {
    /// Returns a module item of the same text.
    fn clone(&self) -> (r: Self)
        ensures
            r.text() == self.text(),
            r.wf() == self.wf(),
        decreases self, 0nat,
    {
        match self {
            ModuleItem::Declarations(decls) => ModuleItem::Declarations(clone_decls(decls)),
            ModuleItem::ContinuousAssigns(conts) => ModuleItem::ContinuousAssigns(
                clone_conts(conts),
            ),
            ModuleItem::ModuleInstantiation(module_inst) => ModuleItem::ModuleInstantiation(
                module_inst.clone(),
            ),
            ModuleItem::AlwaysConstruct(event, stmts) => ModuleItem::AlwaysConstruct(
                event.clone(),
                clone_stmts(stmts),
            ),
            ModuleItem::Commented(comment_before, comment_after, items) => ModuleItem::Commented(
                comment_before.clone(),
                comment_after.clone(),
                clone_items(items),
            ),
        }
    }
}

impl Clone for Module {
    /// Returns a module of the same text.
    fn clone(&self) -> (r: Self)
        ensures
            r.text() == self.text(),
            r.wf() == self.wf(),
    {
        let mut ports: Vec<PortDeclaration> = Vec::new();
        let mut i: usize = 0;
        while i < self.port_decls.len()
            invariant
                0 <= i <= self.port_decls.len(),
                ports@.len() == i,
                forall|j: int| 0 <= j < i ==> (#[trigger] ports@[j]).text() == self.port_decls@[j].text(),
            decreases self.port_decls.len() - i,
        {
            ports.push(self.port_decls[i].clone());
            i += 1;
        }
        assert(ports@.map_values(|port: PortDeclaration| port.text())
            =~= self.port_decls@.map_values(|port: PortDeclaration| port.text()));
        Module {
            name: self.name.clone(),
            port_decls: ports,
            module_items: clone_items(&self.module_items),
        }
    }
}

} // verus!
