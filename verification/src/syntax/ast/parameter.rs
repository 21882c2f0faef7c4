use vstd::prelude::*;
use crate::location::source_span::{SourceSpan, SpanView};
use crate::syntax::ast::ast_type::Type;
use crate::syntax::ast::model::{clone_type, TypeView};

verus! {

/// Parameter definition in a function declaration.
#[derive(Debug, PartialEq, Eq, Hash)]
pub struct Parameter {
    /// Parameter name.
    pub name: String,
    /// Annotated type of the parameter.
    pub type_annotation: Type,
    /// Source location extent.
    pub span: SourceSpan,
}

/// The mathematical value of a [`Parameter`].
pub struct ParameterView {
    pub name: Seq<char>,
    pub type_annotation: TypeView,
    pub span: SpanView,
}

impl View for Parameter {
    type V = ParameterView;

    open spec fn view(&self) -> ParameterView {
        ParameterView { name: self.name@, type_annotation: self.type_annotation@, span: self.span@ }
    }
}

impl Clone for Parameter {
    fn clone(&self) -> (r: Self)
        ensures
            r@ == self@,
    {
        Parameter { name: self.name.clone(), type_annotation: clone_type(&self.type_annotation), span: self.span.clone() }
    }
}

/// The views of a list of parameters.
pub open spec fn params_view(s: Seq<Parameter>) -> Seq<ParameterView> {
    s.map_values(|p: Parameter| p@)
}

/// A copy of a list of parameters.
pub fn clone_params(v: &Vec<Parameter>) -> (r: Vec<Parameter>)
    ensures
        params_view(r@) == params_view(v@),
{
    let mut out: Vec<Parameter> = Vec::new();
    let mut i: usize = 0;
    while i < v.len()
        invariant
            i <= v.len(),
            out@.len() == i,
            forall|j: int| 0 <= j < i ==> #[trigger] out@[j]@ == v@[j]@,
        decreases v.len() - i,
    {
        out.push(v[i].clone());
        i = i + 1;
    }
    assert(params_view(out@) =~= params_view(v@));
    out
}

impl Parameter {
    /// Creates a new parameter definition.
    pub fn new(name: String, type_annotation: Type, span: SourceSpan) -> (r: Self)
        ensures
            r == (Parameter { name, type_annotation, span }),
    {
        Self { name, type_annotation, span }
    }
}

} // verus!
