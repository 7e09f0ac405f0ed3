//! The check that always passes.

use vstd::prelude::*;
use crate::rukinia_result::EntryModel;
use crate::rukinia_result::RukiniaError;
use crate::rukinia_result::RukiniaResultEntry;
use crate::rukinia_result::RukiniaResultType;
use crate::syntax::SyntaxForTrait;
use crate::syntax::SyntaxModel;
use crate::syntax::mods_contain_not;
use crate::tasks::task::RukiniaProcess;
use crate::tasks::task::applied_entry;
use crate::tasks::task::apply_syntax_entry;

verus! {

pub struct RukiniaTrue {
    pub syntax: SyntaxForTrait,
    pub result: RukiniaResultEntry,
}

impl View for RukiniaTrue {
    type V = EntryModel;

    open spec fn view(&self) -> EntryModel {
        self.result@
    }
}

/// The default label: `true`, with `not ` in front under a `not` modifier.
pub open spec fn true_label(not: bool) -> Seq<char> {
    if not {
        "not "@ + "true"@
    } else {
        "true"@
    }
}

/// What the `true` check returns: always a success verdict, then modifiers.
pub open spec fn true_result_spec(ms: Seq<SyntaxModel>) -> Result<EntryModel, Seq<char>> {
    Ok(applied_entry(ms, RukiniaResultType::TestSuccess, true_label(mods_contain_not(ms))))
}

impl RukiniaTrue {
    /// Arguments are accepted and ignored; construction never fails.
    pub fn new(_arguments: Vec<String>, syntax: SyntaxForTrait) -> (r: Result<Self, RukiniaError>)
        ensures
            r matches Ok(t) && true_result_spec(syntax@) == Ok::<_, Seq<char>>(t@) && t.syntax@
                == syntax@,
    {
        let label = Self::build_label(&syntax);
        let result = apply_syntax_entry(RukiniaResultType::TestSuccess, &syntax, label);
        Ok(RukiniaTrue { syntax, result })
    }

    fn build_label(syntax: &SyntaxForTrait) -> (r: String)
        ensures
            r@ == true_label(mods_contain_not(syntax@)),
    {
        if syntax.contains_not() {
            String::from_str("not ").concat("true")
        } else {
            String::from_str("true")
        }
    }
}

impl RukiniaProcess for RukiniaTrue {
    open spec fn result_model(&self) -> EntryModel {
        self.result@
    }

    open spec fn syntax_model(&self) -> Seq<SyntaxModel> {
        self.syntax@
    }

    open spec fn default_label_model(&self) -> Seq<char> {
        true_label(mods_contain_not(self.syntax@))
    }

    open spec fn wf(&self) -> bool {
        true
    }

    fn get_rukinia_command() -> (r: &'static str)
        ensures
            r@ == "true"@,
    {
        "true"
    }

    fn get_result(&self) -> (r: RukiniaResultEntry)
        ensures
            r@ == self@,
    {
        self.result.duplicate()
    }

    fn set_result(&mut self, result: RukiniaResultEntry)
        ensures
            final(self)@ == result@,
            final(self).syntax@ == old(self).syntax@,
    {
        self.result = result;
    }

    fn display_format(&self) -> (r: String)
        ensures
            r@ == true_label(mods_contain_not(self.syntax@)),
    {
        Self::build_label(&self.syntax)
    }

    fn get_syntax(&self) -> (r: SyntaxForTrait)
        ensures
            r@ == self.syntax@,
    {
        self.syntax.duplicate()
    }
}

} // verus!
