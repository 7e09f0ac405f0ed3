//! The check that always fails.

use vstd::prelude::*;
use crate::rukinia_result::EntryModel;
use crate::rukinia_result::RukiniaError;
use crate::rukinia_result::RukiniaResultEntry;
use crate::rukinia_result::RukiniaResultType;
use crate::syntax::SyntaxForTrait;
use crate::syntax::SyntaxModel;
use crate::syntax::mods_contain_not;
use crate::tasks::task::RukiniaProcess;
use crate::tasks::task::applied_entry;
use crate::tasks::task::apply_syntax_entry;

verus! {

pub struct RukiniaFalse {
    pub syntax: SyntaxForTrait,
    pub result: RukiniaResultEntry,
}

impl View for RukiniaFalse {
    type V = EntryModel;

    open spec fn view(&self) -> EntryModel {
        self.result@
    }
}

/// The default label: `false`, with `not ` in front under a `not` modifier.
pub open spec fn false_label(not: bool) -> Seq<char> {
    if not {
        "not "@ + "false"@
    } else {
        "false"@
    }
}

/// What the `false` check returns: always a fail verdict, then modifiers.
pub open spec fn false_result_spec(ms: Seq<SyntaxModel>) -> Result<EntryModel, Seq<char>> {
    Ok(applied_entry(ms, RukiniaResultType::TestFail, false_label(mods_contain_not(ms))))
}

impl RukiniaFalse {
    /// Arguments are accepted and ignored; construction never fails.
    pub fn new(_arguments: Vec<String>, syntax: SyntaxForTrait) -> (r: Result<Self, RukiniaError>)
        ensures
            r matches Ok(t) && false_result_spec(syntax@) == Ok::<_, Seq<char>>(t@) && t.syntax@
                == syntax@,
    {
        let label = Self::build_label(&syntax);
        let result = apply_syntax_entry(RukiniaResultType::TestFail, &syntax, label);
        Ok(RukiniaFalse { syntax, result })
    }

    fn build_label(syntax: &SyntaxForTrait) -> (r: String)
        ensures
            r@ == false_label(mods_contain_not(syntax@)),
    {
        if syntax.contains_not() {
            String::from_str("not ").concat("false")
        } else {
            String::from_str("false")
        }
    }
}

impl RukiniaProcess for RukiniaFalse {
    open spec fn result_model(&self) -> EntryModel {
        self.result@
    }

    open spec fn syntax_model(&self) -> Seq<SyntaxModel> {
        self.syntax@
    }

    open spec fn default_label_model(&self) -> Seq<char> {
        false_label(mods_contain_not(self.syntax@))
    }

    open spec fn wf(&self) -> bool {
        true
    }

    fn get_rukinia_command() -> (r: &'static str)
        ensures
            r@ == "false"@,
    {
        "false"
    }

    fn get_result(&self) -> (r: RukiniaResultEntry)
        ensures
            r@ == self@,
    {
        self.result.duplicate()
    }

    fn set_result(&mut self, result: RukiniaResultEntry)
        ensures
            final(self)@ == result@,
            final(self).syntax@ == old(self).syntax@,
    {
        self.result = result;
    }

    fn display_format(&self) -> (r: String)
        ensures
            r@ == false_label(mods_contain_not(self.syntax@)),
    {
        Self::build_label(&self.syntax)
    }

    fn get_syntax(&self) -> (r: SyntaxForTrait)
        ensures
            r@ == self.syntax@,
    {
        self.syntax.duplicate()
    }
}

} // verus!
