//! The per-check syntax modifiers: `not`, `as <label>`, `id <label>`.

use vstd::prelude::*;
use crate::rukinia_result::RukiniaError;
use crate::rukinia_result::format_message_spec;
use crate::strutil::string_eq;
use crate::strutil::tail_strings;
use crate::strutil::views_of;

verus! {

/// One parsed modifier.
pub enum Syntax {
    Not,
    As(String),
    Id(String),
}

/// Mathematical image of one modifier.
pub ghost enum SyntaxModel {
    Not,
    As(Seq<char>),
    Id(Seq<char>),
}

impl View for Syntax {
    type V = SyntaxModel;

    open spec fn view(&self) -> SyntaxModel {
        match self {
            Syntax::Not => SyntaxModel::Not,
            Syntax::As(a) => SyntaxModel::As(a@),
            Syntax::Id(a) => SyntaxModel::Id(a@),
        }
    }
}

/// The views of a parsed modifier list.
pub open spec fn syntax_views(ms: Seq<Syntax>) -> Seq<SyntaxModel> {
    ms.map_values(|m: Syntax| m@)
}

proof fn lemma_syntax_views_push(ms: Seq<Syntax>, m: Syntax)
    ensures
        syntax_views(ms.push(m)) =~= syntax_views(ms).push(m@),
{
}

/// Whether a modifier set holds a `Not`.
pub open spec fn mods_contain_not(ms: Seq<SyntaxModel>) -> bool {
    exists|i: int| 0 <= i < ms.len() && ms[i] is Not
}

/// The argument of the first `As` modifier from position `i` on, if any.
pub open spec fn first_as_from(ms: Seq<SyntaxModel>, i: int) -> Option<Seq<char>>
    decreases ms.len() - i when 0 <= i
{
    if i >= ms.len() {
        None
    } else {
        match ms[i] {
            SyntaxModel::As(a) => Some(a),
            _ => first_as_from(ms, i + 1),
        }
    }
}

/// The `as` label found anywhere in a token stream: the token after the first
/// `as`, or nothing when `as` is absent or stands last.
pub open spec fn find_as_from(ts: Seq<Seq<char>>, i: int) -> Option<Seq<char>>
    decreases ts.len() - i when 0 <= i
{
    if i >= ts.len() {
        None
    } else if ts[i] == "as"@ {
        if i + 1 < ts.len() {
            Some(ts[i + 1])
        } else {
            None
        }
    } else {
        find_as_from(ts, i + 1)
    }
}

impl Syntax {
    /// How many argument tokens the modifier consumes.
    pub fn _get_number_args(&self) -> (r: i8)
        ensures
            self@ is Not ==> r == 0,
            !(self@ is Not) ==> r == 1,
    {
        match self {
            Syntax::Not => 0,
            Syntax::As(_) => 1,
            Syntax::Id(_) => 1,
        }
    }

    /// The modifier's argument, when it carries one.
    pub fn get_argument(&self) -> (r: Option<String>)
        ensures
            match self@ {
                SyntaxModel::Not => r is None,
                SyntaxModel::As(a) => r matches Some(s) && s@ == a,
                SyntaxModel::Id(a) => r matches Some(s) && s@ == a,
            },
    {
        match self {
            Syntax::As(argument) => Some(argument.clone()),
            Syntax::Id(argument) => Some(argument.clone()),
            Syntax::Not => None,
        }
    }

    /// Scan a token stream for an `as` label override, anywhere in the line.
    pub fn find_syntax_as(expression: Vec<String>) -> (r: Option<Syntax>)
        ensures
            match r {
                Some(sy) => sy@ matches SyntaxModel::As(a) && find_as_from(
                    views_of(expression@),
                    0,
                ) == Some(a),
                None => find_as_from(views_of(expression@), 0) is None,
            },
    {
        let ghost ts = views_of(expression@);
        let n = expression.len();
        let mut i: usize = 0;
        while i < n
            invariant
                i <= n,
                n == expression@.len(),
                ts == views_of(expression@),
                find_as_from(ts, 0) == find_as_from(ts, i as int),
            decreases n - i,
        {
            if string_eq(expression[i].as_str(), "as") {
                if i + 1 < n {
                    return Some(Syntax::As(expression[i + 1].clone()));
                } else {
                    return None;
                }
            }
            i += 1;
        }
        None
    }
}

/// The ordered modifier set peeled off the front of a token stream.
pub enum SyntaxForTrait {
    Arguments(Vec<Syntax>),
}

impl View for SyntaxForTrait {
    type V = Seq<SyntaxModel>;

    open spec fn view(&self) -> Seq<SyntaxModel> {
        match self {
            SyntaxForTrait::Arguments(v) => syntax_views(v@),
        }
    }
}

/// What modifier extraction leaves: the modifiers read so far and the tokens
/// from the first unrecognized one on, or the error for a dangling `as`/`id`.
pub open spec fn extract_spec(ts: Seq<Seq<char>>, i: int) -> Result<
    (Seq<SyntaxModel>, Seq<Seq<char>>),
    Seq<char>,
>
    decreases ts.len() - i when 0 <= i
{
    if i >= ts.len() {
        Ok((Seq::empty(), Seq::empty()))
    } else if ts[i] == "not"@ {
        match extract_spec(ts, i + 1) {
            Ok((ms, rest)) => Ok((seq![SyntaxModel::Not] + ms, rest)),
            Err(e) => Err(e),
        }
    } else if ts[i] == "as"@ {
        if i + 1 < ts.len() {
            match extract_spec(ts, i + 2) {
                Ok((ms, rest)) => Ok((seq![SyntaxModel::As(ts[i + 1])] + ms, rest)),
                Err(e) => Err(e),
            }
        } else {
            Err(format_message_spec("AS label error"@, "Missing argument for AS"@, "No argument found"@))
        }
    } else if ts[i] == "id"@ {
        if i + 1 < ts.len() {
            match extract_spec(ts, i + 2) {
                Ok((ms, rest)) => Ok((seq![SyntaxModel::Id(ts[i + 1])] + ms, rest)),
                Err(e) => Err(e),
            }
        } else {
            Err(format_message_spec("ID label error"@, "Missing argument for ID"@, "No argument found"@))
        }
    } else {
        Ok((Seq::empty(), ts.subrange(i, ts.len() as int)))
    }
}

/// Prepend already-extracted modifiers onto the outcome of the remaining scan.
pub open spec fn extract_continue(
    acc: Seq<SyntaxModel>,
    r: Result<(Seq<SyntaxModel>, Seq<Seq<char>>), Seq<char>>,
) -> Result<(Seq<SyntaxModel>, Seq<Seq<char>>), Seq<char>> {
    match r {
        Ok((ms, rest)) => Ok((acc + ms, rest)),
        Err(e) => Err(e),
    }
}

impl SyntaxForTrait {
    /// Whether the set holds a `Not` modifier.
    pub fn contains_not(&self) -> (r: bool)
        ensures
            r == mods_contain_not(self@),
    {
        match self {
            SyntaxForTrait::Arguments(vector) => {
                let mut i: usize = 0;
                while i < vector.len()
                    invariant
                        i <= vector@.len(),
                        syntax_views(vector@) == self@,
                        forall|k: int| 0 <= k < i ==> !(self@[k] is Not),
                    decreases vector@.len() - i,
                {
                    if let Syntax::Not = &vector[i] {
                        proof {
                            assert(self@[i as int] is Not);
                        }
                        return true;
                    }
                    i += 1;
                }
                false
            },
        }
    }

    /// The argument of the first `As` modifier, if any.
    pub fn get_as(&self) -> (r: Option<String>)
        ensures
            match r {
                Some(a) => first_as_from(self@, 0) == Some(a@),
                None => first_as_from(self@, 0) is None,
            },
    {
        match self {
            SyntaxForTrait::Arguments(vector) => {
                let mut i: usize = 0;
                while i < vector.len()
                    invariant
                        i <= vector@.len(),
                        syntax_views(vector@) == self@,
                        first_as_from(self@, 0) == first_as_from(self@, i as int),
                    decreases vector@.len() - i,
                {
                    if let Syntax::As(argument) = &vector[i] {
                        return Some(argument.clone());
                    }
                    i += 1;
                }
                None
            },
        }
    }

    /// A fresh copy of the whole modifier set.
    pub fn duplicate(&self) -> (r: Self)
        ensures
            r@ == self@,
    {
        match self {
            SyntaxForTrait::Arguments(vector) => {
                let mut out: Vec<Syntax> = Vec::new();
                let mut i: usize = 0;
                while i < vector.len()
                    invariant
                        i <= vector@.len(),
                        syntax_views(out@) =~= syntax_views(vector@).take(i as int),
                    decreases vector@.len() - i,
                {
                    let m = match &vector[i] {
                        Syntax::Not => Syntax::Not,
                        Syntax::As(a) => Syntax::As(a.clone()),
                        Syntax::Id(a) => Syntax::Id(a.clone()),
                    };
                    proof {
                        lemma_syntax_views_push(out@, m);
                        assert(syntax_views(vector@).take(i as int + 1) =~= syntax_views(
                            vector@,
                        ).take(i as int).push(vector@[i as int]@));
                    }
                    out.push(m);
                    i += 1;
                }
                proof {
                    assert(syntax_views(out@) =~= syntax_views(vector@));
                }
                SyntaxForTrait::Arguments(out)
            },
        }
    }

    /// Peel recognized modifier keywords off the front of the token stream,
    /// stopping at the first other token, which stays in the remainder.
    pub fn extract_syntax(expression: Vec<String>) -> (r: Result<
        (SyntaxForTrait, Vec<String>),
        RukiniaError,
    >)
        ensures
            match r {
                Ok((syn, rest)) => extract_spec(views_of(expression@), 0) == Ok::<
                    _,
                    Seq<char>,
                >((syn@, views_of(rest@))),
                Err(e) => extract_spec(views_of(expression@), 0) == Err::<
                    (Seq<SyntaxModel>, Seq<Seq<char>>),
                    _,
                >(e@),
            },
    {
        let ghost ts = views_of(expression@);
        let n = expression.len();
        let mut syntax: Vec<Syntax> = Vec::new();
        let mut i: usize = 0;
        while i < n
            invariant
                i <= n,
                n == expression@.len(),
                ts == views_of(expression@),
                extract_spec(ts, 0) == extract_continue(
                    syntax_views(syntax@),
                    extract_spec(ts, i as int),
                ),
            decreases n - i,
        {
            let word = &expression[i];
            if string_eq(word.as_str(), "not") {
                proof {
                    lemma_syntax_views_push(syntax@, Syntax::Not);
                    assert(syntax_views(syntax@) + (seq![SyntaxModel::Not] + extract_ms(
                        ts,
                        i as int + 1,
                    )) =~= syntax_views(syntax@).push(SyntaxModel::Not) + extract_ms(
                        ts,
                        i as int + 1,
                    ));
                }
                syntax.push(Syntax::Not);
                i += 1;
            } else if string_eq(word.as_str(), "as") {
                if i + 1 < n {
                    let arg = expression[i + 1].clone();
                    proof {
                        lemma_syntax_views_push(syntax@, Syntax::As(arg));
                        assert(syntax_views(syntax@) + (seq![SyntaxModel::As(ts[i as int + 1])]
                            + extract_ms(ts, i as int + 2)) =~= syntax_views(syntax@).push(
                            SyntaxModel::As(ts[i as int + 1]),
                        ) + extract_ms(ts, i as int + 2));
                    }
                    syntax.push(Syntax::As(arg));
                    i += 2;
                } else {
                    return Err(RukiniaError::new(
                        String::from_str("AS label error"),
                        String::from_str("Missing argument for AS"),
                        String::from_str("No argument found"),
                    ));
                }
            } else if string_eq(word.as_str(), "id") {
                if i + 1 < n {
                    let arg = expression[i + 1].clone();
                    proof {
                        lemma_syntax_views_push(syntax@, Syntax::Id(arg));
                        assert(syntax_views(syntax@) + (seq![SyntaxModel::Id(ts[i as int + 1])]
                            + extract_ms(ts, i as int + 2)) =~= syntax_views(syntax@).push(
                            SyntaxModel::Id(ts[i as int + 1]),
                        ) + extract_ms(ts, i as int + 2));
                    }
                    syntax.push(Syntax::Id(arg));
                    i += 2;
                } else {
                    return Err(RukiniaError::new(
                        String::from_str("ID label error"),
                        String::from_str("Missing argument for ID"),
                        String::from_str("No argument found"),
                    ));
                }
            } else {
                let remaining = tail_strings(&expression, i);
                proof {
                    assert(syntax_views(syntax@) + Seq::<SyntaxModel>::empty() =~= syntax_views(
                        syntax@,
                    ));
                }
                return Ok((SyntaxForTrait::Arguments(syntax), remaining));
            }
        }
        let rest: Vec<String> = Vec::new();
        proof {
            assert(syntax_views(syntax@) + Seq::<SyntaxModel>::empty() =~= syntax_views(syntax@));
            assert(views_of(rest@) =~= Seq::<Seq<char>>::empty());
        }
        Ok((SyntaxForTrait::Arguments(syntax), rest))
    }
}

/// The modifier list of a successful extraction; meaningful only there.
pub open spec fn extract_ms(ts: Seq<Seq<char>>, i: int) -> Seq<SyntaxModel> {
    match extract_spec(ts, i) {
        Ok((ms, rest)) => ms,
        Err(_) => Seq::empty(),
    }
}

} // verus!
