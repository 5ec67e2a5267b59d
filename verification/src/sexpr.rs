//! Expressions of the configuration, and the variables that they may name.

use vstd::prelude::*;

use crate::text::same_text;

verus! {

/// Where an expression stands in the configuration text.
#[derive(Clone, Copy, Debug, PartialEq, Eq, Structural)]
pub struct Span {
    pub start: usize,
    pub end: usize,
}

/// An expression: a word, or a list of expressions in parentheses.
///
/// A word `$name` stands for the value of the variable `name`, where there is one.
#[derive(Debug)]
pub enum SExpr {
    Atom { text: String, span: Span },
    List { items: Vec<SExpr>, span: Span },
}

/// A variable of the configuration.
#[derive(Debug)]
pub struct Variable {
    pub name: String,
    pub value: SExpr,
}

/// What the parser knows when it reads an action: the variables.
///
/// No two variables have the same name, and no variable leads back to itself.
#[derive(Debug)]
pub struct ParserState {
    vars: Vec<Variable>,
}

/// The name that `text` refers to: what stands behind a leading `$`.
pub open spec fn reference(text: Seq<char>) -> Option<Seq<char>> {
    if text.len() > 0 && text[0] == '$' {
        Some(text.skip(1))
    } else {
        None
    }
}

/// Whether no two variables have the same name.
pub open spec fn names_differ(vars: Seq<Variable>) -> bool {
    forall|i: int, j: int|
        0 <= i < j < vars.len() ==> (#[trigger] vars[i]).name@ != (#[trigger] vars[j]).name@
}

/// Whether the `i`-th variable has the name `name`.
pub open spec fn is_named(vars: Seq<Variable>, i: int, name: Seq<char>) -> bool {
    0 <= i < vars.len() && vars[i].name@ == name
}

/// The index of the variable that `expr` refers to.
pub open spec fn referred(vars: Seq<Variable>, expr: SExpr) -> Option<int> {
    match expr {
        SExpr::Atom { text, .. } => match reference(text@) {
            Some(name) => if exists|i: int| is_named(vars, i, name) {
                Some(choose|i: int| is_named(vars, i, name))
            } else {
                None
            },
            None => None,
        },
        SExpr::List { .. } => None,
    }
}

/// What `expr` stands for when at most `steps` variables are looked up; `None` where
/// the end is not reached by then.
pub open spec fn resolve_within(vars: Seq<Variable>, expr: SExpr, steps: nat) -> Option<SExpr>
    decreases steps,
{
    match referred(vars, expr) {
        None => Some(expr),
        Some(i) => if steps == 0 {
            None
        } else {
            resolve_within(vars, vars[i].value, (steps - 1) as nat)
        },
    }
}

/// What `expr` stands for. A chain of references that ends looks up no variable twice.
pub open spec fn resolved(vars: Seq<Variable>, expr: SExpr) -> Option<SExpr> {
    resolve_within(vars, expr, vars.len())
}

/// Whether the variables can be used: distinct names, and each leads to a value.
pub open spec fn usable(vars: Seq<Variable>) -> bool {
    &&& names_differ(vars)
    &&& forall|i: int| 0 <= i < vars.len() ==> resolved(vars, (#[trigger] vars[i]).value) is Some
}

/// The text of the word that `expr` stands for.
pub open spec fn atom_text(vars: Seq<Variable>, expr: SExpr) -> Option<Seq<char>> {
    match resolved(vars, expr) {
        Some(SExpr::Atom { text, .. }) => Some(text@),
        _ => None,
    }
}

/// The items of the list that `expr` stands for.
pub open spec fn list_items(vars: Seq<Variable>, expr: SExpr) -> Option<Seq<SExpr>> {
    match resolved(vars, expr) {
        Some(SExpr::List { items, .. }) => Some(items@),
        _ => None,
    }
}

/// Where `expr` itself stands, whatever it refers to.
pub open spec fn span_of(expr: SExpr) -> Span {
    match expr {
        SExpr::Atom { span, .. } => span,
        SExpr::List { span, .. } => span,
    }
}

/// Looking up more variables changes nothing once the end is reached.
pub proof fn law_more_steps_agree(vars: Seq<Variable>, expr: SExpr, fewer: nat, more: nat)
    requires
        fewer <= more,
        resolve_within(vars, expr, fewer) is Some,
    ensures
        resolve_within(vars, expr, more) == resolve_within(vars, expr, fewer),
    decreases fewer,
{
    if let Some(i) = referred(vars, expr) {
        law_more_steps_agree(vars, vars[i].value, (fewer - 1) as nat, (more - 1) as nat);
    }
}

/// The variable that is reached from `expr` at the `k`-th lookup.
spec fn reached(vars: Seq<Variable>, expr: SExpr, k: nat) -> Option<int>
    decreases k,
{
    if k == 0 {
        referred(vars, expr)
    } else {
        match reached(vars, expr, (k - 1) as nat) {
            Some(i) => referred(vars, vars[i].value),
            None => None,
        }
    }
}

/// One lookup less from the value of the first variable.
proof fn lemma_reached_shift(vars: Seq<Variable>, expr: SExpr, k: nat)
    requires
        referred(vars, expr) is Some,
    ensures
        reached(vars, expr, k + 1) == reached(vars, vars[referred(vars, expr)->0].value, k),
    decreases k,
{
    reveal_with_fuel(reached, 2);
    if k > 0 {
        lemma_reached_shift(vars, expr, (k - 1) as nat);
    }
}

/// The end is not reached within `steps` lookups exactly where there is a further one.
proof fn lemma_unresolved_reaches(vars: Seq<Variable>, expr: SExpr, steps: nat)
    ensures
        resolve_within(vars, expr, steps) is None <==> reached(vars, expr, steps) is Some,
    decreases steps,
{
    if steps > 0 {
        match referred(vars, expr) {
            Some(i) => {
                lemma_unresolved_reaches(vars, vars[i].value, (steps - 1) as nat);
                lemma_reached_shift(vars, expr, (steps - 1) as nat);
            },
            None => {
                lemma_reached_stays_none(vars, expr, 0, steps);
            },
        }
    }
}

/// Past the end there are no further lookups.
proof fn lemma_reached_stays_none(vars: Seq<Variable>, expr: SExpr, k: nat, later: nat)
    requires
        k <= later,
        reached(vars, expr, k) is None,
    ensures
        reached(vars, expr, later) is None,
    decreases later,
{
    if k < later {
        lemma_reached_stays_none(vars, expr, k, (later - 1) as nat);
    }
}

/// Two lookups that reach one variable go on alike.
proof fn lemma_reached_repeats(vars: Seq<Variable>, expr: SExpr, a: nat, b: nat, k: nat)
    requires
        reached(vars, expr, a) == reached(vars, expr, b),
    ensures
        reached(vars, expr, a + k) == reached(vars, expr, b + k),
    decreases k,
{
    if k > 0 {
        lemma_reached_repeats(vars, expr, a, b, (k - 1) as nat);
        if reached(vars, expr, (a + k - 1) as nat) is None {
            lemma_reached_stays_none(vars, expr, (a + k - 1) as nat, a + k);
            lemma_reached_stays_none(vars, expr, (b + k - 1) as nat, b + k);
        }
    }
}

/// A chain of references that ends at all ends after as many lookups as there are
/// variables: [`resolved`] misses no value.
pub proof fn law_resolved_misses_nothing(vars: Seq<Variable>, expr: SExpr, steps: nat)
    requires
        resolve_within(vars, expr, steps) is Some,
    ensures
        resolved(vars, expr) == resolve_within(vars, expr, steps),
{
    let n = vars.len();
    if resolved(vars, expr) is None {
        lemma_unresolved_reaches(vars, expr, n);
        let visited = Seq::new(n + 1, |k: int| reached(vars, expr, k as nat)->0);
        assert forall|k: int| 0 <= k <= n implies reached(vars, expr, k as nat) is Some
            && 0 <= #[trigger] visited[k] < n by {
            if reached(vars, expr, k as nat) is None {
                lemma_reached_stays_none(vars, expr, k as nat, n);
            }
        }
        let all = vstd::set_lib::set_int_range(0, n as int);
        vstd::set_lib::lemma_int_range(0, n as int);
        if visited.no_duplicates() {
            visited.unique_seq_to_set();
            assert(visited.to_set().subset_of(all));
            vstd::set_lib::lemma_len_subset(visited.to_set(), all);
            assert(false);
        }
        let (a, b) = choose|a: int, b: int|
            0 <= a < b < visited.len() && visited[a] == visited[b];
        lemma_endless(vars, expr, a as nat, b as nat, steps);
        lemma_unresolved_reaches(vars, expr, steps);
    } else if steps <= n {
        law_more_steps_agree(vars, expr, steps, n);
    } else {
        law_more_steps_agree(vars, expr, n, steps);
    }
}

/// A chain that comes back to a variable never ends.
proof fn lemma_endless(vars: Seq<Variable>, expr: SExpr, a: nat, b: nat, k: nat)
    requires
        a < b,
        reached(vars, expr, a) is Some,
        reached(vars, expr, a) == reached(vars, expr, b),
    ensures
        reached(vars, expr, k) is Some,
    decreases k,
{
    if k <= b {
        if reached(vars, expr, k) is None {
            lemma_reached_stays_none(vars, expr, k, b);
        }
    } else {
        let earlier = (k - b) as nat;
        lemma_reached_repeats(vars, expr, a, b, earlier);
        lemma_endless(vars, expr, a, b, a + earlier);
    }
}

/// Among usable variables every expression stands for something.
pub proof fn law_usable_variables_resolve(vars: Seq<Variable>, expr: SExpr)
    requires
        usable(vars),
    ensures
        resolved(vars, expr) is Some,
{
    if let Some(i) = referred(vars, expr) {
        assert(resolved(vars, vars[i].value) is Some);
        law_resolved_misses_nothing(vars, expr, vars.len() + 1);
    }
}

/// Whether the value of the `i`-th variable is a reference to the `j`-th.
pub open spec fn refers_to(vars: Seq<Variable>, i: int, j: int) -> bool {
    &&& 0 <= i < vars.len()
    &&& 0 <= j < vars.len()
    &&& vars[i].value matches SExpr::Atom { text, .. } && text@ == seq!['$'] + vars[j].name@
}

/// A reference among variables with distinct names is found.
proof fn lemma_reference_is_found(vars: Seq<Variable>, expr: SExpr, text: String, j: int)
    requires
        names_differ(vars),
        expr matches SExpr::Atom { text: t, .. } && t == text,
        0 <= j < vars.len(),
        text@ == seq!['$'] + vars[j].name@,
    ensures
        referred(vars, expr) == Some(j),
{
    let name = vars[j].name@;
    assert(text@.skip(1) =~= name);
    assert(is_named(vars, j, name));
    let k = choose|k: int| is_named(vars, k, name);
    assert(is_named(vars, k, name));
    if k < j {
        assert(vars[k].name@ != vars[j].name@);
    } else if k > j {
        assert(vars[j].name@ != vars[k].name@);
    }
}

/// A word without a dollar sign stands for itself.
pub proof fn law_plain_word_stands_for_itself(vars: Seq<Variable>, text: String, span: Span)
    requires
        text@.len() == 0 || text@[0] != '$',
    ensures
        atom_text(vars, SExpr::Atom { text, span }) == Some(text@),
        list_items(vars, SExpr::Atom { text, span }) is None,
{
}

/// A word that refers to a name that no variable has stands for itself.
pub proof fn law_unknown_name_stands_for_itself(
    vars: Seq<Variable>,
    text: String,
    name: Seq<char>,
    span: Span,
)
    requires
        text@ == seq!['$'] + name,
        forall|i: int| 0 <= i < vars.len() ==> (#[trigger] vars[i]).name@ != name,
    ensures
        atom_text(vars, SExpr::Atom { text, span }) == Some(text@),
        list_items(vars, SExpr::Atom { text, span }) is None,
{
    assert(text@.skip(1) =~= name);
}

/// A list stands for itself.
pub proof fn law_list_stands_for_itself(vars: Seq<Variable>, items: Vec<SExpr>, span: Span)
    ensures
        list_items(vars, SExpr::List { items, span }) == Some(items@),
        atom_text(vars, SExpr::List { items, span }) is None,
{
}

/// A dollar sign with the name of a variable stands for what its value stands for.
pub proof fn law_name_stands_for_its_value(
    vars: Seq<Variable>,
    text: String,
    span: Span,
    i: int,
)
    requires
        usable(vars),
        0 <= i < vars.len(),
        text@ == seq!['$'] + vars[i].name@,
    ensures
        atom_text(vars, SExpr::Atom { text, span }) == atom_text(vars, vars[i].value),
        list_items(vars, SExpr::Atom { text, span }) == list_items(vars, vars[i].value),
{
    let expr = SExpr::Atom { text, span };
    lemma_reference_is_found(vars, expr, text, i);
    law_usable_variables_resolve(vars, expr);
    law_resolved_misses_nothing(vars, vars[i].value, (vars.len() - 1) as nat);
}

/// Every expression stands for a word or for a list, and never for both.
pub proof fn law_word_or_list(vars: Seq<Variable>, expr: SExpr)
    requires
        usable(vars),
    ensures
        atom_text(vars, expr) is Some <==> list_items(vars, expr) is None,
{
    law_usable_variables_resolve(vars, expr);
}

/// An expression stands where it was written.
pub proof fn law_span_is_that_of_the_expression(text: String, items: Vec<SExpr>, span: Span)
    ensures
        span_of(SExpr::Atom { text, span }) == span,
        span_of(SExpr::List { items, span }) == span,
{
}

/// How many variables are looked up from `expr` on, up to `steps`.
pub open spec fn lookups(vars: Seq<Variable>, expr: SExpr, steps: nat) -> nat
    decreases steps,
{
    match referred(vars, expr) {
        None => 0,
        Some(i) => if steps == 0 {
            0
        } else {
            1 + lookups(vars, vars[i].value, (steps - 1) as nat)
        },
    }
}

/// Past the end nothing more is looked up.
proof fn lemma_lookups_agree(vars: Seq<Variable>, expr: SExpr, fewer: nat, more: nat)
    requires
        fewer <= more,
        resolve_within(vars, expr, fewer) is Some,
    ensures
        lookups(vars, expr, more) == lookups(vars, expr, fewer),
    decreases fewer,
{
    if let Some(i) = referred(vars, expr) {
        lemma_lookups_agree(vars, vars[i].value, (fewer - 1) as nat, (more - 1) as nat);
    }
}

/// Usable variables do not go round in a circle: each reference leads to a variable from
/// which fewer are looked up.
pub proof fn law_usable_variables_have_no_circle(vars: Seq<Variable>, i: int, j: int)
    requires
        usable(vars),
        refers_to(vars, i, j),
    ensures
        lookups(vars, vars[j].value, vars.len()) < lookups(vars, vars[i].value, vars.len()),
        i != j,
{
    lemma_reference_is_found(vars, vars[i].value, vars[i].value->text, j);
    assert(resolved(vars, vars[i].value) is Some);
    lemma_lookups_agree(vars, vars[j].value, (vars.len() - 1) as nat, vars.len());
}

/// Variables with distinct names that can be ranked so that each refers only to variables
/// of a lower rank are usable.
pub proof fn law_ranked_variables_are_usable(vars: Seq<Variable>, rank: spec_fn(int) -> nat)
    requires
        forall|i: int, j: int|
            0 <= i < j < vars.len() ==> (#[trigger] vars[i]).name@ != (#[trigger] vars[j]).name@,
        forall|i: int, j: int| #[trigger] refers_to(vars, i, j) ==> rank(j) < rank(i),
    ensures
        usable(vars),
{
    assert forall|i: int| 0 <= i < vars.len() implies resolved(
        vars,
        (#[trigger] vars[i]).value,
    ) is Some by {
        lemma_ranked_resolves(vars, rank, i);
        law_resolved_misses_nothing(vars, vars[i].value, rank(i));
    }
}

/// No more variables are looked up than the rank says.
proof fn lemma_ranked_resolves(vars: Seq<Variable>, rank: spec_fn(int) -> nat, i: int)
    requires
        0 <= i < vars.len(),
        forall|i: int, j: int| #[trigger] refers_to(vars, i, j) ==> rank(j) < rank(i),
    ensures
        resolve_within(vars, vars[i].value, rank(i)) is Some,
    decreases rank(i),
{
    if let Some(j) = referred(vars, vars[i].value) {
        let text = vars[i].value->text@;
        assert(is_named(vars, j, text.skip(1)));
        assert(text =~= seq!['$'] + vars[j].name@);
        assert(refers_to(vars, i, j));
        lemma_ranked_resolves(vars, rank, j);
        law_more_steps_agree(vars, vars[j].value, rank(j), (rank(i) - 1) as nat);
    }
}

/// Finds the variable with the given name.
fn find_variable(vars: &Vec<Variable>, name: &str) -> (found: Option<usize>)
    ensures
        found matches Some(i) ==> is_named(vars@, i as int, name@),
        found is None ==> forall|i: int| !is_named(vars@, i, name@),
{
    let mut i: usize = 0;
    while i < vars.len()
        invariant
            i <= vars@.len(),
            forall|j: int| 0 <= j < i ==> !is_named(vars@, j, name@),
        decreases vars@.len() - i,
    {
        if same_text(vars[i].name.as_str(), name) {
            return Some(i);
        }
        i += 1;
    }
    None
}

/// Finds the variable that an expression refers to.
fn find_referred(vars: &Vec<Variable>, expr: &SExpr) -> (found: Option<usize>)
    requires
        names_differ(vars@),
    ensures
        found is Some <==> referred(vars@, *expr) is Some,
        found matches Some(i) ==> i < vars@.len() && referred(vars@, *expr) == Some(i as int),
{
    match expr {
        SExpr::Atom { text, .. } => {
            let text = text.as_str();
            let len: usize = text.unicode_len();
            if len == 0 || text.get_char(0) != '$' {
                return None;
            }
            let name = text.substring_char(1, len);
            assert(name@ =~= text@.skip(1));
            let found = find_variable(vars, name);
            proof {
                if let Some(i) = found {
                    let chosen = choose|j: int| is_named(vars@, j, name@);
                    assert(is_named(vars@, chosen, name@));
                    if chosen < i {
                        assert(vars@[chosen].name@ != vars@[i as int].name@);
                    } else if chosen > i {
                        assert(vars@[i as int].name@ != vars@[chosen].name@);
                    }
                }
            }
            found
        },
        SExpr::List { .. } => None,
    }
}

/// Whether no two variables have the same name.
fn check_names_differ(vars: &Vec<Variable>) -> (differ: bool)
    ensures
        differ == names_differ(vars@),
{
    let mut i: usize = 0;
    while i < vars.len()
        invariant
            i <= vars@.len(),
            forall|a: int, b: int|
                0 <= a < b < vars@.len() && a < i ==> (#[trigger] vars@[a]).name@ != (
                #[trigger] vars@[b]).name@,
        decreases vars@.len() - i,
    {
        let mut j: usize = i + 1;
        while j < vars.len()
            invariant
                i < j <= vars@.len(),
                forall|b: int|
                    i < b < j ==> vars@[i as int].name@ != (#[trigger] vars@[b]).name@,
            decreases vars@.len() - j,
        {
            if same_text(vars[i].name.as_str(), vars[j].name.as_str()) {
                assert(vars@[i as int].name@ == vars@[j as int].name@);
                return false;
            }
            j += 1;
        }
        i += 1;
    }
    true
}

/// Whether the references that start at an expression end.
fn check_resolves(vars: &Vec<Variable>, expr: &SExpr) -> (resolves: bool)
    requires
        names_differ(vars@),
    ensures
        resolves == (resolved(vars@, *expr) is Some),
{
    let mut current: &SExpr = expr;
    let mut steps: usize = vars.len();
    loop
        invariant
            names_differ(vars@),
            resolve_within(vars@, *current, steps as nat) == resolved(vars@, *expr),
        decreases steps,
    {
        match find_referred(vars, current) {
            None => {
                return true;
            },
            Some(i) => {
                if steps == 0 {
                    return false;
                }
                current = &vars[i].value;
                steps -= 1;
            },
        }
    }
}

impl View for ParserState {
    type V = Seq<Variable>;

    closed spec fn view(&self) -> Seq<Variable> {
        self.vars@
    }
}

impl ParserState {
    #[verifier::type_invariant]
    spec fn variables_are_usable(self) -> bool {
        usable(self.vars@)
    }

    /// Takes the variables of a configuration; `None` where two have one name, or where
    /// the value of one can never be found because its references go round in a circle.
    pub fn new(vars: Vec<Variable>) -> (state: Option<ParserState>)
        ensures
            state is Some <==> usable(vars@),
            state matches Some(s) ==> s@ == vars@,
    {
        if !check_names_differ(&vars) {
            return None;
        }
        let mut i: usize = 0;
        while i < vars.len()
            invariant
                i <= vars@.len(),
                names_differ(vars@),
                forall|j: int|
                    0 <= j < i ==> resolved(vars@, (#[trigger] vars@[j]).value) is Some,
            decreases vars@.len() - i,
        {
            if !check_resolves(&vars, &vars[i].value) {
                assert(resolved(vars@, vars@[i as int].value) is None);
                return None;
            }
            i += 1;
        }
        Some(ParserState { vars })
    }

    /// What an expression stands for.
    fn resolve<'a>(&'a self, expr: &'a SExpr) -> (value: &'a SExpr)
        ensures
            resolved(self@, *expr) == Some(*value),
    {
        proof {
            use_type_invariant(self);
            law_usable_variables_resolve(self.vars@, *expr);
        }
        let mut current: &'a SExpr = expr;
        let ghost mut steps: nat = self.vars@.len();
        loop
            invariant
                names_differ(self.vars@),
                resolve_within(self.vars@, *current, steps) == resolved(self@, *expr),
                resolved(self@, *expr) is Some,
            decreases steps,
        {
            match find_referred(&self.vars, current) {
                None => {
                    return current;
                },
                Some(i) => {
                    current = &self.vars[i].value;
                    proof {
                        steps = (steps - 1) as nat;
                    }
                },
            }
        }
    }
}

impl SExpr {
    /// Where the expression itself stands.
    pub fn span(&self) -> (span: Span)
        ensures
            span == span_of(*self),
    {
        match self {
            SExpr::Atom { span, .. } => *span,
            SExpr::List { span, .. } => *span,
        }
    }

    /// The text of the word that the expression stands for; `None` where that is a list.
    pub fn atom<'a>(&'a self, s: &'a ParserState) -> (text: Option<&'a str>)
        ensures
            text is Some <==> atom_text(s@, *self) is Some,
            text matches Some(t) ==> atom_text(s@, *self) == Some(t@),
            text is None <==> list_items(s@, *self) is Some,
    {
        match s.resolve(self) {
            SExpr::Atom { text, .. } => Some(text.as_str()),
            SExpr::List { .. } => None,
        }
    }

    /// The items of the list that the expression stands for; `None` where that is a word.
    pub fn list<'a>(&'a self, s: &'a ParserState) -> (items: Option<&'a Vec<SExpr>>)
        ensures
            items is Some <==> list_items(s@, *self) is Some,
            items matches Some(v) ==> list_items(s@, *self) == Some(v@),
            items is None <==> atom_text(s@, *self) is Some,
    {
        match s.resolve(self) {
            SExpr::Atom { .. } => None,
            SExpr::List { items, .. } => Some(items),
        }
    }
}

} // verus!
