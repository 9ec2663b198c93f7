//! Authoring data for `SFCustomLanguageModelData`: phrase counts, custom
//! pronunciations, generators, and templates whose `<class>` placeholders
//! expand into phrase counts.

use vstd::prelude::*;
use vstd::std_specs::cmp::PartialEqSpecImpl;
use vstd::string::StrSliceExecFns;
use vstd::string::StringExecFns;

use crate::text::{chars_of, find_char, find_char_from, str_eq};

verus! {

broadcast use vstd::string::group_string_axioms;

/// Abstract value of a [`PhraseCount`].
pub struct PhraseCountModel {
    pub phrase: Seq<char>,
    pub count: usize,
}

/// Abstract value of a [`TemplatePhraseCountGeneratorTemplate`].
pub struct TemplateModel {
    pub body: Seq<char>,
    pub count: usize,
}

/// The character sequences of a list of strings.
pub open spec fn strings_model(v: Seq<String>) -> Seq<Seq<char>> {
    v.map_values(|s: String| s@)
}

/// The character sequences of a list of string slices.
pub open spec fn strs_model(v: Seq<&str>) -> Seq<Seq<char>> {
    v.map_values(|s: &str| s@)
}

/// Copies a list of string slices into owned strings.
pub fn to_strings(values: &[&str]) -> (r: Vec<String>)
    ensures
        strings_model(r@) == strs_model(values@),
{
    let mut r: Vec<String> = Vec::new();
    let mut i: usize = 0;
    while i < values.len()
        invariant
            i <= values@.len(),
            strings_model(r@) == strs_model(values@.take(i as int)),
        decreases values@.len() - i,
    {
        let ghost before = r@;
        r.push(values[i].to_owned());
        assert(values@.take(i + 1) == values@.take(i as int).push(values@[i as int]));
        assert(strings_model(r@) =~= strings_model(before).push(values@[i as int]@));
        assert(strs_model(values@.take(i + 1)) =~= strs_model(values@.take(i as int)).push(
            values@[i as int]@,
        ));
        i += 1;
    }
    assert(values@.take(values@.len() as int) == values@);
    r
}

/// Copies a list of strings.
pub fn copy_strings(values: &Vec<String>) -> (r: Vec<String>)
    ensures
        strings_model(r@) == strings_model(values@),
{
    let mut r: Vec<String> = Vec::new();
    let mut i: usize = 0;
    while i < values.len()
        invariant
            i <= values@.len(),
            strings_model(r@) == strings_model(values@.take(i as int)),
        decreases values@.len() - i,
    {
        let ghost before = r@;
        r.push(values[i].clone());
        assert(values@.take(i + 1) == values@.take(i as int).push(values@[i as int]));
        assert(strings_model(r@) =~= strings_model(before).push(values@[i as int]@));
        assert(strings_model(values@.take(i + 1)) =~= strings_model(values@.take(i as int)).push(
            values@[i as int]@,
        ));
        i += 1;
    }
    assert(values@.take(values@.len() as int) == values@);
    r
}

/// `SFCustomLanguageModelData.PhraseCount`.
#[derive(Debug, Clone, PartialEq, Eq, Hash)]
pub struct PhraseCount {
    pub phrase: String,
    pub count: usize,
}

impl View for PhraseCount {
    type V = PhraseCountModel;

    open spec fn view(&self) -> PhraseCountModel {
        PhraseCountModel { phrase: self.phrase@, count: self.count }
    }
}

/// The abstract values of a list of phrase counts.
pub open spec fn phrase_counts_model(v: Seq<PhraseCount>) -> Seq<PhraseCountModel> {
    v.map_values(|p: PhraseCount| p@)
}

impl PhraseCount {
    pub fn new(phrase: &str, count: usize) -> (r: Self)
        ensures
            r@ == (PhraseCountModel { phrase: phrase@, count }),
    {
        PhraseCount { phrase: phrase.to_owned(), count }
    }

    /// An independent copy of this phrase count.
    pub fn copy(&self) -> (r: Self)
        ensures
            r@ == self@,
    {
        PhraseCount { phrase: self.phrase.clone(), count: self.count }
    }
}

/// Copies a list of phrase counts.
pub fn copy_phrase_counts(values: &Vec<PhraseCount>) -> (r: Vec<PhraseCount>)
    ensures
        phrase_counts_model(r@) == phrase_counts_model(values@),
{
    let mut r: Vec<PhraseCount> = Vec::new();
    let mut i: usize = 0;
    while i < values.len()
        invariant
            i <= values@.len(),
            phrase_counts_model(r@) == phrase_counts_model(values@.take(i as int)),
        decreases values@.len() - i,
    {
        let ghost before = r@;
        r.push(values[i].copy());
        assert(values@.take(i + 1) == values@.take(i as int).push(values@[i as int]));
        assert(phrase_counts_model(r@) =~= phrase_counts_model(before).push(values@[i as int]@));
        assert(phrase_counts_model(values@.take(i + 1)) =~= phrase_counts_model(
            values@.take(i as int),
        ).push(values@[i as int]@));
        i += 1;
    }
    assert(values@.take(values@.len() as int) == values@);
    r
}

/// `SFCustomLanguageModelData.TemplatePhraseCountGenerator.Template`.
#[derive(Debug, Clone, PartialEq, Eq, Hash)]
pub struct TemplatePhraseCountGeneratorTemplate {
    pub body: String,
    pub count: usize,
}

impl View for TemplatePhraseCountGeneratorTemplate {
    type V = TemplateModel;

    open spec fn view(&self) -> TemplateModel {
        TemplateModel { body: self.body@, count: self.count }
    }
}

/// The abstract values of a list of templates.
pub open spec fn templates_model(v: Seq<TemplatePhraseCountGeneratorTemplate>) -> Seq<TemplateModel> {
    v.map_values(|t: TemplatePhraseCountGeneratorTemplate| t@)
}

impl TemplatePhraseCountGeneratorTemplate {
    pub fn new(body: &str, count: usize) -> (r: Self)
        ensures
            r@ == (TemplateModel { body: body@, count }),
    {
        TemplatePhraseCountGeneratorTemplate { body: body.to_owned(), count }
    }

    /// An independent copy of this template.
    pub fn copy(&self) -> (r: Self)
        ensures
            r@ == self@,
    {
        TemplatePhraseCountGeneratorTemplate { body: self.body.clone(), count: self.count }
    }
}

/// Template classes: each class name maps to the values that replace a
/// `<name>` placeholder. Defining a class again replaces its values. Two
/// values are equal when they define the same classes with the same values,
/// whatever the order of definition.
#[derive(Debug, Eq)]
pub struct TemplateClasses {
    entries: Vec<(String, Vec<String>)>,
}

/// The map that a list of class definitions denotes: a later definition of a
/// name overrides an earlier one.
pub open spec fn class_entries_map(s: Seq<(String, Vec<String>)>) -> Map<Seq<char>, Seq<Seq<char>>>
    decreases s.len(),
{
    if s.len() == 0 {
        Map::empty()
    } else {
        class_entries_map(s.drop_last()).insert(s.last().0@, strings_model(s.last().1@))
    }
}

/// The definition at `i` is the last one of its name.
pub open spec fn last_definition(s: Seq<(String, Vec<String>)>, i: int) -> bool {
    0 <= i < s.len() && forall|j: int| i < j < s.len() ==> s[j].0@ != s[i].0@
}

proof fn lemma_class_entries_lookup(s: Seq<(String, Vec<String>)>, i: int)
    requires
        last_definition(s, i),
    ensures
        class_entries_map(s).contains_key(s[i].0@),
        class_entries_map(s)[s[i].0@] == strings_model(s[i].1@),
    decreases s.len(),
{
    if i < s.len() - 1 {
        assert(last_definition(s.drop_last(), i));
        lemma_class_entries_lookup(s.drop_last(), i);
        assert(s.drop_last()[i] == s[i]);
    }
}

proof fn lemma_class_entries_absent(s: Seq<(String, Vec<String>)>, k: Seq<char>)
    requires
        forall|j: int| 0 <= j < s.len() ==> s[j].0@ != k,
    ensures
        !class_entries_map(s).contains_key(k),
    decreases s.len(),
{
    if s.len() > 0 {
        assert forall|j: int| 0 <= j < s.drop_last().len() implies s.drop_last()[j].0@ != k by {
            assert(s.drop_last()[j] == s[j]);
        }
        lemma_class_entries_absent(s.drop_last(), k);
    }
}

impl View for TemplateClasses {
    type V = Map<Seq<char>, Seq<Seq<char>>>;

    closed spec fn view(&self) -> Map<Seq<char>, Seq<Seq<char>>> {
        class_entries_map(self.entries@)
    }
}

proof fn lemma_class_entries_key_defined(s: Seq<(String, Vec<String>)>, k: Seq<char>)
    requires
        class_entries_map(s).contains_key(k),
    ensures
        exists|j: int| 0 <= j < s.len() && #[trigger] s[j].0@ == k,
{
    if forall|j: int| 0 <= j < s.len() ==> s[j].0@ != k {
        lemma_class_entries_absent(s, k);
    }
}

/// Whether two lists of strings hold the same strings in the same order.
fn string_lists_eq(a: &Vec<String>, b: &Vec<String>) -> (r: bool)
    ensures
        r == (strings_model(a@) == strings_model(b@)),
{
    if a.len() != b.len() {
        proof {
            if strings_model(a@) == strings_model(b@) {
                assert(strings_model(a@).len() == a@.len());
            }
        }
        return false;
    }
    let mut i: usize = 0;
    while i < a.len()
        invariant
            i <= a@.len(),
            a@.len() == b@.len(),
            forall|j: int| 0 <= j < i ==> a@[j]@ == b@[j]@,
        decreases a@.len() - i,
    {
        if !str_eq(a[i].as_str(), b[i].as_str()) {
            proof {
                if strings_model(a@) == strings_model(b@) {
                    assert(strings_model(a@)[i as int] == a@[i as int]@);
                    assert(strings_model(b@)[i as int] == b@[i as int]@);
                }
            }
            return false;
        }
        i += 1;
    }
    assert(strings_model(a@) =~= strings_model(b@)) by {
        assert forall|j: int| 0 <= j < a@.len() implies strings_model(a@)[j] == strings_model(
            b@,
        )[j] by {
            assert(a@[j]@ == b@[j]@);
        }
    }
    true
}

/// Whether every class that `a` defines is defined by `b` with the same
/// values.
fn classes_within(a: &TemplateClasses, b: &TemplateClasses) -> (r: bool)
    ensures
        r == (forall|k: Seq<char>|
            a@.contains_key(k) ==> #[trigger] b@.contains_key(k) && b@[k] == a@[k]),
{
    let mut i: usize = 0;
    while i < a.entries.len()
        invariant
            i <= a.entries@.len(),
            forall|j: int|
                0 <= j < i ==> b@.contains_key(#[trigger] a.entries@[j].0@) && b@[a.entries@[j].0@]
                    == a@[a.entries@[j].0@],
        decreases a.entries@.len() - i,
    {
        let name = a.entries[i].0.as_str();
        let ghost k = a.entries@[i as int].0@;
        let va = match a.get(name) {
            Some(v) => v,
            None => {
                assert(a@.contains_key(k)) by {
                    assert(a.entries@[i as int].0@ == k);
                    if !a@.contains_key(k) {
                        lemma_class_entries_name_defined(a.entries@, i as int);
                    }
                }
                return false;
            },
        };
        match b.get(name) {
            None => {
                proof {
                    assert(!b@.contains_key(k));
                }
                return false;
            },
            Some(vb) => {
                if !string_lists_eq(va, vb) {
                    return false;
                }
            },
        }
        i += 1;
    }
    assert forall|k: Seq<char>| a@.contains_key(k) implies #[trigger] b@.contains_key(k) && b@[k]
        == a@[k] by {
        lemma_class_entries_key_defined(a.entries@, k);
        let j = choose|j: int| 0 <= j < a.entries@.len() && #[trigger] a.entries@[j].0@ == k;
        assert(b@.contains_key(a.entries@[j].0@));
    }
    true
}

/// A name that some definition gives is defined.
proof fn lemma_class_entries_name_defined(s: Seq<(String, Vec<String>)>, i: int)
    requires
        0 <= i < s.len(),
    ensures
        class_entries_map(s).contains_key(s[i].0@),
    decreases s.len(),
{
    if i < s.len() - 1 {
        lemma_class_entries_name_defined(s.drop_last(), i);
        assert(s.drop_last()[i] == s[i]);
    }
}

impl PartialEq for TemplateClasses {
    fn eq(&self, other: &Self) -> (r: bool) {
        let r = classes_within(self, other) && classes_within(other, self);
        proof {
            if r {
                assert(self@ =~= other@);
            }
        }
        r
    }
}

impl PartialEqSpecImpl for TemplateClasses {
    open spec fn obeys_eq_spec() -> bool {
        true
    }

    open spec fn eq_spec(&self, other: &Self) -> bool {
        self@ == other@
    }
}

impl Clone for TemplateClasses {
    /// A copy defining the same classes.
    fn clone(&self) -> (r: Self)
        ensures
            r@ == self@,
    {
        self.copy()
    }
}

impl Default for TemplateClasses {
    /// No class is defined.
    fn default() -> (r: Self)
        ensures
            r@ == Map::<Seq<char>, Seq<Seq<char>>>::empty(),
    {
        TemplateClasses::new()
    }
}

impl TemplateClasses {
    pub fn new() -> (r: Self)
        ensures
            r@ == Map::<Seq<char>, Seq<Seq<char>>>::empty(),
    {
        TemplateClasses { entries: Vec::new() }
    }

    /// Defines (or redefines) the class `class_name` with `values`.
    pub fn define_class(&mut self, class_name: &str, values: &[&str])
        ensures
            final(self)@ == old(self)@.insert(class_name@, strs_model(values@)),
    {
        let v = to_strings(values);
        self.entries.push((class_name.to_owned(), v));
        assert(self.entries@.drop_last() == old(self).entries@);
    }

    /// The values of the class `class_name`, if it is defined.
    pub fn get(&self, class_name: &str) -> (r: Option<&Vec<String>>)
        ensures
            match r {
                Some(v) => self@.contains_key(class_name@) && self@[class_name@] == strings_model(
                    v@,
                ),
                None => !self@.contains_key(class_name@),
            },
    {
        let mut i: usize = self.entries.len();
        while i > 0
            invariant
                i <= self.entries@.len(),
                forall|j: int| i <= j < self.entries@.len() ==> self.entries@[j].0@ != class_name@,
            decreases i,
        {
            i -= 1;
            if str_eq(self.entries[i].0.as_str(), class_name) {
                proof {
                    lemma_class_entries_lookup(self.entries@, i as int);
                }
                return Some(&self.entries[i].1);
            }
        }
        proof {
            lemma_class_entries_absent(self.entries@, class_name@);
        }
        None
    }

    /// An independent copy of these classes.
    pub fn copy(&self) -> (r: Self)
        ensures
            r@ == self@,
    {
        let mut entries: Vec<(String, Vec<String>)> = Vec::new();
        let mut i: usize = 0;
        while i < self.entries.len()
            invariant
                i <= self.entries@.len(),
                entries@.len() == i,
                forall|j: int|
                    0 <= j < i ==> (#[trigger] entries@[j]).0@ == self.entries@[j].0@
                        && strings_model(entries@[j].1@) == strings_model(self.entries@[j].1@),
            decreases self.entries@.len() - i,
        {
            let name = self.entries[i].0.clone();
            let values = copy_strings(&self.entries[i].1);
            entries.push((name, values));
            i += 1;
        }
        proof {
            lemma_class_entries_same(entries@, self.entries@);
        }
        TemplateClasses { entries }
    }

    /// The class definitions in the order they were made; a later definition
    /// of a name overrides an earlier one.
    pub fn entries(&self) -> (r: &Vec<(String, Vec<String>)>)
        ensures
            class_entries_map(r@) == self@,
    {
        &self.entries
    }
}

proof fn lemma_class_entries_same(a: Seq<(String, Vec<String>)>, b: Seq<(String, Vec<String>)>)
    requires
        a.len() == b.len(),
        forall|j: int|
            0 <= j < a.len() ==> (#[trigger] a[j]).0@ == b[j].0@ && strings_model(a[j].1@)
                == strings_model(b[j].1@),
    ensures
        class_entries_map(a) == class_entries_map(b),
    decreases a.len(),
{
    if a.len() > 0 {
        assert forall|j: int| 0 <= j < a.drop_last().len() implies (#[trigger] a.drop_last()[j]).0@
            == b.drop_last()[j].0@ && strings_model(a.drop_last()[j].1@) == strings_model(
            b.drop_last()[j].1@,
        ) by {
            assert(a.drop_last()[j] == a[j]);
            assert(b.drop_last()[j] == b[j]);
        }
        lemma_class_entries_same(a.drop_last(), b.drop_last());
        assert(a.last() == a[a.len() - 1]);
    }
}

} // verus!

verus! {

/// A single phrase count holding `body` unchanged.
pub open spec fn literal_phrase(body: Seq<char>, count: usize) -> Seq<PhraseCountModel> {
    seq![PhraseCountModel { phrase: body, count }]
}

/// Expansion of a template body with at most `fuel` nested replacements;
/// `None` when `fuel` does not suffice.
///
/// The first `<` of the body and the first `>` after it delimit a class name.
/// When there is no such pair, or the name is not a defined class, the body
/// is a phrase as it stands. Otherwise each value of the class, in order,
/// replaces the placeholder, and the result is expanded again.
pub open spec fn expand_body(
    body: Seq<char>,
    count: usize,
    classes: Map<Seq<char>, Seq<Seq<char>>>,
    fuel: nat,
) -> Option<Seq<PhraseCountModel>>
    decreases fuel, 0nat,
{
    if fuel == 0 {
        None
    } else {
        match find_char_from(body, '<', 0) {
            None => Some(literal_phrase(body, count)),
            Some(start) => match find_char_from(body, '>', start + 1) {
                None => Some(literal_phrase(body, count)),
                Some(end) => {
                    let name = body.subrange(start + 1, end);
                    if classes.contains_key(name) {
                        expand_values(
                            body.take(start),
                            classes[name],
                            body.skip(end + 1),
                            count,
                            classes,
                            (fuel - 1) as nat,
                        )
                    } else {
                        Some(literal_phrase(body, count))
                    }
                },
            },
        }
    }
}

/// Expansion of `prefix + v + suffix` for each `v` of `values`, concatenated
/// in order.
pub open spec fn expand_values(
    prefix: Seq<char>,
    values: Seq<Seq<char>>,
    suffix: Seq<char>,
    count: usize,
    classes: Map<Seq<char>, Seq<Seq<char>>>,
    fuel: nat,
) -> Option<Seq<PhraseCountModel>>
    decreases fuel, values.len(),
{
    if values.len() == 0 {
        Some(Seq::empty())
    } else {
        match expand_values(prefix, values.drop_last(), suffix, count, classes, fuel) {
            Some(front) => match expand_body(prefix + values.last() + suffix, count, classes, fuel) {
                Some(back) => Some(front + back),
                None => None,
            },
            None => None,
        }
    }
}

/// Expanding the template body terminates: replacements do not recur forever.
pub open spec fn expansion_terminates(
    body: Seq<char>,
    count: usize,
    classes: Map<Seq<char>, Seq<Seq<char>>>,
) -> bool {
    exists|fuel: nat| #[trigger] expand_body(body, count, classes, fuel) is Some
}

/// The enough fuel chosen for a terminating expansion.
pub open spec fn expansion_fuel(
    body: Seq<char>,
    count: usize,
    classes: Map<Seq<char>, Seq<Seq<char>>>,
) -> nat {
    choose|fuel: nat| #[trigger] expand_body(body, count, classes, fuel) is Some
}

/// The phrase counts that a template body expands to.
pub open spec fn template_expansion(
    body: Seq<char>,
    count: usize,
    classes: Map<Seq<char>, Seq<Seq<char>>>,
) -> Seq<PhraseCountModel> {
    expand_body(body, count, classes, expansion_fuel(body, count, classes))->0
}

/// Every template of the list expands in finite time.
pub open spec fn templates_terminate(
    templates: Seq<TemplateModel>,
    classes: Map<Seq<char>, Seq<Seq<char>>>,
) -> bool {
    forall|i: int|
        0 <= i < templates.len() ==> expansion_terminates(
            #[trigger] templates[i].body,
            templates[i].count,
            classes,
        )
}

/// The expansions of all templates, concatenated in order.
pub open spec fn expand_all(
    templates: Seq<TemplateModel>,
    classes: Map<Seq<char>, Seq<Seq<char>>>,
) -> Seq<PhraseCountModel>
    decreases templates.len(),
{
    if templates.len() == 0 {
        Seq::empty()
    } else {
        expand_all(templates.drop_last(), classes) + template_expansion(
            templates.last().body,
            templates.last().count,
            classes,
        )
    }
}

proof fn lemma_expand_values_take(
    prefix: Seq<char>,
    values: Seq<Seq<char>>,
    suffix: Seq<char>,
    count: usize,
    classes: Map<Seq<char>, Seq<Seq<char>>>,
    fuel: nat,
    i: int,
)
    requires
        expand_values(prefix, values, suffix, count, classes, fuel) is Some,
        0 <= i <= values.len(),
    ensures
        expand_values(prefix, values.take(i), suffix, count, classes, fuel) is Some,
    decreases values.len() - i,
{
    if i < values.len() {
        lemma_expand_values_take(prefix, values, suffix, count, classes, fuel, i + 1);
        assert(values.take(i + 1).drop_last() == values.take(i));
    } else {
        assert(values.take(i) == values);
    }
}

fn literal_result(body: &str, count: usize) -> (r: Vec<PhraseCount>)
    ensures
        phrase_counts_model(r@) == literal_phrase(body@, count),
{
    let mut r: Vec<PhraseCount> = Vec::new();
    r.push(PhraseCount::new(body, count));
    assert(phrase_counts_model(r@) =~= literal_phrase(body@, count));
    r
}

/// Expands one template body with the given classes.
fn expand_template_body(
    body: &str,
    count: usize,
    classes: &TemplateClasses,
    Ghost(fuel): Ghost<nat>,
) -> (r: Vec<PhraseCount>)
    requires
        expand_body(body@, count, classes@, fuel) is Some,
    ensures
        phrase_counts_model(r@) == expand_body(body@, count, classes@, fuel)->0,
    decreases fuel,
{
    let chars = chars_of(body);
    let start = match find_char(&chars, '<', 0) {
        None => {
            return literal_result(body, count);
        },
        Some(start) => start,
    };
    proof {
        crate::text::lemma_find_char_from(chars@, '<', 0);
    }
    let end = match find_char(&chars, '>', start + 1) {
        None => {
            return literal_result(body, count);
        },
        Some(end) => end,
    };
    proof {
        crate::text::lemma_find_char_from(chars@, '>', start + 1);
    }
    let name = body.substring_char(start + 1, end);
    let values = match classes.get(name) {
        None => {
            return literal_result(body, count);
        },
        Some(values) => values,
    };
    let prefix = body.substring_char(0, start);
    let suffix = body.substring_char(end + 1, chars.len());
    let ghost vals = strings_model(values@);
    assert(fuel > 0);
    let ghost sub_fuel = (fuel - 1) as nat;
    assert(expand_body(body@, count, classes@, fuel) == expand_values(
        prefix@,
        vals,
        suffix@,
        count,
        classes@,
        sub_fuel,
    ));
    let mut out: Vec<PhraseCount> = Vec::new();
    let mut i: usize = 0;
    while i < values.len()
        invariant
            i <= values@.len(),
            sub_fuel < fuel,
            vals == strings_model(values@),
            expand_values(prefix@, vals, suffix@, count, classes@, sub_fuel) is Some,
            expand_values(prefix@, vals.take(i as int), suffix@, count, classes@, sub_fuel) == Some(
                phrase_counts_model(out@),
            ),
        decreases values@.len() - i,
    {
        let mut replaced = prefix.to_owned();
        replaced.append(values[i].as_str());
        replaced.append(suffix);
        proof {
            lemma_expand_values_take(prefix@, vals, suffix@, count, classes@, sub_fuel, i + 1);
            assert(vals.take(i + 1).drop_last() == vals.take(i as int));
            assert(vals.take(i + 1).last() == values@[i as int]@);
            assert(replaced@ == prefix@ + vals.take(i + 1).last() + suffix@);
        }
        let mut sub = expand_template_body(replaced.as_str(), count, classes, Ghost(sub_fuel));
        let ghost before = out@;
        let ghost added = sub@;
        out.append(&mut sub);
        assert(phrase_counts_model(out@) =~= phrase_counts_model(before) + phrase_counts_model(
            added,
        ));
        i += 1;
    }
    assert(vals.take(values@.len() as int) == vals);
    out
}

} // verus!

verus! {

/// Expands every template, in order.
fn expand_templates(
    templates: &Vec<TemplatePhraseCountGeneratorTemplate>,
    classes: &TemplateClasses,
) -> (r: Vec<PhraseCount>)
    requires
        templates_terminate(templates_model(templates@), classes@),
    ensures
        phrase_counts_model(r@) == expand_all(templates_model(templates@), classes@),
{
    let ghost tm = templates_model(templates@);
    let mut out: Vec<PhraseCount> = Vec::new();
    let mut i: usize = 0;
    while i < templates.len()
        invariant
            i <= templates@.len(),
            tm == templates_model(templates@),
            templates_terminate(tm, classes@),
            phrase_counts_model(out@) == expand_all(tm.take(i as int), classes@),
        decreases templates@.len() - i,
    {
        let template = &templates[i];
        let ghost fuel = expansion_fuel(template.body@, template.count, classes@);
        assert(tm[i as int] == template@);
        assert(expansion_terminates(tm[i as int].body, tm[i as int].count, classes@));
        let mut sub = expand_template_body(template.body.as_str(), template.count, classes, Ghost(fuel));
        let ghost before = out@;
        let ghost added = sub@;
        out.append(&mut sub);
        assert(phrase_counts_model(out@) =~= phrase_counts_model(before) + phrase_counts_model(
            added,
        ));
        assert(tm.take(i + 1).drop_last() == tm.take(i as int));
        assert(tm.take(i + 1).last() == template@);
        i += 1;
    }
    assert(tm.take(templates@.len() as int) == tm);
    out
}

/// Abstract value of a template insertable: a template or a compound of
/// further insertables.
pub enum TemplateItemModel {
    Template { body: Seq<char>, count: usize },
    CompoundTemplate { components: Seq<TemplateItemModel> },
}

/// One entry of a template builder.
#[derive(Debug, PartialEq, Eq)]
pub enum TemplateInsertableItem {
    Template { body: String, count: usize },
    CompoundTemplate { components: Vec<TemplateInsertableItem> },
}

impl TemplateInsertableItem {
    /// The abstract value of this entry.
    pub open spec fn model(self) -> TemplateItemModel
        decreases self,
    {
        match self {
            TemplateInsertableItem::Template { body, count } => TemplateItemModel::Template {
                body: body@,
                count,
            },
            TemplateInsertableItem::CompoundTemplate { components } => {
                TemplateItemModel::CompoundTemplate {
                    components: template_items_model(components@),
                }
            },
        }
    }
}

/// The abstract values of a list of template entries.
pub open spec fn template_items_model(s: Seq<TemplateInsertableItem>) -> Seq<TemplateItemModel>
    decreases s,
{
    if s.len() == 0 {
        Seq::empty()
    } else {
        template_items_model(s.drop_last()).push(s.last().model())
    }
}

} // verus!

verus! {

impl TemplateInsertableItem {
    /// An independent copy of this entry.
    pub fn copy(&self) -> (r: Self)
        ensures
            r.model() == self.model(),
        decreases self,
    {
        match self {
            TemplateInsertableItem::Template { body, count } => TemplateInsertableItem::Template {
                body: body.clone(),
                count: *count,
            },
            TemplateInsertableItem::CompoundTemplate { components } => {
                TemplateInsertableItem::CompoundTemplate { components: copy_template_items(components) }
            },
        }
    }
}

impl Clone for TemplateInsertableItem {
    fn clone(&self) -> (r: Self)
        ensures
            r.model() == self.model(),
    {
        self.copy()
    }
}

/// Copies a list of template entries.
pub fn copy_template_items(items: &Vec<TemplateInsertableItem>) -> (r: Vec<TemplateInsertableItem>)
    ensures
        template_items_model(r@) == template_items_model(items@),
    decreases items,
{
    let mut r: Vec<TemplateInsertableItem> = Vec::new();
    let mut i: usize = 0;
    while i < items.len()
        invariant
            i <= items@.len(),
            template_items_model(r@) == template_items_model(items@.take(i as int)),
        decreases items@.len() - i,
    {
        let ghost before = r@;
        r.push(items[i].copy());
        assert(r@.drop_last() == before);
        assert(items@.take(i + 1).drop_last() == items@.take(i as int));
        i += 1;
    }
    assert(items@.take(items@.len() as int) == items@);
    r
}

} // verus!

verus! {

/// The templates of a list of entries, compounds flattened in place.
pub open spec fn flatten_template_items(items: Seq<TemplateItemModel>) -> Seq<TemplateModel>
    decreases items,
{
    if items.len() == 0 {
        Seq::empty()
    } else {
        flatten_template_items(items.drop_last()) + flatten_template_item(items.last())
    }
}

/// The templates of one entry, compounds flattened in place.
pub open spec fn flatten_template_item(item: TemplateItemModel) -> Seq<TemplateModel>
    decreases item,
{
    match item {
        TemplateItemModel::Template { body, count } => seq![TemplateModel { body, count }],
        TemplateItemModel::CompoundTemplate { components } => flatten_template_items(components),
    }
}

/// The templates of a list of entries, compounds flattened in place.
fn template_items_to_templates(items: &Vec<TemplateInsertableItem>) -> (r: Vec<
    TemplatePhraseCountGeneratorTemplate,
>)
    ensures
        templates_model(r@) == flatten_template_items(template_items_model(items@)),
    decreases items,
{
    let mut templates: Vec<TemplatePhraseCountGeneratorTemplate> = Vec::new();
    let mut i: usize = 0;
    while i < items.len()
        invariant
            i <= items@.len(),
            templates_model(templates@) == flatten_template_items(
                template_items_model(items@.take(i as int)),
            ),
        decreases items@.len() - i,
    {
        let ghost before = templates@;
        assert(items@.take(i + 1).drop_last() == items@.take(i as int));
        assert(items@.take(i + 1).last() == items@[i as int]);
        assert(template_items_model(items@.take(i + 1)).drop_last() == template_items_model(
            items@.take(i as int),
        ));
        match &items[i] {
            TemplateInsertableItem::Template { body, count } => {
                templates.push(TemplatePhraseCountGeneratorTemplate::new(body.as_str(), *count));
                assert(templates_model(templates@) =~= templates_model(before) + seq![
                    TemplateModel { body: body@, count: *count },
                ]);
            },
            TemplateInsertableItem::CompoundTemplate { components } => {
                let mut nested = template_items_to_templates(components);
                let ghost added = nested@;
                templates.append(&mut nested);
                assert(templates_model(templates@) =~= templates_model(before) + templates_model(
                    added,
                ));
            },
        }
        proof {
            let m = template_items_model(items@.take(i + 1));
            assert(m.drop_last() == template_items_model(items@.take(i as int)));
            assert(m.last() == items@[i as int].model());
            assert(flatten_template_items(m) == flatten_template_items(m.drop_last())
                + flatten_template_item(m.last()));
        }
        i += 1;
    }
    assert(items@.take(items@.len() as int) == items@);
    templates
}

} // verus!

verus! {

/// Abstract value of one entry of a custom language model's data.
pub enum DataItemModel {
    PhraseCount { phrase: Seq<char>, count: usize },
    CustomPronunciation { grapheme: Seq<char>, phonemes: Seq<Seq<char>> },
    PhraseCountGenerator { values: Seq<PhraseCountModel> },
    TemplatePhraseCountGenerator {
        templates: Seq<TemplateItemModel>,
        classes: Map<Seq<char>, Seq<Seq<char>>>,
    },
    PhraseCountsFromTemplates {
        classes: Map<Seq<char>, Seq<Seq<char>>>,
        templates: Seq<TemplateItemModel>,
    },
}

/// One entry of a custom language model's data.
#[derive(Debug, Clone, PartialEq, Eq)]
pub enum DataInsertableItem {
    PhraseCount { phrase: String, count: usize },
    CustomPronunciation { grapheme: String, phonemes: Vec<String> },
    PhraseCountGenerator { values: Vec<PhraseCount> },
    TemplatePhraseCountGenerator {
        templates: Vec<TemplateInsertableItem>,
        classes: TemplateClasses,
    },
    PhraseCountsFromTemplates { classes: TemplateClasses, templates: Vec<TemplateInsertableItem> },
}

impl DataInsertableItem {
    /// The abstract value of this entry.
    pub open spec fn model(self) -> DataItemModel {
        match self {
            DataInsertableItem::PhraseCount { phrase, count } => DataItemModel::PhraseCount {
                phrase: phrase@,
                count,
            },
            DataInsertableItem::CustomPronunciation { grapheme, phonemes } => {
                DataItemModel::CustomPronunciation {
                    grapheme: grapheme@,
                    phonemes: strings_model(phonemes@),
                }
            },
            DataInsertableItem::PhraseCountGenerator { values } => {
                DataItemModel::PhraseCountGenerator { values: phrase_counts_model(values@) }
            },
            DataInsertableItem::TemplatePhraseCountGenerator { templates, classes } => {
                DataItemModel::TemplatePhraseCountGenerator {
                    templates: template_items_model(templates@),
                    classes: classes@,
                }
            },
            DataInsertableItem::PhraseCountsFromTemplates { classes, templates } => {
                DataItemModel::PhraseCountsFromTemplates {
                    classes: classes@,
                    templates: template_items_model(templates@),
                }
            },
        }
    }

    /// An independent copy of this entry.
    pub fn copy(&self) -> (r: Self)
        ensures
            r.model() == self.model(),
    {
        match self {
            DataInsertableItem::PhraseCount { phrase, count } => DataInsertableItem::PhraseCount {
                phrase: phrase.clone(),
                count: *count,
            },
            DataInsertableItem::CustomPronunciation { grapheme, phonemes } => {
                DataInsertableItem::CustomPronunciation {
                    grapheme: grapheme.clone(),
                    phonemes: copy_strings(phonemes),
                }
            },
            DataInsertableItem::PhraseCountGenerator { values } => {
                DataInsertableItem::PhraseCountGenerator { values: copy_phrase_counts(values) }
            },
            DataInsertableItem::TemplatePhraseCountGenerator { templates, classes } => {
                DataInsertableItem::TemplatePhraseCountGenerator {
                    templates: copy_template_items(templates),
                    classes: classes.copy(),
                }
            },
            DataInsertableItem::PhraseCountsFromTemplates { classes, templates } => {
                DataInsertableItem::PhraseCountsFromTemplates {
                    classes: classes.copy(),
                    templates: copy_template_items(templates),
                }
            },
        }
    }
}

/// The abstract values of a list of data entries.
pub open spec fn data_items_model(s: Seq<DataInsertableItem>) -> Seq<DataItemModel> {
    s.map_values(|i: DataInsertableItem| i.model())
}

/// Appends copies of `items` to `target`.
fn extend_data_items(target: &mut Vec<DataInsertableItem>, items: &Vec<DataInsertableItem>)
    ensures
        data_items_model(final(target)@) == data_items_model(old(target)@) + data_items_model(
            items@,
        ),
{
    let ghost start = target@;
    let mut i: usize = 0;
    while i < items.len()
        invariant
            i <= items@.len(),
            data_items_model(target@) == data_items_model(start) + data_items_model(
                items@.take(i as int),
            ),
        decreases items@.len() - i,
    {
        let ghost before = target@;
        target.push(items[i].copy());
        assert(data_items_model(target@) =~= data_items_model(before).push(items@[i as int].model()));
        assert(data_items_model(items@.take(i + 1)) =~= data_items_model(items@.take(i as int)).push(
            items@[i as int].model(),
        ));
        i += 1;
    }
    assert(items@.take(items@.len() as int) == items@);
}

/// A value that contributes entries to custom language model data
/// (Speech's `DataInsertable` protocol).
pub trait DataInsertable {
    /// The entries this value contributes, in order.
    spec fn data_items(&self) -> Seq<DataItemModel>;

    /// Appends this value's entries to `builder`.
    fn append_to(&self, builder: &mut DataInsertableBuilder)
        ensures
            final(builder)@ == old(builder)@ + self.data_items(),
    ;
}

/// A value that contributes template entries (Speech's `TemplateInsertable`
/// protocol).
pub trait TemplateInsertable {
    /// The template entries this value contributes, in order.
    spec fn template_items(&self) -> Seq<TemplateItemModel>;

    /// Appends this value's template entries to `builder`.
    fn append_to(&self, builder: &mut TemplateInsertableBuilder)
        ensures
            final(builder)@ == old(builder)@ + self.template_items(),
    ;
}

/// Builder mirroring `SFCustomLanguageModelData.DataInsertableBuilder`.
#[derive(Debug, PartialEq, Eq)]
pub struct DataInsertableBuilder {
    items: Vec<DataInsertableItem>,
}

impl View for DataInsertableBuilder {
    type V = Seq<DataItemModel>;

    closed spec fn view(&self) -> Seq<DataItemModel> {
        data_items_model(self.items@)
    }
}

impl Clone for DataInsertableBuilder {
    /// A copy holding the same entries.
    fn clone(&self) -> (r: Self)
        ensures
            r@ == self@,
    {
        let mut items: Vec<DataInsertableItem> = Vec::new();
        extend_data_items(&mut items, &self.items);
        let r = DataInsertableBuilder { items };
        assert(r@ =~= self@);
        r
    }
}

impl Default for DataInsertableBuilder {
    /// An empty builder, as [`DataInsertableBuilder::new`] gives.
    fn default() -> (r: Self)
        ensures
            r@ == Seq::<DataItemModel>::empty(),
    {
        DataInsertableBuilder::new()
    }
}

impl DataInsertableBuilder {
    pub fn new() -> (r: Self)
        ensures
            r@ == Seq::<DataItemModel>::empty(),
    {
        let r = DataInsertableBuilder { items: Vec::new() };
        assert(r@ =~= Seq::<DataItemModel>::empty());
        r
    }

    pub fn with<T: DataInsertable>(self, value: T) -> (r: Self)
        ensures
            r@ == self@ + value.data_items(),
    {
        let mut builder = self;
        value.append_to(&mut builder);
        builder
    }

    pub fn push<T: DataInsertable>(&mut self, value: T)
        ensures
            final(self)@ == old(self)@ + value.data_items(),
    {
        value.append_to(self);
    }

    pub fn is_empty(&self) -> (r: bool)
        ensures
            r == (self@.len() == 0),
    {
        self.items.len() == 0
    }

    /// Appends one entry.
    fn push_item(&mut self, item: DataInsertableItem)
        ensures
            final(self)@ == old(self)@.push(item.model()),
    {
        self.items.push(item);
        assert(self@ =~= old(self)@.push(item.model()));
    }
}

impl DataInsertable for DataInsertableBuilder {
    open spec fn data_items(&self) -> Seq<DataItemModel> {
        self@
    }

    fn append_to(&self, builder: &mut DataInsertableBuilder) {
        extend_data_items(&mut builder.items, &self.items);
    }
}

impl DataInsertable for PhraseCount {
    open spec fn data_items(&self) -> Seq<DataItemModel> {
        seq![DataItemModel::PhraseCount { phrase: self.phrase@, count: self.count }]
    }

    fn append_to(&self, builder: &mut DataInsertableBuilder) {
        builder.push_item(DataInsertableItem::PhraseCount { phrase: self.phrase.clone(), count: self.count });
        assert(final(builder)@ =~= old(builder)@ + self.data_items());
    }
}

/// `SFCustomLanguageModelData.CustomPronunciation`.
#[derive(Debug, Clone, PartialEq, Eq, Hash)]
pub struct CustomPronunciation {
    pub grapheme: String,
    pub phonemes: Vec<String>,
}

impl CustomPronunciation {
    pub fn new(grapheme: &str, phonemes: &[&str]) -> (r: Self)
        ensures
            r.grapheme@ == grapheme@,
            strings_model(r.phonemes@) == strs_model(phonemes@),
    {
        CustomPronunciation { grapheme: grapheme.to_owned(), phonemes: to_strings(phonemes) }
    }
}

impl DataInsertable for CustomPronunciation {
    open spec fn data_items(&self) -> Seq<DataItemModel> {
        seq![
            DataItemModel::CustomPronunciation {
                grapheme: self.grapheme@,
                phonemes: strings_model(self.phonemes@),
            },
        ]
    }

    fn append_to(&self, builder: &mut DataInsertableBuilder) {
        builder.push_item(
            DataInsertableItem::CustomPronunciation {
                grapheme: self.grapheme.clone(),
                phonemes: copy_strings(&self.phonemes),
            },
        );
        assert(final(builder)@ =~= old(builder)@ + self.data_items());
    }
}

/// `SFCustomLanguageModelData.PhraseCountGenerator`.
#[derive(Debug, PartialEq, Eq)]
pub struct PhraseCountGenerator {
    values: Vec<PhraseCount>,
}

impl View for PhraseCountGenerator {
    type V = Seq<PhraseCountModel>;

    closed spec fn view(&self) -> Seq<PhraseCountModel> {
        phrase_counts_model(self.values@)
    }
}

/// Iterator mirroring `SFCustomLanguageModelData.PhraseCountGenerator.Iterator`.
#[derive(Debug, Clone)]
pub struct PhraseCountGeneratorIterator {
    inner: Vec<PhraseCount>,
}

impl View for PhraseCountGeneratorIterator {
    type V = Seq<PhraseCountModel>;

    /// The phrase counts still to come, in order.
    closed spec fn view(&self) -> Seq<PhraseCountModel> {
        phrase_counts_model(self.inner@)
    }
}

impl PhraseCountGeneratorIterator {
    /// The next phrase count, if any.
    pub fn next(&mut self) -> (r: Option<PhraseCount>)
        ensures
            old(self)@.len() == 0 ==> r is None && final(self)@ == old(self)@,
            old(self)@.len() > 0 ==> r is Some && r->0@ == old(self)@[0] && final(self)@ == old(
                self,
            )@.drop_first(),
    {
        if self.inner.len() == 0 {
            None
        } else {
            let first = self.inner.remove(0);
            assert(self@ =~= old(self)@.drop_first());
            Some(first)
        }
    }
}

impl Clone for PhraseCountGenerator {
    /// A copy holding the same phrase counts.
    fn clone(&self) -> (r: Self)
        ensures
            r@ == self@,
    {
        PhraseCountGenerator { values: copy_phrase_counts(&self.values) }
    }
}

impl Default for PhraseCountGenerator {
    /// An empty generator, as [`PhraseCountGenerator::new`] gives.
    fn default() -> (r: Self)
        ensures
            r@ == Seq::<PhraseCountModel>::empty(),
    {
        PhraseCountGenerator::new()
    }
}

impl PhraseCountGenerator {
    pub fn new() -> (r: Self)
        ensures
            r@ == Seq::<PhraseCountModel>::empty(),
    {
        let r = PhraseCountGenerator { values: Vec::new() };
        assert(r@ =~= Seq::<PhraseCountModel>::empty());
        r
    }

    pub fn with_phrase_count(self, phrase_count: PhraseCount) -> (r: Self)
        ensures
            r@ == self@.push(phrase_count@),
    {
        let mut generator = self;
        generator.push(phrase_count);
        generator
    }

    pub fn push(&mut self, phrase_count: PhraseCount)
        ensures
            final(self)@ == old(self)@.push(phrase_count@),
    {
        self.values.push(phrase_count);
        assert(self@ =~= old(self)@.push(phrase_count@));
    }

    /// Iterates over copies of the phrase counts, in order.
    pub fn iter(&self) -> (r: PhraseCountGeneratorIterator)
        ensures
            r@ == self@,
    {
        PhraseCountGeneratorIterator { inner: copy_phrase_counts(&self.values) }
    }

    pub fn values(&self) -> (r: &[PhraseCount])
        ensures
            phrase_counts_model(r@) == self@,
    {
        self.values.as_slice()
    }
}

impl DataInsertable for PhraseCountGenerator {
    open spec fn data_items(&self) -> Seq<DataItemModel> {
        seq![DataItemModel::PhraseCountGenerator { values: self@ }]
    }

    fn append_to(&self, builder: &mut DataInsertableBuilder) {
        builder.push_item(
            DataInsertableItem::PhraseCountGenerator { values: copy_phrase_counts(&self.values) },
        );
        assert(final(builder)@ =~= old(builder)@ + self.data_items());
    }
}

} // verus!

verus! {

/// Builder mirroring `SFCustomLanguageModelData.TemplateInsertableBuilder`.
#[derive(Debug, PartialEq, Eq)]
pub struct TemplateInsertableBuilder {
    items: Vec<TemplateInsertableItem>,
}

impl View for TemplateInsertableBuilder {
    type V = Seq<TemplateItemModel>;

    closed spec fn view(&self) -> Seq<TemplateItemModel> {
        template_items_model(self.items@)
    }
}

/// Appends copies of `items` to `target`.
fn extend_template_items(target: &mut Vec<TemplateInsertableItem>, items: &Vec<TemplateInsertableItem>)
    ensures
        template_items_model(final(target)@) == template_items_model(old(target)@)
            + template_items_model(items@),
{
    let ghost start = target@;
    let mut i: usize = 0;
    while i < items.len()
        invariant
            i <= items@.len(),
            template_items_model(target@) == template_items_model(start) + template_items_model(
                items@.take(i as int),
            ),
        decreases items@.len() - i,
    {
        let ghost before = target@;
        target.push(items[i].copy());
        proof {
            assert(target@.drop_last() == before);
            assert(items@.take(i + 1).drop_last() == items@.take(i as int));
            assert(template_items_model(items@.take(i + 1)) == template_items_model(
                items@.take(i as int),
            ).push(items@[i as int].model()));
            assert(template_items_model(target@) =~= template_items_model(start)
                + template_items_model(items@.take(i + 1)));
        }
        i += 1;
    }
    assert(items@.take(items@.len() as int) == items@);
}

impl Clone for TemplateInsertableBuilder {
    /// A copy holding the same entries.
    fn clone(&self) -> (r: Self)
        ensures
            r@ == self@,
    {
        TemplateInsertableBuilder { items: copy_template_items(&self.items) }
    }
}

impl Default for TemplateInsertableBuilder {
    /// An empty builder, as [`TemplateInsertableBuilder::new`] gives.
    fn default() -> (r: Self)
        ensures
            r@ == Seq::<TemplateItemModel>::empty(),
    {
        TemplateInsertableBuilder::new()
    }
}

impl TemplateInsertableBuilder {
    pub fn new() -> (r: Self)
        ensures
            r@ == Seq::<TemplateItemModel>::empty(),
    {
        TemplateInsertableBuilder { items: Vec::new() }
    }

    pub fn with<T: TemplateInsertable>(self, value: T) -> (r: Self)
        ensures
            r@ == self@ + value.template_items(),
    {
        let mut builder = self;
        value.append_to(&mut builder);
        builder
    }

    pub fn push<T: TemplateInsertable>(&mut self, value: T)
        ensures
            final(self)@ == old(self)@ + value.template_items(),
    {
        value.append_to(self);
    }

    pub fn is_empty(&self) -> (r: bool)
        ensures
            r == (self@.len() == 0),
    {
        self.items.len() == 0
    }

    /// Appends one entry.
    fn push_item(&mut self, item: TemplateInsertableItem)
        ensures
            final(self)@ == old(self)@.push(item.model()),
    {
        self.items.push(item);
        assert(self.items@.drop_last() == old(self).items@);
    }
}

impl TemplateInsertable for TemplateInsertableBuilder {
    open spec fn template_items(&self) -> Seq<TemplateItemModel> {
        self@
    }

    fn append_to(&self, builder: &mut TemplateInsertableBuilder) {
        extend_template_items(&mut builder.items, &self.items);
    }
}

impl TemplateInsertable for TemplatePhraseCountGeneratorTemplate {
    open spec fn template_items(&self) -> Seq<TemplateItemModel> {
        seq![TemplateItemModel::Template { body: self.body@, count: self.count }]
    }

    fn append_to(&self, builder: &mut TemplateInsertableBuilder) {
        builder.push_item(
            TemplateInsertableItem::Template { body: self.body.clone(), count: self.count },
        );
        assert(final(builder)@ =~= old(builder)@ + self.template_items());
    }
}

/// The template entries of a list of insertables, concatenated in order.
pub open spec fn concat_template_items<T: TemplateInsertable>(values: Seq<T>) -> Seq<
    TemplateItemModel,
>
    decreases values.len(),
{
    if values.len() == 0 {
        Seq::empty()
    } else {
        concat_template_items(values.drop_last()) + values.last().template_items()
    }
}

/// `SFCustomLanguageModelData.CompoundTemplate`.
#[derive(Debug, Clone, PartialEq, Eq)]
pub struct CompoundTemplate {
    items: Vec<TemplateInsertableItem>,
}

impl View for CompoundTemplate {
    type V = Seq<TemplateItemModel>;

    /// The template entries the compound is made of.
    closed spec fn view(&self) -> Seq<TemplateItemModel> {
        template_items_model(self.items@)
    }
}

impl CompoundTemplate {
    pub fn new<T: TemplateInsertable>(templates: Vec<T>) -> (r: Self)
        ensures
            r@ == concat_template_items(templates@),
    {
        let mut builder = TemplateInsertableBuilder::new();
        let mut i: usize = 0;
        while i < templates.len()
            invariant
                i <= templates@.len(),
                builder@ == concat_template_items(templates@.take(i as int)),
            decreases templates@.len() - i,
        {
            templates[i].append_to(&mut builder);
            assert(templates@.take(i + 1).drop_last() == templates@.take(i as int));
            i += 1;
        }
        assert(templates@.take(templates@.len() as int) == templates@);
        CompoundTemplate { items: builder.items }
    }
}

impl TemplateInsertable for CompoundTemplate {
    open spec fn template_items(&self) -> Seq<TemplateItemModel> {
        seq![TemplateItemModel::CompoundTemplate { components: self@ }]
    }

    fn append_to(&self, builder: &mut TemplateInsertableBuilder) {
        builder.push_item(
            TemplateInsertableItem::CompoundTemplate { components: copy_template_items(&self.items) },
        );
        assert(final(builder)@ =~= old(builder)@ + self.template_items());
    }
}

} // verus!

verus! {

/// `SFCustomLanguageModelData.TemplatePhraseCountGenerator`.
#[derive(Debug, Clone, PartialEq, Eq)]
pub struct TemplatePhraseCountGenerator {
    templates: Vec<TemplatePhraseCountGeneratorTemplate>,
    template_classes: TemplateClasses,
}

/// Iterator mirroring `SFCustomLanguageModelData.TemplatePhraseCountGenerator.Iterator`.
#[derive(Debug, Clone)]
pub struct TemplatePhraseCountGeneratorIterator {
    inner: Vec<PhraseCount>,
}

impl View for TemplatePhraseCountGeneratorIterator {
    type V = Seq<PhraseCountModel>;

    /// The phrase counts still to come, in order.
    closed spec fn view(&self) -> Seq<PhraseCountModel> {
        phrase_counts_model(self.inner@)
    }
}

impl TemplatePhraseCountGeneratorIterator {
    /// The next phrase count, if any.
    pub fn next(&mut self) -> (r: Option<PhraseCount>)
        ensures
            old(self)@.len() == 0 ==> r is None && final(self)@ == old(self)@,
            old(self)@.len() > 0 ==> r is Some && r->0@ == old(self)@[0] && final(self)@ == old(
                self,
            )@.drop_first(),
    {
        if self.inner.len() == 0 {
            None
        } else {
            let first = self.inner.remove(0);
            assert(self@ =~= old(self)@.drop_first());
            Some(first)
        }
    }
}

/// The templates of a generator as template entries.
pub open spec fn templates_as_items(templates: Seq<TemplateModel>) -> Seq<TemplateItemModel> {
    templates.map_values(|t: TemplateModel| TemplateItemModel::Template { body: t.body, count: t.count })
}

impl TemplatePhraseCountGenerator {
    /// The templates, in insertion order.
    pub closed spec fn templates_spec(&self) -> Seq<TemplateModel> {
        templates_model(self.templates@)
    }

    /// The template classes.
    pub closed spec fn classes_spec(&self) -> Map<Seq<char>, Seq<Seq<char>>> {
        self.template_classes@
    }

    pub fn new() -> (r: Self)
        ensures
            r.templates_spec() == Seq::<TemplateModel>::empty(),
            r.classes_spec() == Map::<Seq<char>, Seq<Seq<char>>>::empty(),
    {
        let r = TemplatePhraseCountGenerator {
            templates: Vec::new(),
            template_classes: TemplateClasses::new(),
        };
        assert(r.templates_spec() =~= Seq::<TemplateModel>::empty());
        r
    }

    pub fn with_template(self, body: &str, count: usize) -> (r: Self)
        ensures
            r.templates_spec() == self.templates_spec().push(TemplateModel { body: body@, count }),
            r.classes_spec() == self.classes_spec(),
    {
        let mut generator = self;
        generator.insert_template(body, count);
        generator
    }

    pub fn insert_template(&mut self, body: &str, count: usize)
        ensures
            final(self).templates_spec() == old(self).templates_spec().push(
                TemplateModel { body: body@, count },
            ),
            final(self).classes_spec() == old(self).classes_spec(),
    {
        self.templates.push(TemplatePhraseCountGeneratorTemplate::new(body, count));
        assert(self.templates_spec() =~= old(self).templates_spec().push(
            TemplateModel { body: body@, count },
        ));
    }

    pub fn define_class(&mut self, class_name: &str, values: &[&str])
        ensures
            final(self).templates_spec() == old(self).templates_spec(),
            final(self).classes_spec() == old(self).classes_spec().insert(
                class_name@,
                strs_model(values@),
            ),
    {
        self.template_classes.define_class(class_name, values);
    }

    pub fn templates(&self) -> (r: &[TemplatePhraseCountGeneratorTemplate])
        ensures
            templates_model(r@) == self.templates_spec(),
    {
        self.templates.as_slice()
    }

    pub fn template_classes(&self) -> (r: &TemplateClasses)
        ensures
            r@ == self.classes_spec(),
    {
        &self.template_classes
    }

    /// Iterates over the expansion of every template, in order. Each `<name>`
    /// placeholder of a defined class is replaced by each of its values.
    pub fn iter(&self) -> (r: TemplatePhraseCountGeneratorIterator)
        requires
            templates_terminate(self.templates_spec(), self.classes_spec()),
        ensures
            r@ == expand_all(self.templates_spec(), self.classes_spec()),
    {
        TemplatePhraseCountGeneratorIterator {
            inner: expand_templates(&self.templates, &self.template_classes),
        }
    }
}

impl Default for TemplatePhraseCountGenerator {
    /// A generator with no templates and no classes, as
    /// [`TemplatePhraseCountGenerator::new`] gives.
    fn default() -> (r: Self)
        ensures
            r.templates_spec() == Seq::<TemplateModel>::empty(),
            r.classes_spec() == Map::<Seq<char>, Seq<Seq<char>>>::empty(),
    {
        TemplatePhraseCountGenerator::new()
    }
}

impl DataInsertable for TemplatePhraseCountGenerator {
    open spec fn data_items(&self) -> Seq<DataItemModel> {
        seq![
            DataItemModel::TemplatePhraseCountGenerator {
                templates: templates_as_items(self.templates_spec()),
                classes: self.classes_spec(),
            },
        ]
    }

    fn append_to(&self, builder: &mut DataInsertableBuilder) {
        let mut items: Vec<TemplateInsertableItem> = Vec::new();
        let mut i: usize = 0;
        while i < self.templates.len()
            invariant
                i <= self.templates@.len(),
                template_items_model(items@) == templates_as_items(
                    templates_model(self.templates@.take(i as int)),
                ),
            decreases self.templates@.len() - i,
        {
            let ghost before = items@;
            items.push(
                TemplateInsertableItem::Template {
                    body: self.templates[i].body.clone(),
                    count: self.templates[i].count,
                },
            );
            proof {
                assert(items@.drop_last() == before);
                assert(template_items_model(items@) == template_items_model(before).push(
                    items@.last().model(),
                ));
                assert(templates_as_items(templates_model(self.templates@.take(i + 1)))
                    =~= templates_as_items(templates_model(self.templates@.take(i as int))).push(
                    TemplateItemModel::Template {
                        body: self.templates@[i as int].body@,
                        count: self.templates@[i as int].count,
                    },
                ));
            }
            i += 1;
        }
        assert(self.templates@.take(self.templates@.len() as int) == self.templates@);
        builder.push_item(
            DataInsertableItem::TemplatePhraseCountGenerator {
                templates: items,
                classes: self.template_classes.copy(),
            },
        );
        assert(final(builder)@ =~= old(builder)@ + self.data_items());
    }
}

/// `SFCustomLanguageModelData.PhraseCountsFromTemplates`.
#[derive(Debug, Clone, PartialEq, Eq)]
pub struct PhraseCountsFromTemplates {
    classes: TemplateClasses,
    templates: Vec<TemplateInsertableItem>,
}

impl PhraseCountsFromTemplates {
    /// The template classes.
    pub closed spec fn classes_spec(&self) -> Map<Seq<char>, Seq<Seq<char>>> {
        self.classes@
    }

    /// The template entries.
    pub closed spec fn templates_spec(&self) -> Seq<TemplateItemModel> {
        template_items_model(self.templates@)
    }

    pub fn new(classes: TemplateClasses, builder: TemplateInsertableBuilder) -> (r: Self)
        ensures
            r.classes_spec() == classes@,
            r.templates_spec() == builder@,
    {
        PhraseCountsFromTemplates { classes, templates: builder.items }
    }

    /// The phrase counts of every template, compounds flattened in place,
    /// with each `<name>` placeholder of a defined class replaced by each of
    /// its values.
    pub fn expanded_phrase_counts(&self) -> (r: Vec<PhraseCount>)
        requires
            templates_terminate(flatten_template_items(self.templates_spec()), self.classes_spec()),
        ensures
            phrase_counts_model(r@) == expand_all(
                flatten_template_items(self.templates_spec()),
                self.classes_spec(),
            ),
    {
        let templates = template_items_to_templates(&self.templates);
        expand_templates(&templates, &self.classes)
    }
}

impl DataInsertable for PhraseCountsFromTemplates {
    open spec fn data_items(&self) -> Seq<DataItemModel> {
        seq![
            DataItemModel::PhraseCountsFromTemplates {
                classes: self.classes_spec(),
                templates: self.templates_spec(),
            },
        ]
    }

    fn append_to(&self, builder: &mut DataInsertableBuilder) {
        builder.push_item(
            DataInsertableItem::PhraseCountsFromTemplates {
                classes: self.classes.copy(),
                templates: copy_template_items(&self.templates),
            },
        );
        assert(final(builder)@ =~= old(builder)@ + self.data_items());
    }
}

/// Authoring data for `SFCustomLanguageModelData`.
#[derive(Debug, PartialEq, Eq)]
pub struct SFCustomLanguageModelData {
    locale_identifier: String,
    identifier: String,
    version: String,
    items: Vec<DataInsertableItem>,
}

impl SFCustomLanguageModelData {
    /// The locale identifier.
    pub closed spec fn locale_identifier_spec(&self) -> Seq<char> {
        self.locale_identifier@
    }

    /// The model identifier.
    pub closed spec fn identifier_spec(&self) -> Seq<char> {
        self.identifier@
    }

    /// The model version.
    pub closed spec fn version_spec(&self) -> Seq<char> {
        self.version@
    }

    /// The inserted entries, in order.
    pub closed spec fn items_spec(&self) -> Seq<DataItemModel> {
        data_items_model(self.items@)
    }

    pub fn new(locale_identifier: &str, identifier: &str, version: &str) -> (r: Self)
        ensures
            r.locale_identifier_spec() == locale_identifier@,
            r.identifier_spec() == identifier@,
            r.version_spec() == version@,
            r.items_spec() == Seq::<DataItemModel>::empty(),
    {
        let r = SFCustomLanguageModelData {
            locale_identifier: locale_identifier.to_owned(),
            identifier: identifier.to_owned(),
            version: version.to_owned(),
            items: Vec::new(),
        };
        assert(r.items_spec() =~= Seq::<DataItemModel>::empty());
        r
    }

    pub fn locale_identifier(&self) -> (r: &str)
        ensures
            r@ == self.locale_identifier_spec(),
    {
        self.locale_identifier.as_str()
    }

    pub fn identifier(&self) -> (r: &str)
        ensures
            r@ == self.identifier_spec(),
    {
        self.identifier.as_str()
    }

    pub fn version(&self) -> (r: &str)
        ensures
            r@ == self.version_spec(),
    {
        self.version.as_str()
    }

    /// The inserted entries, in order.
    pub fn items(&self) -> (r: &[DataInsertableItem])
        ensures
            data_items_model(r@) == self.items_spec(),
    {
        self.items.as_slice()
    }

    /// Appends the entries of `value`.
    pub fn insert<T: DataInsertable>(&mut self, value: T)
        ensures
            final(self).items_spec() == old(self).items_spec() + value.data_items(),
            final(self).locale_identifier_spec() == old(self).locale_identifier_spec(),
            final(self).identifier_spec() == old(self).identifier_spec(),
            final(self).version_spec() == old(self).version_spec(),
    {
        let mut builder = DataInsertableBuilder::new();
        value.append_to(&mut builder);
        let ghost before = self.items@;
        let ghost added = builder.items@;
        self.items.append(&mut builder.items);
        assert(data_items_model(self.items@) =~= data_items_model(before) + data_items_model(added));
    }

    pub fn with_insertable<T: DataInsertable>(self, value: T) -> (r: Self)
        ensures
            r.items_spec() == self.items_spec() + value.data_items(),
            r.locale_identifier_spec() == self.locale_identifier_spec(),
            r.identifier_spec() == self.identifier_spec(),
            r.version_spec() == self.version_spec(),
    {
        let mut data = self;
        data.insert(value);
        data
    }
}

} // verus!

verus! {

/// Every phrase in `s` carries `count`.
pub open spec fn all_counts(s: Seq<PhraseCountModel>, count: usize) -> bool {
    forall|i: int| 0 <= i < s.len() ==> (#[trigger] s[i]).count == count
}

proof fn lemma_expand_body_counts(
    body: Seq<char>,
    count: usize,
    classes: Map<Seq<char>, Seq<Seq<char>>>,
    fuel: nat,
)
    requires
        expand_body(body, count, classes, fuel) is Some,
    ensures
        all_counts(expand_body(body, count, classes, fuel)->0, count),
    decreases fuel, 0nat,
{
    if let Some(start) = find_char_from(body, '<', 0) {
        if let Some(end) = find_char_from(body, '>', start + 1) {
            let name = body.subrange(start + 1, end);
            if classes.contains_key(name) {
                lemma_expand_values_counts(
                    body.take(start),
                    classes[name],
                    body.skip(end + 1),
                    count,
                    classes,
                    (fuel - 1) as nat,
                );
            }
        }
    }
}

proof fn lemma_expand_values_counts(
    prefix: Seq<char>,
    values: Seq<Seq<char>>,
    suffix: Seq<char>,
    count: usize,
    classes: Map<Seq<char>, Seq<Seq<char>>>,
    fuel: nat,
)
    requires
        expand_values(prefix, values, suffix, count, classes, fuel) is Some,
    ensures
        all_counts(expand_values(prefix, values, suffix, count, classes, fuel)->0, count),
    decreases fuel, values.len(),
{
    if values.len() > 0 {
        lemma_expand_values_counts(prefix, values.drop_last(), suffix, count, classes, fuel);
        lemma_expand_body_counts(prefix + values.last() + suffix, count, classes, fuel);
        let front = expand_values(prefix, values.drop_last(), suffix, count, classes, fuel)->0;
        let back = expand_body(prefix + values.last() + suffix, count, classes, fuel)->0;
        assert forall|i: int| 0 <= i < (front + back).len() implies (#[trigger] (front
            + back)[i]).count == count by {
            if i < front.len() {
                assert((front + back)[i] == front[i]);
            } else {
                assert((front + back)[i] == back[i - front.len()]);
            }
        }
    }
}

/// Expansion never changes counts: every phrase a template expands to
/// carries the template's count.
pub proof fn law_expansion_keeps_count(
    body: Seq<char>,
    count: usize,
    classes: Map<Seq<char>, Seq<Seq<char>>>,
)
    requires
        expansion_terminates(body, count, classes),
    ensures
        all_counts(template_expansion(body, count, classes), count),
{
    lemma_expand_body_counts(body, count, classes, expansion_fuel(body, count, classes));
}

/// A template without `<` is a phrase as it stands: it expands to itself
/// alone, whatever the classes.
pub proof fn law_template_without_placeholder_is_literal(
    body: Seq<char>,
    count: usize,
    classes: Map<Seq<char>, Seq<Seq<char>>>,
)
    requires
        !body.contains('<'),
    ensures
        expansion_terminates(body, count, classes),
        template_expansion(body, count, classes) == literal_phrase(body, count),
{
    crate::text::lemma_find_char_from(body, '<', 0);
    if let Some(i) = find_char_from(body, '<', 0) {
        assert(body[i] == '<');
    }
    assert(expand_body(body, count, classes, 1) is Some);
}

/// A placeholder naming no defined class stays as it is: when the first
/// `<`...`>` pair of the body encloses an undefined name, the body expands to
/// itself alone.
pub proof fn law_undefined_class_is_literal(
    body: Seq<char>,
    count: usize,
    classes: Map<Seq<char>, Seq<Seq<char>>>,
    start: int,
    end: int,
)
    requires
        find_char_from(body, '<', 0) == Some(start),
        find_char_from(body, '>', start + 1) == Some(end),
        !classes.contains_key(body.subrange(start + 1, end)),
    ensures
        expansion_terminates(body, count, classes),
        template_expansion(body, count, classes) == literal_phrase(body, count),
{
    assert(expand_body(body, count, classes, 1) is Some);
}

/// Expanding a list of templates expands each in turn: the expansion of two
/// lists one after the other is the expansion of the first followed by that
/// of the second.
pub proof fn law_expand_all_concat(
    first: Seq<TemplateModel>,
    second: Seq<TemplateModel>,
    classes: Map<Seq<char>, Seq<Seq<char>>>,
)
    ensures
        expand_all(first + second, classes) == expand_all(first, classes) + expand_all(
            second,
            classes,
        ),
    decreases second.len(),
{
    if second.len() == 0 {
        assert(first + second == first);
    } else {
        law_expand_all_concat(first, second.drop_last(), classes);
        assert((first + second).drop_last() == first + second.drop_last());
        assert((first + second).last() == second.last());
    }
}

} // verus!

verus! {

/// The phrases `prefix + v + suffix` for each `v` of `values`, in order.
pub open spec fn plain_replacements(
    prefix: Seq<char>,
    values: Seq<Seq<char>>,
    suffix: Seq<char>,
    count: usize,
) -> Seq<PhraseCountModel> {
    values.map_values(|v: Seq<char>| PhraseCountModel { phrase: prefix + v + suffix, count })
}

proof fn lemma_plain_values(
    prefix: Seq<char>,
    values: Seq<Seq<char>>,
    suffix: Seq<char>,
    count: usize,
    classes: Map<Seq<char>, Seq<Seq<char>>>,
    fuel: nat,
)
    requires
        fuel >= 1,
        forall|i: int| 0 <= i < values.len() ==> !(prefix + #[trigger] values[i] + suffix).contains('<'),
    ensures
        expand_values(prefix, values, suffix, count, classes, fuel) == Some(
            plain_replacements(prefix, values, suffix, count),
        ),
    decreases values.len(),
{
    if values.len() > 0 {
        let front = values.drop_last();
        assert forall|i: int| 0 <= i < front.len() implies !(prefix + #[trigger] front[i]
            + suffix).contains('<') by {
            assert(front[i] == values[i]);
        }
        lemma_plain_values(prefix, front, suffix, count, classes, fuel);
        let last = values.last();
        assert(last == values[values.len() - 1]);
        crate::text::lemma_find_char_absent(prefix + last + suffix, '<');
        assert(expand_body(prefix + last + suffix, count, classes, fuel) == Some(
            literal_phrase(prefix + last + suffix, count),
        ));
        assert(plain_replacements(prefix, values, suffix, count) =~= plain_replacements(
            prefix,
            values.drop_last(),
            suffix,
            count,
        ) + literal_phrase(prefix + last + suffix, count));
    } else {
        assert(plain_replacements(prefix, values, suffix, count) =~= Seq::<PhraseCountModel>::empty());
    }
}

proof fn lemma_values_without_fuel(
    prefix: Seq<char>,
    values: Seq<Seq<char>>,
    suffix: Seq<char>,
    count: usize,
    classes: Map<Seq<char>, Seq<Seq<char>>>,
)
    requires
        values.len() > 0,
    ensures
        expand_values(prefix, values, suffix, count, classes, 0) is None,
    decreases values.len(),
{
    if values.len() > 1 {
        lemma_values_without_fuel(prefix, values.drop_last(), suffix, count, classes);
    } else {
        assert(values.drop_last().len() == 0);
        assert(expand_values(prefix, values.drop_last(), suffix, count, classes, 0) is Some);
    }
    assert(expand_body(prefix + values.last() + suffix, count, classes, 0) is None);
}

/// One placeholder with plain values: when the body is `prefix<name>suffix`,
/// `prefix` holds no `<`, `name` is a defined class without `>`, and no
/// replacement holds a `<`, the body expands to one phrase per value of the
/// class, in the class's order, each the body with the value in place of the
/// placeholder.
pub proof fn law_single_placeholder_expansion(
    prefix: Seq<char>,
    name: Seq<char>,
    suffix: Seq<char>,
    count: usize,
    classes: Map<Seq<char>, Seq<Seq<char>>>,
)
    requires
        !prefix.contains('<'),
        !name.contains('>'),
        classes.contains_key(name),
        forall|i: int|
            0 <= i < classes[name].len() ==> !(prefix + #[trigger] classes[name][i]
                + suffix).contains('<'),
    ensures
        expansion_terminates(prefix + seq!['<'] + name + seq!['>'] + suffix, count, classes),
        template_expansion(prefix + seq!['<'] + name + seq!['>'] + suffix, count, classes)
            == plain_replacements(prefix, classes[name], suffix, count),
{
    let body = prefix + seq!['<'] + name + seq!['>'] + suffix;
    let start = prefix.len() as int;
    let end = start + 1 + name.len();
    assert(body[start] == '<');
    assert forall|j: int| 0 <= j < start implies body[j] != '<' by {
        assert(body[j] == prefix[j]);
        if prefix[j] == '<' {
            assert(prefix.contains('<'));
        }
    }
    crate::text::lemma_find_char_at(body, '<', 0, start);
    assert(body[end] == '>');
    assert forall|j: int| start + 1 <= j < end implies body[j] != '>' by {
        assert(body[j] == name[j - start - 1]);
        if name[j - start - 1] == '>' {
            assert(name.contains('>'));
        }
    }
    crate::text::lemma_find_char_at(body, '>', start + 1, end);
    assert(body.subrange(start + 1, end) =~= name);
    assert(body.take(start) =~= prefix);
    assert(body.skip(end + 1) =~= suffix);
    let values = classes[name];
    lemma_plain_values(prefix, values, suffix, count, classes, 1);
    assert(expand_body(body, count, classes, 2) is Some);
    let fuel = expansion_fuel(body, count, classes);
    assert(expand_body(body, count, classes, fuel) is Some);
    if values.len() == 0 {
        assert(plain_replacements(prefix, values, suffix, count) =~= Seq::<PhraseCountModel>::empty());
    } else {
        if fuel == 1 {
            lemma_values_without_fuel(prefix, values, suffix, count, classes);
        }
        lemma_plain_values(prefix, values, suffix, count, classes, (fuel - 1) as nat);
    }
}

} // verus!

verus! {

/// The number of occurrences of `c` in `s`.
pub open spec fn count_char(s: Seq<char>, c: char) -> nat
    decreases s.len(),
{
    if s.len() == 0 {
        0
    } else {
        count_char(s.drop_last(), c) + if s.last() == c {
            1nat
        } else {
            0nat
        }
    }
}

/// No value of any class holds a `<`, so a replaced value never brings in a
/// new placeholder.
pub open spec fn class_values_free_of_placeholders(classes: Map<Seq<char>, Seq<Seq<char>>>) -> bool {
    forall|name: Seq<char>, i: int|
        classes.contains_key(name) && 0 <= i < classes[name].len() ==> !(
        #[trigger] classes[name][i]).contains('<')
}

proof fn lemma_count_char_concat(a: Seq<char>, b: Seq<char>, c: char)
    ensures
        count_char(a + b, c) == count_char(a, c) + count_char(b, c),
    decreases b.len(),
{
    if b.len() == 0 {
        assert(a + b == a);
    } else {
        lemma_count_char_concat(a, b.drop_last(), c);
        assert((a + b).drop_last() == a + b.drop_last());
        assert((a + b).last() == b.last());
    }
}

proof fn lemma_count_char_absent(s: Seq<char>, c: char)
    requires
        !s.contains(c),
    ensures
        count_char(s, c) == 0,
    decreases s.len(),
{
    if s.len() > 0 {
        assert(!s.drop_last().contains(c)) by {
            if s.drop_last().contains(c) {
                let j = choose|j: int| 0 <= j < s.drop_last().len() && s.drop_last()[j] == c;
                assert(s[j] == c);
            }
        }
        lemma_count_char_absent(s.drop_last(), c);
        assert(s[s.len() - 1] == s.last());
    }
}

/// Replacing the first placeholder of `body` by a value free of `<` leaves
/// one `<` fewer.
proof fn lemma_replacement_has_fewer_placeholders(
    body: Seq<char>,
    start: int,
    end: int,
    value: Seq<char>,
)
    requires
        find_char_from(body, '<', 0) == Some(start),
        find_char_from(body, '>', start + 1) == Some(end),
        !value.contains('<'),
    ensures
        count_char(body.take(start) + value + body.skip(end + 1), '<') + 1 <= count_char(body, '<'),
{
    crate::text::lemma_find_char_from(body, '<', 0);
    crate::text::lemma_find_char_from(body, '>', start + 1);
    let prefix = body.take(start);
    let middle = body.subrange(start, end + 1);
    let suffix = body.skip(end + 1);
    assert(body == prefix + middle + suffix);
    assert(!prefix.contains('<')) by {
        if prefix.contains('<') {
            let j = choose|j: int| 0 <= j < prefix.len() && prefix[j] == '<';
            assert(body[j] == '<');
        }
    }
    lemma_count_char_absent(prefix, '<');
    lemma_count_char_absent(value, '<');
    lemma_count_char_concat(prefix + middle, suffix, '<');
    lemma_count_char_concat(prefix, middle, '<');
    lemma_count_char_concat(prefix + value, suffix, '<');
    lemma_count_char_concat(prefix, value, '<');
    let one = seq!['<'];
    let rest = middle.skip(1);
    assert(middle == one + rest);
    lemma_count_char_concat(one, rest, '<');
    assert(one.drop_last() =~= Seq::<char>::empty());
    assert(one.last() == '<');
    assert(count_char(one.drop_last(), '<') == 0);
    assert(count_char(one, '<') == 1);
}

proof fn lemma_expand_body_terminates(
    body: Seq<char>,
    count: usize,
    classes: Map<Seq<char>, Seq<Seq<char>>>,
    fuel: nat,
)
    requires
        class_values_free_of_placeholders(classes),
        fuel >= 1 + count_char(body, '<'),
    ensures
        expand_body(body, count, classes, fuel) is Some,
    decreases fuel, 0nat,
{
    crate::text::lemma_find_char_from(body, '<', 0);
    if let Some(start) = find_char_from(body, '<', 0) {
        crate::text::lemma_find_char_from(body, '>', start + 1);
        if let Some(end) = find_char_from(body, '>', start + 1) {
            let name = body.subrange(start + 1, end);
            if classes.contains_key(name) {
                let values = classes[name];
                assert forall|i: int| 0 <= i < values.len() implies (fuel - 1) as nat >= 1
                    + count_char(body.take(start) + #[trigger] values[i] + body.skip(end + 1), '<') by {
                    assert(!classes[name][i].contains('<'));
                    lemma_replacement_has_fewer_placeholders(body, start, end, values[i]);
                }
                lemma_expand_values_terminate(
                    body.take(start),
                    values,
                    body.skip(end + 1),
                    count,
                    classes,
                    (fuel - 1) as nat,
                );
            }
        }
    }
}

proof fn lemma_expand_values_terminate(
    prefix: Seq<char>,
    values: Seq<Seq<char>>,
    suffix: Seq<char>,
    count: usize,
    classes: Map<Seq<char>, Seq<Seq<char>>>,
    fuel: nat,
)
    requires
        class_values_free_of_placeholders(classes),
        forall|i: int|
            0 <= i < values.len() ==> fuel >= 1 + count_char(
                prefix + #[trigger] values[i] + suffix,
                '<',
            ),
    ensures
        expand_values(prefix, values, suffix, count, classes, fuel) is Some,
    decreases fuel, values.len(),
{
    if values.len() > 0 {
        assert forall|i: int| 0 <= i < values.drop_last().len() implies fuel >= 1 + count_char(
            prefix + #[trigger] values.drop_last()[i] + suffix,
            '<',
        ) by {
            assert(values.drop_last()[i] == values[i]);
        }
        lemma_expand_values_terminate(prefix, values.drop_last(), suffix, count, classes, fuel);
        assert(values.last() == values[values.len() - 1]);
        lemma_expand_body_terminates(prefix + values.last() + suffix, count, classes, fuel);
    }
}

/// When no class value holds a `<`, expanding any template terminates: each
/// replacement removes a placeholder, so one more step than the body has
/// `<` characters suffices.
pub proof fn law_expansion_terminates_without_nested_placeholders(
    body: Seq<char>,
    count: usize,
    classes: Map<Seq<char>, Seq<Seq<char>>>,
)
    requires
        class_values_free_of_placeholders(classes),
    ensures
        expand_body(body, count, classes, 1 + count_char(body, '<')) is Some,
        expansion_terminates(body, count, classes),
{
    lemma_expand_body_terminates(body, count, classes, 1 + count_char(body, '<'));
}

/// When no class value holds a `<`, every list of templates expands in finite
/// time, so it can be iterated and its phrase counts expanded.
pub proof fn law_templates_terminate_without_nested_placeholders(
    templates: Seq<TemplateModel>,
    classes: Map<Seq<char>, Seq<Seq<char>>>,
)
    requires
        class_values_free_of_placeholders(classes),
    ensures
        templates_terminate(templates, classes),
{
    assert forall|i: int| 0 <= i < templates.len() implies expansion_terminates(
        #[trigger] templates[i].body,
        templates[i].count,
        classes,
    ) by {
        law_expansion_terminates_without_nested_placeholders(
            templates[i].body,
            templates[i].count,
            classes,
        );
    }
}

} // verus!

verus! {

impl Clone for SFCustomLanguageModelData {
    /// A copy with the same identity and entries.
    fn clone(&self) -> (r: Self)
        ensures
            r.locale_identifier_spec() == self.locale_identifier_spec(),
            r.identifier_spec() == self.identifier_spec(),
            r.version_spec() == self.version_spec(),
            r.items_spec() == self.items_spec(),
    {
        let mut items: Vec<DataInsertableItem> = Vec::new();
        extend_data_items(&mut items, &self.items);
        let r = SFCustomLanguageModelData {
            locale_identifier: self.locale_identifier.clone(),
            identifier: self.identifier.clone(),
            version: self.version.clone(),
            items,
        };
        assert(data_items_model(r.items@) =~= data_items_model(self.items@));
        r
    }
}

} // verus!

verus! {

/// Flattening template entries distributes over concatenation.
pub proof fn law_flatten_concat(a: Seq<TemplateItemModel>, b: Seq<TemplateItemModel>)
    ensures
        flatten_template_items(a + b) == flatten_template_items(a) + flatten_template_items(b),
    decreases b.len(),
{
    if b.len() == 0 {
        assert(a + b == a);
        assert(flatten_template_items(b) =~= Seq::<TemplateModel>::empty());
    } else {
        law_flatten_concat(a, b.drop_last());
        assert((a + b).drop_last() == a + b.drop_last());
        assert((a + b).last() == b.last());
    }
}

/// A compound template stands for its components, in order: after any
/// entries, a compound of `components` gives the templates, and so the
/// phrase counts, that the components added one by one give. An empty
/// compound adds nothing.
pub proof fn law_compound_template_is_its_components(
    before: Seq<TemplateItemModel>,
    components: Seq<TemplateItemModel>,
    classes: Map<Seq<char>, Seq<Seq<char>>>,
)
    ensures
        flatten_template_items(before.push(TemplateItemModel::CompoundTemplate { components }))
            == flatten_template_items(before + components),
        expand_all(
            flatten_template_items(before.push(TemplateItemModel::CompoundTemplate { components })),
            classes,
        ) == expand_all(flatten_template_items(before + components), classes),
        components.len() == 0 ==> flatten_template_items(
            before.push(TemplateItemModel::CompoundTemplate { components }),
        ) == flatten_template_items(before),
{
    let pushed = before.push(TemplateItemModel::CompoundTemplate { components });
    let compound = TemplateItemModel::CompoundTemplate { components };
    assert(pushed.drop_last() == before);
    assert(pushed.last() == compound);
    assert(pushed.len() > 0);
    assert(flatten_template_item(compound) == flatten_template_items(components));
    assert(flatten_template_items(pushed) == flatten_template_items(before) + flatten_template_item(
        compound,
    ));
    law_flatten_concat(before, components);
    if components.len() == 0 {
        assert(flatten_template_items(components) =~= Seq::<TemplateModel>::empty());
        assert(flatten_template_items(before) + Seq::<TemplateModel>::empty() =~= flatten_template_items(before));
    }
}

/// Inserting a builder splices its entries in, in order, rather than nesting
/// them: after any entries, a builder holding the entries of `a` and then of
/// `b` adds what adding `a` and then `b` adds.
pub proof fn law_builder_insert_splices<A: DataInsertable, B: DataInsertable>(
    items: Seq<DataItemModel>,
    builder: DataInsertableBuilder,
    a: A,
    b: B,
)
    requires
        builder@ == a.data_items() + b.data_items(),
    ensures
        items + builder.data_items() == items + a.data_items() + b.data_items(),
{
    assert(items + (a.data_items() + b.data_items()) =~= items + a.data_items() + b.data_items());
}

/// Adding a template builder to another splices its entries in, in order:
/// a builder holding the entries of `a` and then of `b` adds what adding `a`
/// and then `b` adds.
pub proof fn law_template_builder_splices<A: TemplateInsertable, B: TemplateInsertable>(
    items: Seq<TemplateItemModel>,
    builder: TemplateInsertableBuilder,
    a: A,
    b: B,
)
    requires
        builder@ == a.template_items() + b.template_items(),
    ensures
        items + builder.template_items() == items + a.template_items() + b.template_items(),
{
    assert(items + (a.template_items() + b.template_items()) =~= items + a.template_items()
        + b.template_items());
}

} // verus!

verus! {

/// Inserting a phrase count adds one entry: that phrase with that count.
pub proof fn law_phrase_count_entry(p: PhraseCount)
    ensures
        p.data_items().len() == 1,
        p.data_items()[0] matches DataItemModel::PhraseCount { phrase, count } && phrase
            == p.phrase@ && count == p.count,
{
}

/// Inserting a custom pronunciation adds one entry holding its grapheme and
/// every one of its phonemes, in order.
pub proof fn law_pronunciation_entry(p: CustomPronunciation)
    ensures
        p.data_items().len() == 1,
        p.data_items()[0] matches DataItemModel::CustomPronunciation { grapheme, phonemes } && grapheme
            == p.grapheme@ && phonemes.len() == p.phonemes@.len() && forall|i: int|
            0 <= i < phonemes.len() ==> #[trigger] phonemes[i] == p.phonemes@[i]@,
{
}

/// Inserting a phrase count generator adds one entry holding its phrase
/// counts, in order.
pub proof fn law_phrase_count_generator_entry(g: PhraseCountGenerator)
    ensures
        g.data_items().len() == 1,
        g.data_items()[0] matches DataItemModel::PhraseCountGenerator { values } && values == g@,
{
}

/// Inserting a template generator adds one entry holding its classes and
/// one template entry per template, with its body and count, in order.
pub proof fn law_template_generator_entry(g: TemplatePhraseCountGenerator)
    ensures
        g.data_items().len() == 1,
        g.data_items()[0] matches DataItemModel::TemplatePhraseCountGenerator { templates, classes }
            && classes == g.classes_spec() && templates.len() == g.templates_spec().len() && forall|
            i: int,
        |
            0 <= i < templates.len() ==> #[trigger] templates[i] == (TemplateItemModel::Template {
                body: g.templates_spec()[i].body,
                count: g.templates_spec()[i].count,
            }),
{
}

/// Inserting phrase counts from templates adds one entry holding its
/// classes and its template entries.
pub proof fn law_phrase_counts_from_templates_entry(p: PhraseCountsFromTemplates)
    ensures
        p.data_items().len() == 1,
        p.data_items()[0] matches DataItemModel::PhraseCountsFromTemplates { classes, templates }
            && classes == p.classes_spec() && templates == p.templates_spec(),
{
}

/// Each stored entry stands for its own fields: the same phrase, count,
/// grapheme, phonemes, values, classes and templates.
pub proof fn law_item_model_keeps_fields(item: DataInsertableItem)
    ensures
        match item {
            DataInsertableItem::PhraseCount { phrase, count } => item.model() matches DataItemModel::PhraseCount {
                phrase: p,
                count: c,
            } && p == phrase@ && c == count,
            DataInsertableItem::CustomPronunciation { grapheme, phonemes } => item.model() matches DataItemModel::CustomPronunciation {
                grapheme: g,
                phonemes: ps,
            } && g == grapheme@ && ps.len() == phonemes@.len() && forall|i: int|
                0 <= i < ps.len() ==> #[trigger] ps[i] == phonemes@[i]@,
            DataInsertableItem::PhraseCountGenerator { values } => item.model() matches DataItemModel::PhraseCountGenerator {
                values: vs,
            } && vs.len() == values@.len() && forall|i: int|
                0 <= i < vs.len() ==> #[trigger] vs[i] == values@[i]@,
            DataInsertableItem::TemplatePhraseCountGenerator { templates, classes } => item.model() matches DataItemModel::TemplatePhraseCountGenerator {
                templates: ts,
                classes: cs,
            } && cs == classes@ && ts == template_items_model(templates@),
            DataInsertableItem::PhraseCountsFromTemplates { classes, templates } => item.model() matches DataItemModel::PhraseCountsFromTemplates {
                classes: cs,
                templates: ts,
            } && cs == classes@ && ts == template_items_model(templates@),
        },
{
}

} // verus!

verus! {

/// Every `<` of the body opens a placeholder: a later `>` closes it, and the
/// name between them is a defined class.
pub open spec fn placeholders_defined(
    body: Seq<char>,
    classes: Map<Seq<char>, Seq<Seq<char>>>,
) -> bool
    decreases body.len(),
{
    match find_char_from(body, '<', 0) {
        None => true,
        Some(start) => match find_char_from(body, '>', start + 1) {
            None => false,
            Some(end) => if 0 <= end < body.len() {
                &&& classes.contains_key(body.subrange(start + 1, end))
                &&& placeholders_defined(body.skip(end + 1), classes)
            } else {
                false
            },
        },
    }
}

/// The number of ways to choose one value for each placeholder of the body,
/// from left to right.
pub open spec fn placeholder_choices(
    body: Seq<char>,
    classes: Map<Seq<char>, Seq<Seq<char>>>,
) -> nat
    decreases body.len(),
{
    match find_char_from(body, '<', 0) {
        None => 1,
        Some(start) => match find_char_from(body, '>', start + 1) {
            None => 1,
            Some(end) => if 0 <= end < body.len() {
                classes[body.subrange(start + 1, end)].len() * placeholder_choices(
                    body.skip(end + 1),
                    classes,
                )
            } else {
                1
            },
        },
    }
}

proof fn lemma_find_shift(w: Seq<char>, t: Seq<char>, c: char, k: int)
    requires
        0 <= k,
    ensures
        find_char_from(w + t, c, w.len() + k) == match find_char_from(t, c, k) {
            Some(i) => Some(i + w.len()),
            None => None,
        },
    decreases t.len() - k,
{
    if k < t.len() {
        assert((w + t)[w.len() + k] == t[k]);
        if t[k] != c {
            lemma_find_shift(w, t, c, k + 1);
        }
    }
}

proof fn lemma_find_skips_free(s: Seq<char>, c: char, from: int, to: int)
    requires
        0 <= from <= to <= s.len(),
        forall|j: int| from <= j < to ==> s[j] != c,
    ensures
        find_char_from(s, c, from) == find_char_from(s, c, to),
    decreases to - from,
{
    if from < to {
        lemma_find_skips_free(s, c, from + 1, to);
    }
}

/// Text free of `<` in front of a body changes neither its placeholders nor
/// the choices they offer.
proof fn lemma_free_prefix(w: Seq<char>, t: Seq<char>, classes: Map<Seq<char>, Seq<Seq<char>>>)
    requires
        !w.contains('<'),
    ensures
        placeholders_defined(w + t, classes) == placeholders_defined(t, classes),
        placeholder_choices(w + t, classes) == placeholder_choices(t, classes),
{
    let b = w + t;
    let n = w.len() as int;
    assert forall|j: int| 0 <= j < n implies b[j] != '<' by {
        assert(b[j] == w[j]);
        if w[j] == '<' {
            assert(w.contains('<'));
        }
    }
    lemma_find_skips_free(b, '<', 0, n);
    lemma_find_shift(w, t, '<', 0);
    crate::text::lemma_find_char_from(t, '<', 0);
    if let Some(start) = find_char_from(t, '<', 0) {
        lemma_find_shift(w, t, '>', start + 1);
        crate::text::lemma_find_char_from(t, '>', start + 1);
        if let Some(end) = find_char_from(t, '>', start + 1) {
            assert(b.subrange(start + n + 1, end + n) =~= t.subrange(start + 1, end));
            assert(b.skip(end + n + 1) =~= t.skip(end + 1));
        }
    }
}

proof fn lemma_full_body(
    body: Seq<char>,
    count: usize,
    classes: Map<Seq<char>, Seq<Seq<char>>>,
    fuel: nat,
)
    requires
        class_values_free_of_placeholders(classes),
        placeholders_defined(body, classes),
        expand_body(body, count, classes, fuel) is Some,
    ensures
        expand_body(body, count, classes, fuel)->0.len() == placeholder_choices(body, classes),
        forall|i: int|
            0 <= i < expand_body(body, count, classes, fuel)->0.len() ==> !(#[trigger] expand_body(
                body,
                count,
                classes,
                fuel,
            )->0[i]).phrase.contains('<'),
    decreases fuel, 0nat,
{
    crate::text::lemma_find_char_from(body, '<', 0);
    match find_char_from(body, '<', 0) {
        None => {
            let r = literal_phrase(body, count);
            assert(r[0].phrase == body);
            if body.contains('<') {
                let j = choose|j: int| 0 <= j < body.len() && body[j] == '<';
                assert(body[j] != '<');
            }
        },
        Some(start) => {
            crate::text::lemma_find_char_from(body, '>', start + 1);
            let end = find_char_from(body, '>', start + 1)->0;
            let name = body.subrange(start + 1, end);
            let prefix = body.take(start);
            let suffix = body.skip(end + 1);
            let values = classes[name];
            assert(!prefix.contains('<')) by {
                if prefix.contains('<') {
                    let j = choose|j: int| 0 <= j < prefix.len() && prefix[j] == '<';
                    assert(body[j] == '<');
                }
            }
            assert forall|i: int| 0 <= i < values.len() implies !(#[trigger] values[i]).contains(
                '<',
            ) by {
                assert(!classes[name][i].contains('<'));
            }
            lemma_full_values(prefix, values, suffix, count, classes, (fuel - 1) as nat);
        },
    }
}

proof fn lemma_full_values(
    prefix: Seq<char>,
    values: Seq<Seq<char>>,
    suffix: Seq<char>,
    count: usize,
    classes: Map<Seq<char>, Seq<Seq<char>>>,
    fuel: nat,
)
    requires
        class_values_free_of_placeholders(classes),
        !prefix.contains('<'),
        forall|i: int| 0 <= i < values.len() ==> !(#[trigger] values[i]).contains('<'),
        placeholders_defined(suffix, classes),
        expand_values(prefix, values, suffix, count, classes, fuel) is Some,
    ensures
        expand_values(prefix, values, suffix, count, classes, fuel)->0.len() == values.len()
            * placeholder_choices(suffix, classes),
        forall|i: int|
            0 <= i < expand_values(prefix, values, suffix, count, classes, fuel)->0.len() ==> !(
            #[trigger] expand_values(prefix, values, suffix, count, classes, fuel)->0[i]).phrase.contains(
                '<',
            ),
    decreases fuel, values.len(),
{
    if values.len() > 0 {
        let front_values = values.drop_last();
        assert forall|i: int| 0 <= i < front_values.len() implies !(
        #[trigger] front_values[i]).contains('<') by {
            assert(front_values[i] == values[i]);
        }
        lemma_full_values(prefix, front_values, suffix, count, classes, fuel);
        let v = values.last();
        assert(v == values[values.len() - 1]);
        let pv = prefix + v;
        assert(!pv.contains('<')) by {
            if pv.contains('<') {
                let j = choose|j: int| 0 <= j < pv.len() && pv[j] == '<';
                if j < prefix.len() {
                    assert(prefix[j] == '<');
                } else {
                    assert(v[j - prefix.len()] == '<');
                }
            }
        }
        lemma_free_prefix(pv, suffix, classes);
        let w = prefix + v + suffix;
        lemma_full_body(w, count, classes, fuel);
        let front = expand_values(prefix, front_values, suffix, count, classes, fuel)->0;
        let back = expand_body(w, count, classes, fuel)->0;
        let c = placeholder_choices(suffix, classes);
        let n = values.len();
        assert(front.len() + back.len() == n * c) by (nonlinear_arith)
            requires
                front.len() == (n - 1) * c,
                back.len() == c,
        ;
        assert forall|i: int| 0 <= i < (front + back).len() implies !(#[trigger] (front
            + back)[i]).phrase.contains('<') by {
            if i < front.len() {
                assert((front + back)[i] == front[i]);
            } else {
                assert((front + back)[i] == back[i - front.len()]);
            }
        }
    }
}

/// When every placeholder of a template names a defined class and no class
/// value holds a `<`, expansion replaces every placeholder: it terminates,
/// no phrase it gives holds a `<`, every phrase keeps the template's count,
/// and there is one phrase per way of choosing a value for each placeholder.
pub proof fn law_defined_placeholders_are_all_replaced(
    body: Seq<char>,
    count: usize,
    classes: Map<Seq<char>, Seq<Seq<char>>>,
)
    requires
        class_values_free_of_placeholders(classes),
        placeholders_defined(body, classes),
    ensures
        expansion_terminates(body, count, classes),
        template_expansion(body, count, classes).len() == placeholder_choices(body, classes),
        forall|i: int|
            0 <= i < template_expansion(body, count, classes).len() ==> !(
            #[trigger] template_expansion(body, count, classes)[i]).phrase.contains('<')
                && template_expansion(body, count, classes)[i].count == count,
{
    law_expansion_terminates_without_nested_placeholders(body, count, classes);
    let fuel = expansion_fuel(body, count, classes);
    lemma_full_body(body, count, classes, fuel);
    law_expansion_keeps_count(body, count, classes);
    let r = template_expansion(body, count, classes);
    assert forall|i: int| 0 <= i < r.len() implies (#[trigger] r[i]).count == count by {
        assert(all_counts(r, count));
    }
}

} // verus!

verus! {

proof fn lemma_no_char_concat(a: Seq<char>, b: Seq<char>, c: char)
    requires
        !a.contains(c),
        !b.contains(c),
    ensures
        !(a + b).contains(c),
{
    if (a + b).contains(c) {
        let j = choose|j: int| 0 <= j < (a + b).len() && (a + b)[j] == c;
        if j < a.len() {
            assert(a[j] == c);
        } else {
            assert(b[j - a.len()] == c);
        }
    }
}

/// Where the first placeholder of `prefix<name>suffix` lies, when `prefix`
/// holds no `<` and `name` no `>`.
proof fn lemma_first_placeholder(prefix: Seq<char>, name: Seq<char>, suffix: Seq<char>)
    requires
        !prefix.contains('<'),
        !name.contains('>'),
    ensures
        ({
            let body = prefix + seq!['<'] + name + seq!['>'] + suffix;
            let start = prefix.len() as int;
            let end = start + 1 + name.len();
            &&& find_char_from(body, '<', 0) == Some(start)
            &&& find_char_from(body, '>', start + 1) == Some(end)
            &&& body.subrange(start + 1, end) == name
            &&& body.take(start) == prefix
            &&& body.skip(end + 1) == suffix
        }),
{
    let body = prefix + seq!['<'] + name + seq!['>'] + suffix;
    let start = prefix.len() as int;
    let end = start + 1 + name.len();
    assert(body[start] == '<');
    assert forall|j: int| 0 <= j < start implies body[j] != '<' by {
        assert(body[j] == prefix[j]);
        if prefix[j] == '<' {
            assert(prefix.contains('<'));
        }
    }
    crate::text::lemma_find_char_at(body, '<', 0, start);
    assert(body[end] == '>');
    assert forall|j: int| start + 1 <= j < end implies body[j] != '>' by {
        assert(body[j] == name[j - start - 1]);
        if name[j - start - 1] == '>' {
            assert(name.contains('>'));
        }
    }
    crate::text::lemma_find_char_at(body, '>', start + 1, end);
    assert(body.subrange(start + 1, end) =~= name);
    assert(body.take(start) =~= prefix);
    assert(body.skip(end + 1) =~= suffix);
}

/// With any fuel that suffices, a single placeholder with plain values
/// expands to one phrase per value.
proof fn lemma_single_with_fuel(
    prefix: Seq<char>,
    name: Seq<char>,
    suffix: Seq<char>,
    count: usize,
    classes: Map<Seq<char>, Seq<Seq<char>>>,
    fuel: nat,
)
    requires
        class_values_free_of_placeholders(classes),
        !prefix.contains('<'),
        !name.contains('>'),
        !suffix.contains('<'),
        classes.contains_key(name),
        expand_body(prefix + seq!['<'] + name + seq!['>'] + suffix, count, classes, fuel) is Some,
    ensures
        expand_body(prefix + seq!['<'] + name + seq!['>'] + suffix, count, classes, fuel) == Some(
            plain_replacements(prefix, classes[name], suffix, count),
        ),
{
    lemma_first_placeholder(prefix, name, suffix);
    let values = classes[name];
    if values.len() == 0 {
        assert(plain_replacements(prefix, values, suffix, count) =~= Seq::<PhraseCountModel>::empty());
    } else {
        if fuel == 1 {
            lemma_values_without_fuel(prefix, values, suffix, count, classes);
        }
        assert forall|i: int| 0 <= i < values.len() implies !(prefix + #[trigger] values[i]
            + suffix).contains('<') by {
            assert(!classes[name][i].contains('<'));
            lemma_no_char_concat(prefix, values[i], '<');
            lemma_no_char_concat(prefix + values[i], suffix, '<');
        }
        lemma_plain_values(prefix, values, suffix, count, classes, (fuel - 1) as nat);
    }
}

/// The phrases `prefix + a + mid + b + suffix` for each `a` of `first` and,
/// within it, each `b` of `second`.
pub open spec fn pair_replacements(
    prefix: Seq<char>,
    first: Seq<Seq<char>>,
    mid: Seq<char>,
    second: Seq<Seq<char>>,
    suffix: Seq<char>,
    count: usize,
) -> Seq<PhraseCountModel>
    decreases first.len(),
{
    if first.len() == 0 {
        Seq::empty()
    } else {
        pair_replacements(prefix, first.drop_last(), mid, second, suffix, count)
            + plain_replacements(prefix + first.last() + mid, second, suffix, count)
    }
}

proof fn lemma_pair_values(
    prefix: Seq<char>,
    first: Seq<Seq<char>>,
    mid: Seq<char>,
    b: Seq<char>,
    suffix: Seq<char>,
    count: usize,
    classes: Map<Seq<char>, Seq<Seq<char>>>,
    fuel: nat,
)
    requires
        class_values_free_of_placeholders(classes),
        !prefix.contains('<'),
        !mid.contains('<'),
        !b.contains('>'),
        !suffix.contains('<'),
        classes.contains_key(b),
        forall|i: int| 0 <= i < first.len() ==> !(#[trigger] first[i]).contains('<'),
        expand_values(
            prefix,
            first,
            mid + seq!['<'] + b + seq!['>'] + suffix,
            count,
            classes,
            fuel,
        ) is Some,
    ensures
        expand_values(prefix, first, mid + seq!['<'] + b + seq!['>'] + suffix, count, classes, fuel)
            == Some(pair_replacements(prefix, first, mid, classes[b], suffix, count)),
    decreases first.len(),
{
    if first.len() > 0 {
        let front = first.drop_last();
        assert forall|i: int| 0 <= i < front.len() implies !(#[trigger] front[i]).contains('<') by {
            assert(front[i] == first[i]);
        }
        lemma_pair_values(prefix, front, mid, b, suffix, count, classes, fuel);
        let a = first.last();
        assert(a == first[first.len() - 1]);
        let pre = prefix + a + mid;
        lemma_no_char_concat(prefix, a, '<');
        lemma_no_char_concat(prefix + a, mid, '<');
        assert(prefix + a + (mid + seq!['<'] + b + seq!['>'] + suffix) =~= pre + seq!['<'] + b
            + seq!['>'] + suffix);
        lemma_single_with_fuel(pre, b, suffix, count, classes, fuel);
    }
}

proof fn lemma_pair_index(
    prefix: Seq<char>,
    first: Seq<Seq<char>>,
    mid: Seq<char>,
    second: Seq<Seq<char>>,
    suffix: Seq<char>,
    count: usize,
    i: int,
    j: int,
)
    requires
        0 <= i < first.len(),
        0 <= j < second.len(),
    ensures
        pair_replacements(prefix, first, mid, second, suffix, count).len() == first.len()
            * second.len(),
        i * second.len() + j < first.len() * second.len(),
        pair_replacements(prefix, first, mid, second, suffix, count)[i * second.len() + j] == (
        PhraseCountModel { phrase: prefix + first[i] + mid + second[j] + suffix, count }),
    decreases first.len(),
{
    let n = first.len();
    let m = second.len();
    let front = pair_replacements(prefix, first.drop_last(), mid, second, suffix, count);
    let back = plain_replacements(prefix + first.last() + mid, second, suffix, count);
    if i < n - 1 {
        lemma_pair_index(prefix, first.drop_last(), mid, second, suffix, count, i, j);
        assert(first.drop_last()[i] == first[i]);
        assert(front.len() + back.len() == n * m) by (nonlinear_arith)
            requires
                front.len() == (n - 1) * m,
                back.len() == m,
        ;
        assert(i * m + j < (n - 1) * m) by (nonlinear_arith)
            requires
                0 <= i < n - 1,
                0 <= j < m,
        ;
        assert(i * m + j < n * m) by (nonlinear_arith)
            requires
                i * m + j < (n - 1) * m,
                m >= 0,
        ;
    } else {
        if n > 1 {
            lemma_pair_index(prefix, first.drop_last(), mid, second, suffix, count, 0, j);
        } else {
            assert(front =~= Seq::<PhraseCountModel>::empty());
        }
        assert(front.len() == (n - 1) * m);
        assert(front.len() + back.len() == n * m) by (nonlinear_arith)
            requires
                front.len() == (n - 1) * m,
                back.len() == m,
        ;
        assert(i * m + j == (n - 1) * m + j) by (nonlinear_arith)
            requires
                i == n - 1,
        ;
        assert(i * m + j < n * m) by (nonlinear_arith)
            requires
                i == n - 1,
                0 <= j < m,
        ;
        assert(first.last() == first[i]);
    }
}

/// Two placeholders: when the body is `prefix<a>mid<b>suffix`, the text
/// around the placeholders holds no `<`, the names no `>`, both name defined
/// classes and no class value holds a `<`, expansion gives, for each value
/// `x` of `a` in order and within it each value `y` of `b` in order, the
/// phrase `prefix + x + mid + y + suffix`.
pub proof fn law_two_placeholder_expansion(
    prefix: Seq<char>,
    a: Seq<char>,
    mid: Seq<char>,
    b: Seq<char>,
    suffix: Seq<char>,
    count: usize,
    classes: Map<Seq<char>, Seq<Seq<char>>>,
)
    requires
        class_values_free_of_placeholders(classes),
        !prefix.contains('<'),
        !mid.contains('<'),
        !suffix.contains('<'),
        !a.contains('>'),
        !b.contains('>'),
        classes.contains_key(a),
        classes.contains_key(b),
    ensures
        ({
            let body = prefix + seq!['<'] + a + seq!['>'] + mid + seq!['<'] + b + seq!['>'] + suffix;
            let r = template_expansion(body, count, classes);
            &&& expansion_terminates(body, count, classes)
            &&& r.len() == classes[a].len() * classes[b].len()
            &&& forall|i: int, j: int|
                0 <= i < classes[a].len() && 0 <= j < classes[b].len() ==> r[i * classes[b].len()
                    + j] == (PhraseCountModel {
                    phrase: prefix + classes[a][i] + mid + classes[b][j] + suffix,
                    count,
                })
        }),
{
    let rest = mid + seq!['<'] + b + seq!['>'] + suffix;
    let body = prefix + seq!['<'] + a + seq!['>'] + rest;
    assert(prefix + seq!['<'] + a + seq!['>'] + mid + seq!['<'] + b + seq!['>'] + suffix =~= body);
    law_expansion_terminates_without_nested_placeholders(body, count, classes);
    let fuel = expansion_fuel(body, count, classes);
    assert(expand_body(body, count, classes, fuel) is Some);
    lemma_first_placeholder(prefix, a, rest);
    let first = classes[a];
    let second = classes[b];
    assert forall|i: int| 0 <= i < first.len() implies !(#[trigger] first[i]).contains('<') by {
        assert(!classes[a][i].contains('<'));
    }
    lemma_pair_values(prefix, first, mid, b, suffix, count, classes, (fuel - 1) as nat);
    let r = template_expansion(body, count, classes);
    assert(r == pair_replacements(prefix, first, mid, second, suffix, count));
    if first.len() > 0 && second.len() > 0 {
        lemma_pair_index(prefix, first, mid, second, suffix, count, 0, 0);
    } else if first.len() == 0 {
        assert(pair_replacements(prefix, first, mid, second, suffix, count) =~= Seq::<
            PhraseCountModel,
        >::empty());
        assert(first.len() * second.len() == 0) by (nonlinear_arith)
            requires
                first.len() == 0,
        ;
    } else {
        lemma_pair_empty_second(prefix, first, mid, second, suffix, count);
        assert(first.len() * second.len() == 0) by (nonlinear_arith)
            requires
                second.len() == 0,
        ;
    }
    assert forall|i: int, j: int| 0 <= i < first.len() && 0 <= j < second.len() implies r[i
        * second.len() + j] == (PhraseCountModel {
        phrase: prefix + first[i] + mid + second[j] + suffix,
        count,
    }) by {
        lemma_pair_index(prefix, first, mid, second, suffix, count, i, j);
    }
}

proof fn lemma_pair_empty_second(
    prefix: Seq<char>,
    first: Seq<Seq<char>>,
    mid: Seq<char>,
    second: Seq<Seq<char>>,
    suffix: Seq<char>,
    count: usize,
)
    requires
        second.len() == 0,
    ensures
        pair_replacements(prefix, first, mid, second, suffix, count).len() == 0,
    decreases first.len(),
{
    if first.len() > 0 {
        lemma_pair_empty_second(prefix, first.drop_last(), mid, second, suffix, count);
    }
}

} // verus!
