//! The environment variables of a process, as they stood when they were read.

use crate::path::text_of;
use std::path::PathBuf;
use vstd::prelude::*;

verus! {

/// One environment variable.
#[derive(Debug, Clone, PartialEq, Eq)]
pub struct EnvironmentVariable {
    pub name: String,
    pub value: PathBuf,
}

/// The environment variables of a process.
#[derive(Debug, Clone, PartialEq, Eq)]
pub struct Environment {
    variables: Vec<EnvironmentVariable>,
}

/// The name and the value of each variable.
pub open spec fn variables_of(variables: Seq<EnvironmentVariable>) -> Seq<(Seq<char>, PathBuf)> {
    variables.map_values(|variable: EnvironmentVariable| (variable.name@, variable.value))
}

/// The value of the variable of a name: that of the first, if several have the name.
pub open spec fn value_of(variables: Seq<(Seq<char>, PathBuf)>, name: Seq<char>) -> Option<PathBuf>
    decreases variables.len(),
{
    if variables.len() == 0 {
        None
    } else if variables[0].0 == name {
        Some(variables[0].1)
    } else {
        value_of(variables.drop_first(), name)
    }
}

/// The text of the variable of a name, where it is set and its value is valid Unicode.
pub open spec fn text_value_of(
    variables: Seq<(Seq<char>, PathBuf)>,
    name: Seq<char>,
) -> Option<Seq<char>> {
    match value_of(variables, name) {
        Some(value) => crate::path::path_text(value),
        None => None,
    }
}

impl View for Environment {
    type V = Seq<(Seq<char>, PathBuf)>;

    closed spec fn view(&self) -> Seq<(Seq<char>, PathBuf)> {
        variables_of(self.variables@)
    }
}

impl Environment {
    /// The environment that holds the given variables.
    pub fn new(variables: Vec<EnvironmentVariable>) -> (res: Self)
        ensures
            res@ == variables_of(variables@),
    {
        Self { variables }
    }

    /// The value of a variable, where it is set.
    pub fn value(&self, name: &String) -> (res: Option<PathBuf>)
        ensures
            res == value_of(self@, name@),
    {
        let mut index: usize = 0;
        assert(self@.skip(0) == self@);
        while index < self.variables.len()
            invariant
                index <= self.variables.len(),
                self@ == variables_of(self.variables@),
                value_of(self@, name@) == value_of(self@.skip(index as int), name@),
            decreases self.variables.len() - index,
        {
            let variable = &self.variables[index];
            assert(self@.skip(index as int)[0] == (variable.name@, variable.value));
            if variable.name == *name {
                return Some(variable.value.clone());
            }
            assert(self@.skip(index as int).drop_first() == self@.skip(index + 1));
            index = index + 1;
        }
        None
    }

    /// The text of a variable, where it is set and valid Unicode.
    pub fn text(&self, name: &String) -> (res: Option<String>)
        ensures
            res is Some <==> text_value_of(self@, name@) is Some,
            res matches Some(text) ==> text_value_of(self@, name@) == Some(text@),
    {
        match self.value(name) {
            Some(value) => text_of(&value),
            None => None,
        }
    }
}

/// A variable is unset if and only if no variable has its name.
pub proof fn law_unset_is_absent(variables: Seq<(Seq<char>, PathBuf)>, name: Seq<char>)
    ensures
        value_of(variables, name) is None <==> forall|i: int|
            0 <= i < variables.len() ==> (#[trigger] variables[i]).0 != name,
    decreases variables.len(),
{
    if variables.len() > 0 {
        let rest = variables.drop_first();
        law_unset_is_absent(rest, name);
        assert(forall|i: int| 0 <= i < rest.len() ==> rest[i] == variables[i + 1]);
        assert(forall|i: int| 1 <= i < variables.len() ==> variables[i] == rest[i - 1]);
    }
}

/// Of several variables of one name the first counts.
pub proof fn law_first_variable_counts(
    variables: Seq<(Seq<char>, PathBuf)>,
    name: Seq<char>,
    index: int,
)
    requires
        0 <= index < variables.len(),
        variables[index].0 == name,
        forall|i: int| 0 <= i < index ==> (#[trigger] variables[i]).0 != name,
    ensures
        value_of(variables, name) == Some(variables[index].1),
    decreases variables.len(),
{
    if index > 0 {
        let rest = variables.drop_first();
        assert(variables[0].0 != name);
        assert(forall|i: int| 0 <= i < rest.len() ==> rest[i] == variables[i + 1]);
        law_first_variable_counts(rest, name, index - 1);
    }
}

/// Looked up in the variables as they were given, by name: a variable is unset if and only if none
/// has its name, and otherwise it has the value of the first that has. Its text is that of its
/// value, where there is one.
pub proof fn law_variable_has_the_value_that_was_given(
    variables: Vec<EnvironmentVariable>,
    environment: Environment,
    name: &String,
    value: Option<PathBuf>,
    text: Option<String>,
)
    requires
        call_ensures(Environment::new, (variables,), environment),
        call_ensures(Environment::value, (&environment, name), value),
        call_ensures(Environment::text, (&environment, name), text),
    ensures
        value is None <==> forall|i: int|
            0 <= i < variables@.len() ==> (#[trigger] variables@[i]).name@ != name@,
        forall|i: int|
            0 <= i < variables@.len() && (#[trigger] variables@[i]).name@ == name@ && (forall|
                earlier: int,
            |
                0 <= earlier < i ==> (#[trigger] variables@[earlier]).name@ != name@) ==> value
                == Some(variables@[i].value),
        text is Some <==> value is Some && crate::path::path_text(value->0) is Some,
        text matches Some(text) ==> crate::path::path_text(value->0) == Some(text@),
{
    let pairs = variables_of(variables@);
    law_unset_is_absent(pairs, name@);
    assert(forall|i: int|
        0 <= i < variables@.len() ==> (#[trigger] pairs[i]) == (
            variables@[i].name@,
            variables@[i].value,
        ));
    if value is None {
        assert forall|i: int| 0 <= i < variables@.len() implies (
        #[trigger] variables@[i]).name@ != name@ by {
            assert(pairs[i].0 != name@);
        }
    } else {
        let set = choose|i: int| 0 <= i < pairs.len() && (#[trigger] pairs[i]).0 == name@;
        assert(variables@[set].name@ == name@);
    }
    assert forall|i: int|
        0 <= i < variables@.len() && (#[trigger] variables@[i]).name@ == name@ && (forall|
            earlier: int,
        |
            0 <= earlier < i ==> (#[trigger] variables@[earlier]).name@
                != name@) implies value == Some(variables@[i].value) by {
        assert forall|earlier: int| 0 <= earlier < i implies (#[trigger] pairs[earlier]).0
            != name@ by {
            assert(variables@[earlier].name@ != name@);
        }
        law_first_variable_counts(pairs, name@, i);
    }
}

} // verus!
