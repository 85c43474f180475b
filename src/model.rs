use vstd::prelude::*;
use vstd::string::StrSliceExecFns;

verus! {

/// The closed set of models that the tool knows prices and encodings for.
#[derive(Clone, Copy, Debug, PartialEq, Eq, Structural)]
pub enum Model {
    Gpt4,
    Gpt35Turbo,
    Davinci,
    Curie,
    Babbage,
    Ada,
}

/// The byte-pair-encoding schemes that the supported models use.
#[derive(Clone, Copy, Debug, PartialEq, Eq, Structural)]
pub enum Encoding {
    Cl100k,
    R50k,
}

/// The model that a name selects: an exact, case-sensitive match.
pub open spec fn model_named(name: Seq<char>) -> Option<Model> {
    if name == "gpt-4"@ {
        Some(Model::Gpt4)
    } else if name == "gpt-3.5-turbo"@ {
        Some(Model::Gpt35Turbo)
    } else if name == "davinci"@ {
        Some(Model::Davinci)
    } else if name == "curie"@ {
        Some(Model::Curie)
    } else if name == "babbage"@ {
        Some(Model::Babbage)
    } else if name == "ada"@ {
        Some(Model::Ada)
    } else {
        None
    }
}

impl Model {
    /// The encoding scheme a model tokenizes with.
    pub open spec fn encoding_spec(self) -> Encoding {
        match self {
            Model::Gpt4 | Model::Gpt35Turbo => Encoding::Cl100k,
            _ => Encoding::R50k,
        }
    }

    pub fn encoding(&self) -> (r: Encoding)
        ensures
            r == self.encoding_spec(),
    {
        match self {
            Model::Gpt4 | Model::Gpt35Turbo => Encoding::Cl100k,
            _ => Encoding::R50k,
        }
    }

    /// Looks a model up by its name.
    pub fn from_name(name: &str) -> (r: Option<Model>)
        ensures
            r == model_named(name@),
    {
        if str_eq(name, "gpt-4") {
            Some(Model::Gpt4)
        } else if str_eq(name, "gpt-3.5-turbo") {
            Some(Model::Gpt35Turbo)
        } else if str_eq(name, "davinci") {
            Some(Model::Davinci)
        } else if str_eq(name, "curie") {
            Some(Model::Curie)
        } else if str_eq(name, "babbage") {
            Some(Model::Babbage)
        } else if str_eq(name, "ada") {
            Some(Model::Ada)
        } else {
            None
        }
    }
}

/// Character-wise equality of two strings.
pub fn str_eq(a: &str, b: &str) -> (r: bool)
    ensures
        r == (a@ == b@),
{
    let n = a.unicode_len();
    if n != b.unicode_len() {
        return false;
    }
    let mut i: usize = 0;
    while i < n
        invariant
            i <= n,
            n == a@.len(),
            n == b@.len(),
            forall|j: int| 0 <= j < i ==> a@[j] == b@[j],
        decreases n - i,
    {
        if a.get_char(i) != b.get_char(i) {
            return false;
        }
        i += 1;
    }
    assert(a@ =~= b@);
    true
}

} // verus!
