//! Preprocessor definitions written as `NAME` or `NAME=VALUE`.

use vstd::prelude::*;

verus! {

/// The separator between a definition's name and its value.
pub open spec fn separator() -> char {
    '='
}

/// What a definition string stands for: a name, and a value if the string
/// holds a separator. The name ends at the first separator; the value starts
/// after the last one.
pub open spec fn define_of(text: Seq<char>) -> (Seq<char>, Option<Seq<char>>) {
    match (text.index_of_first(separator()), text.index_of_last(separator())) {
        (Some(first), Some(last)) => (
            text.subrange(0, first),
            Some(text.subrange(last + 1, text.len() as int)),
        ),
        _ => (text, None),
    }
}

/// A preprocessor definition: a name, and a value if it has one.
#[derive(Debug, PartialEq, Eq)]
pub struct Define {
    pub name: String,
    pub value: Option<String>,
}

impl View for Define {
    type V = (Seq<char>, Option<Seq<char>>);

    open spec fn view(&self) -> (Seq<char>, Option<Seq<char>>) {
        (
            self.name@,
            match self.value {
                Some(value) => Some(value@),
                None => None,
            },
        )
    }
}

impl Clone for Define {
    /// A copy that holds the same definition.
    fn clone(&self) -> (copy: Define)
        ensures
            copy@ == self@,
    {
        Define {
            name: self.name.clone(),
            value: match &self.value {
                Some(value) => Some(value.clone()),
                None => None,
            },
        }
    }
}

/// Splits a definition string into its name and its value.
pub fn split_define(text: &str) -> (define: Define)
    ensures
        define@ == define_of(text@),
{
    let length = text.unicode_len();
    let mut ends: Option<(usize, usize)> = None;
    let mut at: usize = 0;
    for c in it: text.chars()
        invariant
            at == it.index(),
            length == text@.len(),
            it.seq() == text@,
            match ends {
                Some((first, last)) => {
                    &&& first <= last < at
                    &&& text@[first as int] == separator()
                    &&& text@[last as int] == separator()
                    &&& forall|j: int| 0 <= j < first ==> text@[j] != separator()
                    &&& forall|j: int| last < j < at ==> text@[j] != separator()
                },
                None => forall|j: int| 0 <= j < at ==> text@[j] != separator(),
            },
    {
        if c == '=' {
            ends = match ends {
                Some((first, _)) => Some((first, at)),
                None => Some((at, at)),
            };
        }
        at = at + 1;
    }
    proof {
        text@.index_of_first_ensures(separator());
        text@.index_of_last_ensures(separator());
    }
    match ends {
        Some((first, last)) => Define {
            name: text.substring_char(0, first).to_owned(),
            value: Some(text.substring_char(last + 1, length).to_owned()),
        },
        None => Define { name: text.to_owned(), value: None },
    }
}

/// A string without a separator defines its whole text, without a value.
pub proof fn lemma_define_without_separator(text: Seq<char>)
    requires
        !text.contains(separator()),
    ensures
        define_of(text) == (text, None::<Seq<char>>),
{
    text.index_of_first_ensures(separator());
    text.index_of_last_ensures(separator());
}

/// A string with exactly one separator defines the text before it, with
/// the text after it as the value.
pub proof fn lemma_define_with_one_separator(name: Seq<char>, value: Seq<char>)
    requires
        !name.contains(separator()),
        !value.contains(separator()),
    ensures
        define_of(name + seq![separator()] + value) == (name, Some(value)),
{
    lemma_define_with_separators(name, Seq::empty(), value);
    assert(name + seq![separator()] + value =~= name + seq![separator()] + Seq::<char>::empty() + value);
}

/// A string with two or more separators defines the text before the first
/// of them, with the text after the last of them as the value; what stands
/// between the two is dropped.
pub proof fn lemma_define_with_many_separators(name: Seq<char>, between: Seq<char>, value: Seq<char>)
    requires
        !name.contains(separator()),
        !value.contains(separator()),
    ensures
        define_of(name + seq![separator()] + between + seq![separator()] + value) == (name, Some(value)),
{
    let inner = between + seq![separator()];
    lemma_define_with_separators(name, inner, value);
    assert(name + seq![separator()] + between + seq![separator()] + value =~= name + seq![separator()]
        + inner + value);
}

/// The common form of the two laws above: `inner` is empty, or ends with a
/// separator.
proof fn lemma_define_with_separators(name: Seq<char>, inner: Seq<char>, value: Seq<char>)
    requires
        !name.contains(separator()),
        !value.contains(separator()),
        inner.len() == 0 || inner.last() == separator(),
    ensures
        define_of(name + seq![separator()] + inner + value) == (name, Some(value)),
{
    let text = name + seq![separator()] + inner + value;
    let first = name.len() as int;
    let last = first + inner.len();
    assert(text[first] == separator());
    assert(text[last] == separator()) by {
        if inner.len() > 0 {
            assert(text[last] == inner[inner.len() - 1]);
        }
    }
    assert forall|j: int| 0 <= j < first implies text[j] != separator() by {
        assert(text[j] == name[j]);
    }
    assert forall|j: int| last < j < text.len() implies text[j] != separator() by {
        assert(text[j] == value[j - last - 1]);
    }
    text.index_of_first_ensures(separator());
    text.index_of_last_ensures(separator());
    assert(text.subrange(0, first) =~= name);
    assert(text.subrange(last + 1, text.len() as int) =~= value);
}

} // verus!
