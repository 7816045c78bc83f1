//! JSON documents as plain data.

use vstd::prelude::*;

verus! {

/// The mathematical value of a JSON document. An object is the sequence of
/// its entries, in the order the document gives them.
pub enum Tree {
    Null,
    Bool(bool),
    Number(Seq<char>),
    Text(Seq<char>),
    Array(Seq<Tree>),
    Object(Seq<(Seq<char>, Tree)>),
}

impl Tree {
    /// The value under `key`, where this is an object that has the key. Of
    /// several entries with one key the first counts.
    pub open spec fn field(self, key: Seq<char>) -> Option<Tree> {
        match self {
            Tree::Object(entries) => {
                let keys = entries.map_values(|e: (Seq<char>, Tree)| e.0);
                match keys.index_of_first(key) {
                    Some(at) => Some(entries[at].1),
                    None => None,
                }
            },
            _ => None,
        }
    }

    /// The string that this is, where it is one.
    pub open spec fn text(self) -> Option<Seq<char>> {
        match self {
            Tree::Text(text) => Some(text),
            _ => None,
        }
    }

    /// The strings of this array, where it is an array that holds nothing
    /// but strings.
    pub open spec fn texts(self) -> Option<Seq<Seq<char>>> {
        match self {
            Tree::Array(items) => if forall|i: int| 0 <= i < items.len() ==> (#[trigger] items[i]) is Text {
                Some(items.map_values(|item: Tree| item->Text_0))
            } else {
                None
            },
            _ => None,
        }
    }

    /// The string lists of this object, one for each entry and in the
    /// entries' order, where it is an object whose values are all arrays of
    /// strings.
    pub open spec fn text_groups(self) -> Option<Seq<Seq<Seq<char>>>> {
        match self {
            Tree::Object(entries) => if forall|i: int|
                0 <= i < entries.len() ==> (#[trigger] entries[i]).1.texts() is Some {
                Some(entries.map_values(|e: (Seq<char>, Tree)| e.1.texts()->0))
            } else {
                None
            },
            _ => None,
        }
    }
}

/// A JSON document held as plain data.
#[derive(Debug, PartialEq, Eq)]
pub enum Json {
    Null,
    Bool(bool),
    /// A number, as its decimal text.
    Number(String),
    Text(String),
    Array(Vec<Json>),
    /// An object: its entries, in the order the document gives them.
    Object(Vec<(String, Json)>),
}

impl Json {
    /// The document that this holds.
    pub open spec fn tree(&self) -> Tree
        decreases self,
    {
        match self {
            Json::Null => Tree::Null,
            Json::Bool(b) => Tree::Bool(*b),
            Json::Number(text) => Tree::Number(text@),
            Json::Text(text) => Tree::Text(text@),
            Json::Array(items) => Tree::Array(
                Seq::new(
                    items.len() as nat,
                    |i: int|
                        if 0 <= i < items.len() {
                            items[i].tree()
                        } else {
                            Tree::Null
                        },
                ),
            ),
            Json::Object(entries) => Tree::Object(
                Seq::new(
                    entries.len() as nat,
                    |i: int|
                        if 0 <= i < entries.len() {
                            (entries[i].0@, entries[i].1.tree())
                        } else {
                            (Seq::empty(), Tree::Null)
                        },
                ),
            ),
        }
    }
}

impl View for Json {
    type V = Tree;

    open spec fn view(&self) -> Tree {
        self.tree()
    }
}

impl Clone for Json {
    /// A copy that holds the same document.
    fn clone(&self) -> (copy: Json)
        ensures
            copy@ == self@,
        decreases self,
    {
        match self {
            Json::Null => Json::Null,
            Json::Bool(b) => Json::Bool(*b),
            Json::Number(text) => Json::Number(text.clone()),
            Json::Text(text) => Json::Text(text.clone()),
            Json::Array(items) => {
                let mut copies: Vec<Json> = Vec::new();
                let mut i: usize = 0;
                while i < items.len()
                    invariant
                        i <= items.len(),
                        copies.len() == i,
                        *self == Json::Array(*items),
                        forall|j: int| 0 <= j < i ==> (#[trigger] copies[j])@ == items[j]@,
                    decreases items.len() - i,
                {
                    proof {
                        assert(decreases_to!(self => self->Array_0));
                        assert(decreases_to!(self->Array_0 => self->Array_0[i as int]));
                    }
                    copies.push(items[i].clone());
                    i += 1;
                }
                let copy = Json::Array(copies);
                assert(copy@->Array_0 =~= self@->Array_0);
                copy
            },
            Json::Object(entries) => {
                let mut copies: Vec<(String, Json)> = Vec::new();
                let mut i: usize = 0;
                while i < entries.len()
                    invariant
                        i <= entries.len(),
                        copies.len() == i,
                        *self == Json::Object(*entries),
                        forall|j: int|
                            0 <= j < i ==> (#[trigger] copies[j]).0@ == entries[j].0@ && copies[j].1@
                                == entries[j].1@,
                    decreases entries.len() - i,
                {
                    proof {
                        assert(decreases_to!(self => self->Object_0));
                        assert(decreases_to!(self->Object_0 => self->Object_0[i as int]));
                        assert(decreases_to!(self->Object_0[i as int] => self->Object_0[i as int].1));
                    }
                    copies.push((entries[i].0.clone(), entries[i].1.clone()));
                    i += 1;
                }
                let copy = Json::Object(copies);
                assert(copy@->Object_0 =~= self@->Object_0);
                copy
            },
        }
    }
}

/// The views of borrowed strings.
pub open spec fn views(texts: Seq<&str>) -> Seq<Seq<char>> {
    texts.map_values(|text: &str| text@)
}

impl Json {
    /// The value under `key`, if this is an object that has the key.
    pub fn get(&self, key: &str) -> (found: Option<&Json>)
        ensures
            match found {
                Some(value) => self@.field(key@) == Some(value@),
                None => self@.field(key@) is None,
            },
    {
        match self {
            Json::Object(entries) => {
                let wanted = key.to_owned();
                let ghost keys = self@->Object_0.map_values(|e: (Seq<char>, Tree)| e.0);
                let mut i: usize = 0;
                while i < entries.len()
                    invariant
                        i <= entries.len(),
                        wanted@ == key@,
                        self@ is Object,
                        self@->Object_0.len() == entries.len(),
                        forall|j: int|
                            0 <= j < entries.len() ==> self@->Object_0[j] == (
                                (#[trigger] entries[j]).0@,
                                entries[j].1@,
                            ),
                        keys == self@->Object_0.map_values(|e: (Seq<char>, Tree)| e.0),
                        forall|j: int| 0 <= j < i ==> #[trigger] keys[j] != key@,
                    decreases entries.len() - i,
                {
                    if entries[i].0 == wanted {
                        proof {
                            assert(keys[i as int] == key@);
                            keys.index_of_first_ensures(key@);
                        }
                        return Some(&entries[i].1);
                    }
                    i += 1;
                }
                proof {
                    keys.index_of_first_ensures(key@);
                }
                None
            },
            _ => None,
        }
    }

    /// The string that this is, if it is one.
    pub fn as_text(&self) -> (found: Option<&str>)
        ensures
            match found {
                Some(text) => self@.text() == Some(text@),
                None => self@.text() is None,
            },
    {
        match self {
            Json::Text(text) => Some(text.as_str()),
            _ => None,
        }
    }

    /// The strings of this array, if it is an array that holds nothing but
    /// strings.
    pub fn as_texts(&self) -> (found: Option<Vec<&str>>)
        ensures
            match found {
                Some(texts) => self@.texts() == Some(views(texts@)),
                None => self@.texts() is None,
            },
    {
        match self {
            Json::Array(items) => {
                let mut texts: Vec<&str> = Vec::new();
                let mut i: usize = 0;
                while i < items.len()
                    invariant
                        i <= items.len(),
                        texts.len() == i,
                        self@ is Array,
                        self@->Array_0.len() == items.len(),
                        forall|j: int| 0 <= j < items.len() ==> self@->Array_0[j] == (#[trigger] items[j])@,
                        forall|j: int| 0 <= j < i ==> (#[trigger] items[j])@ == Tree::Text(texts[j]@),
                    decreases items.len() - i,
                {
                    match &items[i] {
                        Json::Text(text) => texts.push(text.as_str()),
                        _ => {
                            assert(!(self@->Array_0[i as int] is Text));
                            return None;
                        },
                    }
                    i += 1;
                }
                assert(self@->Array_0.map_values(|item: Tree| item->Text_0) =~= views(texts@));
                Some(texts)
            },
            _ => None,
        }
    }
}

} // verus!
