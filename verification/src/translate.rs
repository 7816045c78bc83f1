//! Applying an environment record to a build configuration.

use vstd::prelude::*;
use vstd::seq_lib::lemma_flatten_concat;
use crate::config::{
    add_define, add_flag, add_flag_if_supported, add_include, set_compiler, settings, Flag, Settings,
};
use crate::define::{define_of, split_define};
use crate::error::{Field, TranslateError};
use crate::json::{views, Json, Tree};

verus! {

/// The language whose compiler and flags are taken from the record.
#[derive(Debug, Clone, Copy, PartialEq, Eq)]
pub enum Language {
    C,
    Cpp,
}

impl Language {
    /// The language that the flag for C++ selects.
    pub fn from_cpp(cpp: bool) -> (language: Language)
        ensures
            language == (if cpp { Language::Cpp } else { Language::C }),
    {
        if cpp {
            Language::Cpp
        } else {
            Language::C
        }
    }

    /// The other language.
    pub open spec fn other(self) -> Language {
        match self {
            Language::C => Language::Cpp,
            Language::Cpp => Language::C,
        }
    }

    /// Whether the translation for this language reads the field.
    pub open spec fn reads(self, field: Field) -> bool {
        field != self.other().flags_field() && field != self.other().path_field()
    }

    /// The field that holds the language's compiler flags.
    pub open spec fn flags_field(self) -> Field {
        match self {
            Language::C => Field::CcFlags,
            Language::Cpp => Field::CxxFlags,
        }
    }

    /// The field that holds the path of the language's compiler.
    pub open spec fn path_field(self) -> Field {
        match self {
            Language::C => Field::CcPath,
            Language::Cpp => Field::CxxPath,
        }
    }
}

/// The flag that adds a directory to the library search path.
pub open spec fn library_flag(directory: Seq<char>) -> Seq<char> {
    "-L"@ + directory
}

/// The flags that put directories on the library search path: one for
/// each directory, and each for the compiler to take or to decline.
pub open spec fn library_flags(directories: Seq<Seq<char>>) -> Seq<Flag> {
    directories.map_values(|directory: Seq<char>| Flag::IfSupported(library_flag(directory)))
}

/// The flags that hand strings to the compiler as they stand.
pub open spec fn plain_flags(flags: Seq<Seq<char>>) -> Seq<Flag> {
    flags.map_values(|flag: Seq<char>| Flag::Always(flag))
}

/// The definitions that definition strings stand for.
pub open spec fn definitions(defines: Seq<Seq<char>>) -> Seq<(Seq<char>, Option<Seq<char>>)> {
    defines.map_values(|text: Seq<char>| define_of(text))
}

/// The strings under a field of the record, where the record has the field
/// and it is an array of strings.
pub open spec fn field_texts(record: Tree, field: Field) -> Option<Seq<Seq<char>>> {
    match record.field(field.key()) {
        Some(value) => value.texts(),
        None => None,
    }
}

/// The string under a field of the record, where the record has the field
/// and it is a string.
pub open spec fn field_text(record: Tree, field: Field) -> Option<Seq<char>> {
    match record.field(field.key()) {
        Some(value) => value.text(),
        None => None,
    }
}

/// The include groups of the record, in the record's order, where it has
/// the field and it is an object whose values are all arrays of strings.
pub open spec fn include_groups(record: Tree) -> Option<Seq<Seq<Seq<char>>>> {
    match record.field(Field::Includes.key()) {
        Some(value) => value.text_groups(),
        None => None,
    }
}

/// What translating a record does to the settings, and how it ends.
///
/// The fields are taken in a fixed order: library directories,
/// definitions, include groups, then the flags and the compiler of the
/// language. A field that is missing or has the wrong shape ends the
/// translation with its name and adds nothing; what the fields before it
/// added stays.
pub open spec fn translation(record: Tree, language: Language, before: Settings) -> (
    Settings,
    Result<(), TranslateError>,
) {
    match field_texts(record, Field::LibsourceDirs) {
        None => (before, Err(TranslateError::SchemaMismatch { field: Field::LibsourceDirs })),
        Some(directories) => {
            let s1 = before.with_flags(library_flags(directories));
            match field_texts(record, Field::Defines) {
                None => (s1, Err(TranslateError::SchemaMismatch { field: Field::Defines })),
                Some(defines) => {
                    let s2 = s1.with_definitions(definitions(defines));
                    match include_groups(record) {
                        None => (s2, Err(TranslateError::SchemaMismatch { field: Field::Includes })),
                        Some(groups) => {
                            let s3 = s2.with_include_directories(groups.flatten());
                            match field_texts(record, language.flags_field()) {
                                None => (
                                    s3,
                                    Err(TranslateError::SchemaMismatch { field: language.flags_field() }),
                                ),
                                Some(flags) => {
                                    let s4 = s3.with_flags(plain_flags(flags));
                                    match field_text(record, language.path_field()) {
                                        None => (
                                            s4,
                                            Err(
                                                TranslateError::SchemaMismatch {
                                                    field: language.path_field(),
                                                },
                                            ),
                                        ),
                                        Some(path) => (s4.with_compiler(path), Ok(())),
                                    }
                                },
                            }
                        },
                    }
                },
            }
        },
    }
}

/// The strings under a field of the record.
fn texts_under<'a>(record: &'a Json, field: Field) -> (found: Option<Vec<&'a str>>)
    ensures
        match found {
            Some(texts) => field_texts(record@, field) == Some(views(texts@)),
            None => field_texts(record@, field) is None,
        },
{
    match record.get(field.name()) {
        Some(value) => value.as_texts(),
        None => None,
    }
}

/// The string under a field of the record.
fn text_under<'a>(record: &'a Json, field: Field) -> (found: Option<&'a str>)
    ensures
        match found {
            Some(text) => field_text(record@, field) == Some(text@),
            None => field_text(record@, field) is None,
        },
{
    match record.get(field.name()) {
        Some(value) => value.as_text(),
        None => None,
    }
}

/// The include directories of the record: the paths of its include groups,
/// group after group.
fn include_paths_under<'a>(record: &'a Json) -> (found: Option<Vec<&'a str>>)
    ensures
        match found {
            Some(paths) => include_groups(record@) matches Some(groups) && views(paths@)
                == groups.flatten(),
            None => include_groups(record@) is None,
        },
{
    let value = match record.get(Field::Includes.name()) {
        Some(value) => value,
        None => { return None; },
    };
    match value {
        Json::Object(entries) => {
            let ghost all = value@->Object_0;
            let ghost groups = all.map_values(|e: (Seq<char>, Tree)| e.1.texts()->0);
            let mut paths: Vec<&'a str> = Vec::new();
            let mut i: usize = 0;
            assert(groups.take(0).flatten() =~= views(paths@));
            while i < entries.len()
                invariant
                    i <= entries.len(),
                    record@.field(Field::Includes.key()) == Some(value@),
                    value@ is Object,
                    all == value@->Object_0,
                    all.len() == entries.len(),
                    forall|j: int| 0 <= j < entries.len() ==> all[j].1 == (#[trigger] entries[j]).1@,
                    groups == all.map_values(|e: (Seq<char>, Tree)| e.1.texts()->0),
                    forall|j: int| 0 <= j < i ==> (#[trigger] all[j]).1.texts() is Some,
                    views(paths@) == groups.take(i as int).flatten(),
                decreases entries.len() - i,
            {
                match entries[i].1.as_texts() {
                    Some(mut texts) => {
                        proof {
                            assert(groups.take(i + 1) =~= groups.take(i as int).push(views(texts@)));
                            groups.take(i as int).lemma_flatten_push(views(texts@));
                            assert(views(paths@ + texts@) =~= views(paths@) + views(texts@));
                        }
                        paths.append(&mut texts);
                    },
                    None => {
                        assert(all[i as int].1.texts() is None);
                        return None;
                    },
                }
                i += 1;
            }
            assert(groups.take(i as int) =~= groups);
            Some(paths)
        },
        _ => None,
    }
}

/// Adds each directory to the library search path, as a flag that the
/// compiler may decline.
fn add_library_directories(build: &mut cc::Build, directories: &Vec<&str>)
    ensures
        settings(*final(build)) == settings(*old(build)).with_flags(library_flags(views(directories@))),
{
    let ghost before = settings(*build);
    let ghost all = library_flags(views(directories@));
    let mut i: usize = 0;
    assert(settings(*build) =~= before.with_flags(all.take(0)));
    while i < directories.len()
        invariant
            i <= directories.len(),
            all == library_flags(views(directories@)),
            settings(*build) == before.with_flags(all.take(i as int)),
        decreases directories.len() - i,
    {
        let mut flag = String::from_str("-L");
        flag.append(directories[i]);
        add_flag_if_supported(build, flag.as_str());
        proof {
            assert(all.take(i + 1) =~= all.take(i as int).push(all[i as int]));
            assert(settings(*build) =~= before.with_flags(all.take(i + 1)));
        }
        i += 1;
    }
    assert(all.take(i as int) =~= all);
}

/// Adds each definition string as a definition.
fn add_defines(build: &mut cc::Build, defines: &Vec<&str>)
    ensures
        settings(*final(build)) == settings(*old(build)).with_definitions(definitions(views(defines@))),
{
    let ghost before = settings(*build);
    let ghost all = definitions(views(defines@));
    let mut i: usize = 0;
    assert(settings(*build) =~= before.with_definitions(all.take(0)));
    while i < defines.len()
        invariant
            i <= defines.len(),
            all == definitions(views(defines@)),
            settings(*build) == before.with_definitions(all.take(i as int)),
        decreases defines.len() - i,
    {
        let define = split_define(defines[i]);
        match &define.value {
            Some(value) => add_define(build, define.name.as_str(), Some(value.as_str())),
            None => add_define(build, define.name.as_str(), None),
        }
        proof {
            assert(all.take(i + 1) =~= all.take(i as int).push(all[i as int]));
            assert(settings(*build) =~= before.with_definitions(all.take(i + 1)));
        }
        i += 1;
    }
    assert(all.take(i as int) =~= all);
}

/// Adds each directory as an include directory.
fn add_include_directories(build: &mut cc::Build, directories: &Vec<&str>)
    ensures
        settings(*final(build)) == settings(*old(build)).with_include_directories(views(directories@)),
{
    let ghost before = settings(*build);
    let ghost all = views(directories@);
    let mut i: usize = 0;
    assert(settings(*build) =~= before.with_include_directories(all.take(0)));
    while i < directories.len()
        invariant
            i <= directories.len(),
            all == views(directories@),
            settings(*build) == before.with_include_directories(all.take(i as int)),
        decreases directories.len() - i,
    {
        add_include(build, directories[i]);
        proof {
            assert(all.take(i + 1) =~= all.take(i as int).push(all[i as int]));
            assert(settings(*build) =~= before.with_include_directories(all.take(i + 1)));
        }
        i += 1;
    }
    assert(all.take(i as int) =~= all);
}

/// Adds each flag as it stands.
fn add_flags(build: &mut cc::Build, flags: &Vec<&str>)
    ensures
        settings(*final(build)) == settings(*old(build)).with_flags(plain_flags(views(flags@))),
{
    let ghost before = settings(*build);
    let ghost all = plain_flags(views(flags@));
    let mut i: usize = 0;
    assert(settings(*build) =~= before.with_flags(all.take(0)));
    while i < flags.len()
        invariant
            i <= flags.len(),
            all == plain_flags(views(flags@)),
            settings(*build) == before.with_flags(all.take(i as int)),
        decreases flags.len() - i,
    {
        add_flag(build, flags[i]);
        proof {
            assert(all.take(i + 1) =~= all.take(i as int).push(all[i as int]));
            assert(settings(*build) =~= before.with_flags(all.take(i + 1)));
        }
        i += 1;
    }
    assert(all.take(i as int) =~= all);
}

/// Applies an environment record to a build configuration, taking the
/// flags and the compiler of the given language.
pub fn translate(record: &Json, language: Language, build: &mut cc::Build) -> (result: Result<
    (),
    TranslateError,
>)
    ensures
        (settings(*final(build)), result) == translation(record@, language, settings(*old(build))),
{
    let (flags_field, path_field) = match language {
        Language::C => (Field::CcFlags, Field::CcPath),
        Language::Cpp => (Field::CxxFlags, Field::CxxPath),
    };
    let directories = match texts_under(record, Field::LibsourceDirs) {
        Some(directories) => directories,
        None => { return Err(TranslateError::SchemaMismatch { field: Field::LibsourceDirs }); },
    };
    add_library_directories(build, &directories);
    let defines = match texts_under(record, Field::Defines) {
        Some(defines) => defines,
        None => { return Err(TranslateError::SchemaMismatch { field: Field::Defines }); },
    };
    add_defines(build, &defines);
    let paths = match include_paths_under(record) {
        Some(paths) => paths,
        None => { return Err(TranslateError::SchemaMismatch { field: Field::Includes }); },
    };
    add_include_directories(build, &paths);
    let flags = match texts_under(record, flags_field) {
        Some(flags) => flags,
        None => { return Err(TranslateError::SchemaMismatch { field: flags_field }); },
    };
    add_flags(build, &flags);
    let path = match text_under(record, path_field) {
        Some(path) => path,
        None => { return Err(TranslateError::SchemaMismatch { field: path_field }); },
    };
    set_compiler(build, path);
    assert(settings(*build) =~= translation(record@, language, settings(*old(build))).0);
    Ok(())
}

/// A translation succeeds exactly on the records that hold every field
/// the language reads in its right shape, and then it has applied them
/// all; on any other record it fails. No translation succeeds in part.
pub proof fn lemma_translation_is_whole(record: Tree, language: Language, before: Settings)
    ensures
        translation(record, language, before).1 is Ok <==> {
            &&& field_texts(record, Field::LibsourceDirs) is Some
            &&& field_texts(record, Field::Defines) is Some
            &&& include_groups(record) is Some
            &&& field_texts(record, language.flags_field()) is Some
            &&& field_text(record, language.path_field()) is Some
        },
        translation(record, language, before).1 is Ok ==> translation(record, language, before).0
            == before
                .with_flags(library_flags(field_texts(record, Field::LibsourceDirs)->0))
                .with_definitions(definitions(field_texts(record, Field::Defines)->0))
                .with_include_directories(include_groups(record)->0.flatten())
                .with_flags(plain_flags(field_texts(record, language.flags_field())->0))
                .with_compiler(field_text(record, language.path_field())->0),
{
}

/// Where the paths of an include group begin among the paths of all the
/// groups laid end to end.
pub open spec fn group_start(groups: Seq<Seq<Seq<char>>>, group: int) -> int {
    groups.take(group).flatten().len() as int
}

/// Every path of every include group stands among the paths laid end to
/// end, at its own place in its group's stretch; and the stretch of each
/// group begins where that of the group before it ends. So the paths keep
/// their order within a group, and the groups keep theirs.
pub proof fn lemma_include_paths_keep_their_order(groups: Seq<Seq<Seq<char>>>, group: int, path: int)
    requires
        0 <= group < groups.len(),
        0 <= path < groups[group].len(),
    ensures
        group_start(groups, 0) == 0,
        group_start(groups, group + 1) == group_start(groups, group) + groups[group].len(),
        group_start(groups, group + 1) <= groups.flatten().len(),
        groups.flatten()[group_start(groups, group) + path] == groups[group][path],
{
    let head = groups.take(group);
    let through = groups.take(group + 1);
    let rest = groups.skip(group + 1);
    assert(through =~= head.push(groups[group]));
    head.lemma_flatten_push(groups[group]);
    assert(groups =~= through + rest);
    lemma_flatten_concat(through, rest);
    assert(groups.take(0) =~= Seq::<Seq<Seq<char>>>::empty());
}

/// Where a translation succeeds, the include directories it leaves are
/// those from before, followed by every path of every include group of the
/// record: group after group as the record orders them, and within a
/// group path after path.
pub proof fn lemma_translation_registers_every_include(
    record: Tree,
    language: Language,
    before: Settings,
    group: int,
    path: int,
)
    requires
        translation(record, language, before).1 is Ok,
        include_groups(record) is Some,
        0 <= group < include_groups(record)->0.len(),
        0 <= path < include_groups(record)->0[group].len(),
    ensures
        ({
            let groups = include_groups(record)->0;
            let after = translation(record, language, before).0.include_directories;
            let at = before.include_directories.len() + group_start(groups, group) + path;
            &&& after.len() == before.include_directories.len() + groups.flatten().len()
            &&& after.take(before.include_directories.len() as int) == before.include_directories
            &&& 0 <= at < after.len()
            &&& after[at] == groups[group][path]
        }),
{
    let groups = include_groups(record)->0;
    lemma_include_paths_keep_their_order(groups, group, path);
    let after = translation(record, language, before).0.include_directories;
    assert(after =~= before.include_directories + groups.flatten());
    assert(after.take(before.include_directories.len() as int) =~= before.include_directories);
}

/// The keys of the fields differ from one another.
proof fn lemma_keys_differ()
    ensures
        forall|a: Field, b: Field| a != b ==> #[trigger] a.key() != #[trigger] b.key(),
{
    reveal_strlit("libsource_dirs");
    reveal_strlit("defines");
    reveal_strlit("includes");
    reveal_strlit("cc_flags");
    reveal_strlit("cxx_flags");
    reveal_strlit("cc_path");
    reveal_strlit("cxx_path");
    assert forall|a: Field, b: Field| a != b implies #[trigger] a.key() != #[trigger] b.key() by {
        if a.key().len() == b.key().len() {
            assert(a.key()[1] != b.key()[1] || a.key()[3] != b.key()[3]);
        }
    }
}

/// A translation depends on five fields of the record and on nothing
/// else in it: two records that hold the same under each field that the
/// language reads are translated alike.
pub proof fn lemma_translation_reads_its_fields_only(
    first: Tree,
    second: Tree,
    language: Language,
    before: Settings,
)
    requires
        forall|field: Field| #[trigger]
            language.reads(field) ==> first.field(field.key()) == second.field(field.key()),
    ensures
        translation(first, language, before) == translation(second, language, before),
{
    assert(language.reads(Field::LibsourceDirs));
    assert(language.reads(Field::Defines));
    assert(language.reads(Field::Includes));
    assert(language.reads(language.flags_field()));
    assert(language.reads(language.path_field()));
}

/// A translation reads nothing of the other language: two records that
/// differ only in the flags and the compiler path of the other language
/// are translated alike.
pub proof fn lemma_other_language_is_ignored(
    first: Tree,
    second: Tree,
    language: Language,
    before: Settings,
)
    requires
        forall|key: Seq<char>|
            key != language.other().flags_field().key() && key != language.other().path_field().key()
                ==> first.field(key) == second.field(key),
    ensures
        translation(first, language, before) == translation(second, language, before),
{
    lemma_keys_differ();
    assert forall|field: Field| #[trigger] language.reads(field) implies first.field(field.key())
        == second.field(field.key()) by {
        assert(field.key() != language.other().flags_field().key());
        assert(field.key() != language.other().path_field().key());
    }
    lemma_translation_reads_its_fields_only(first, second, language, before);
}

/// What a translation has added is not taken back when a later field
/// fails: a record with well-formed library directories and without
/// definitions leaves the library flags in place and reports the
/// definitions.
pub proof fn lemma_missing_defines_keeps_library_flags(record: Tree, language: Language, before: Settings)
    requires
        field_texts(record, Field::LibsourceDirs) is Some,
        record.field(Field::Defines.key()) is None,
    ensures
        translation(record, language, before) == (
            before.with_flags(library_flags(field_texts(record, Field::LibsourceDirs)->0)),
            Err::<(), TranslateError>(TranslateError::SchemaMismatch { field: Field::Defines }),
        ),
{
}

} // verus!
