//! The uniforms of a linked program: from their names to their locations.
//!
//! The driver gives each active uniform of a linked program a location, which
//! is asked for by name. A [`UniformBinding`] keeps the answers, so that each
//! name is asked for once. It is made from a [`CompiledProgram`], which exists
//! only once the link has succeeded: no location is kept for a program that
//! did not link.

use crate::shader::CompiledProgram;
use vstd::prelude::*;
use vstd::string::StringExecFns;

verus! {

/// The mathematical value of a [`UniformLocation`].
pub struct LocationView {
    /// The handle of the program that the uniform belongs to.
    pub program: u32,
    /// The index that the driver gave the uniform. It is not negative.
    pub index: i32,
}

/// The location of an active uniform of a linked program.
///
/// A value of this type comes only from a [`UniformBinding`].
#[derive(Clone, Copy, Debug)]
pub struct UniformLocation {
    program: u32,
    index: i32,
}

impl View for UniformLocation {
    type V = LocationView;

    closed spec fn view(&self) -> LocationView {
        LocationView { program: self.program, index: self.index }
    }
}

impl UniformLocation {
    #[verifier::type_invariant]
    spec fn valid(self) -> bool {
        self.index >= 0
    }

    /// The handle of the program that the uniform belongs to.
    pub fn program(&self) -> (program: u32)
        ensures
            program == self@.program,
    {
        self.program
    }

    /// The index that the driver gave the uniform.
    pub fn index(&self) -> (index: i32)
        ensures
            index == self@.index,
            index >= 0,
    {
        proof {
            use_type_invariant(self);
        }
        self.index
    }
}

/// Why a location is not kept.
#[derive(Clone, Copy, Debug, PartialEq, Eq, Structural)]
pub enum UniformError {
    /// The driver knows no active uniform of that name: its answer was
    /// negative.
    Inactive,
    /// A location is already kept for that name.
    AlreadyResolved,
}

/// The mathematical value of a [`UniformBinding`].
pub struct BindingView {
    /// The handle of the program.
    pub program: u32,
    /// The index that is kept for each name.
    pub table: Map<Seq<char>, i32>,
}

/// The table that holds, for each name of a list, the index at the same
/// place of another list.
pub open spec fn table_of(names: Seq<Seq<char>>, indices: Seq<i32>) -> Map<Seq<char>, i32>
    decreases names.len(),
{
    if names.len() == 0 {
        Map::empty()
    } else {
        table_of(names.drop_last(), indices.drop_last()).insert(names.last(), indices.last())
    }
}

/// One kept answer: a name and the index that the driver gave it.
#[derive(Debug)]
struct Entry {
    name: String,
    index: i32,
}

/// The names of a list of entries.
spec fn names_of(entries: Seq<Entry>) -> Seq<Seq<char>> {
    Seq::new(entries.len(), |i: int| entries[i].name@)
}

/// The indices of a list of entries.
spec fn indices_of(entries: Seq<Entry>) -> Seq<i32> {
    Seq::new(entries.len(), |i: int| entries[i].index)
}

/// The names of a table made of two lists are the names of the first list.
pub proof fn lemma_table_names(names: Seq<Seq<char>>, indices: Seq<i32>, name: Seq<char>)
    requires
        names.len() == indices.len(),
    ensures
        table_of(names, indices).dom().contains(name) <==> names.contains(name),
    decreases names.len(),
{
    if names.len() > 0 {
        lemma_table_names(names.drop_last(), indices.drop_last(), name);
        if names.contains(name) {
            let i = choose|i: int| 0 <= i < names.len() && names[i] == name;
            if i < names.len() - 1 {
                assert(names.drop_last()[i] == name);
            }
        }
        if names.drop_last().contains(name) {
            let i = choose|i: int| 0 <= i < names.drop_last().len() && names.drop_last()[i] == name;
            assert(names[i] == name);
        }
    }
}

/// Where no name occurs twice, a table made of two lists holds for each name
/// the index at its place.
pub proof fn lemma_table_index(names: Seq<Seq<char>>, indices: Seq<i32>, i: int)
    requires
        names.len() == indices.len(),
        names.no_duplicates(),
        0 <= i < names.len(),
    ensures
        table_of(names, indices).dom().contains(names[i]),
        table_of(names, indices)[names[i]] == indices[i],
    decreases names.len(),
{
    if i < names.len() - 1 {
        lemma_table_index(names.drop_last(), indices.drop_last(), i);
        assert(names.drop_last()[i] == names[i]);
        assert(names[i] != names.last());
    }
}

/// The locations of the uniforms of one linked program, by name.
#[derive(Debug)]
pub struct UniformBinding {
    program: u32,
    entries: Vec<Entry>,
}

impl View for UniformBinding {
    type V = BindingView;

    closed spec fn view(&self) -> BindingView {
        BindingView {
            program: self.program,
            table: table_of(names_of(self.entries@), indices_of(self.entries@)),
        }
    }
}

/// Whether a table holds locations only: no index in it is negative.
pub open spec fn table_ok(table: Map<Seq<char>, i32>) -> bool {
    forall|name: Seq<char>| table.dom().contains(name) ==> #[trigger] table[name] >= 0
}

impl UniformBinding {
    #[verifier::type_invariant]
    spec fn valid(self) -> bool {
        &&& names_of(self.entries@).no_duplicates()
        &&& forall|i: int| 0 <= i < self.entries@.len() ==> (#[trigger] self.entries@[i]).index >= 0
    }

    /// The binding of a linked program, with no location kept yet.
    pub fn new(program: &CompiledProgram) -> (binding: UniformBinding)
        ensures
            binding@ == (BindingView { program: program@, table: Map::empty() }),
    {
        let binding = UniformBinding { program: program.id(), entries: Vec::new() };
        assert(names_of(binding.entries@) =~= Seq::<Seq<char>>::empty());
        binding
    }

    /// The handle of the program.
    pub fn program(&self) -> (program: u32)
        ensures
            program == self@.program,
    {
        self.program
    }

    /// The place at which a name is kept, if it is.
    fn position(&self, name: &String) -> (found: Option<usize>)
        ensures
            match found {
                Some(i) => i < self.entries@.len() && names_of(self.entries@)[i as int] == name@,
                None => !names_of(self.entries@).contains(name@),
            },
    {
        let mut i: usize = 0;
        while i < self.entries.len()
            invariant
                i <= self.entries@.len(),
                forall|j: int| 0 <= j < i ==> names_of(self.entries@)[j] != name@,
            decreases self.entries@.len() - i,
        {
            if self.entries[i].name == *name {
                return Some(i);
            }
            i = i + 1;
        }
        None
    }

    /// Keeps the driver's answer for a name: the index of the uniform of that
    /// name in the program. A negative answer is not kept, and neither is a
    /// second answer for one name.
    pub fn resolve(&mut self, name: String, index: i32) -> (kept: Result<(), UniformError>)
        ensures
            table_ok(old(self)@.table),
            table_ok(final(self)@.table),
            final(self)@.program == old(self)@.program,
            match kept {
                Ok(()) => index >= 0 && !old(self)@.table.dom().contains(name@)
                    && final(self)@.table == old(self)@.table.insert(name@, index),
                Err(UniformError::Inactive) => index < 0 && final(self)@ == old(self)@,
                Err(UniformError::AlreadyResolved) => index >= 0 && old(self)@.table.dom().contains(
                    name@,
                ) && final(self)@ == old(self)@,
            },
    {
        let ghost names = names_of(self.entries@);
        let ghost indices = indices_of(self.entries@);
        proof {
            use_type_invariant(&*self);
            self.lemma_table_ok();
            lemma_table_names(names, indices, name@);
        }
        if index < 0 {
            return Err(UniformError::Inactive);
        }
        match self.position(&name) {
            Some(i) => {
                assert(names[i as int] == name@);
                return Err(UniformError::AlreadyResolved);
            },
            None => {},
        }
        let ghost text = name@;
        let mut entries: Vec<Entry> = Vec::new();
        proof {
            assert(names_of(entries@) =~= Seq::<Seq<char>>::empty());
        }
        std::mem::swap(&mut entries, &mut self.entries);
        entries.push(Entry { name, index });
        proof {
            assert(names_of(entries@) =~= names.push(text));
            assert(names_of(entries@).drop_last() =~= names);
            assert(indices_of(entries@).drop_last() =~= indices);
        }
        self.entries = entries;
        proof {
            self.lemma_table_ok();
        }
        Ok(())
    }

    /// The location that is kept for a name, if one is.
    pub fn location(&self, name: &str) -> (found: Option<UniformLocation>)
        ensures
            table_ok(self@.table),
            match found {
                Some(location) => self@.table.dom().contains(name@) && location@ == (LocationView {
                    program: self@.program,
                    index: self@.table[name@],
                }),
                None => !self@.table.dom().contains(name@),
            },
    {
        let ghost names = names_of(self.entries@);
        let ghost indices = indices_of(self.entries@);
        proof {
            use_type_invariant(self);
            self.lemma_table_ok();
            lemma_table_names(names, indices, name@);
        }
        let key = String::from_str(name);
        match self.position(&key) {
            Some(i) => {
                proof {
                    lemma_table_index(names, indices, i as int);
                }
                Some(UniformLocation { program: self.program, index: self.entries[i].index })
            },
            None => None,
        }
    }

    /// No index that a binding keeps is negative.
    proof fn lemma_table_ok(&self)
        requires
            self.valid(),
        ensures
            table_ok(self@.table),
    {
        let names = names_of(self.entries@);
        let indices = indices_of(self.entries@);
        assert forall|name: Seq<char>| self@.table.dom().contains(name) implies #[trigger] self@.table[name]
            >= 0 by {
            lemma_table_names(names, indices, name);
            let i = choose|i: int| 0 <= i < names.len() && names[i] == name;
            lemma_table_index(names, indices, i);
        }
    }
}

} // verus!
