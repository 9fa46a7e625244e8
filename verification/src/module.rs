use vstd::prelude::*;

verus! {

/// Why a module could not be set up.
#[derive(Clone, Debug, PartialEq, Eq)]
pub enum ContextError {
    /// A function was registered under a name that is taken.
    ConflictingFunctionName { name: String },
}

/// A module as plain mathematical data.
pub struct ModuleView {
    /// The name of the crate that the module stands for.
    pub item: Seq<char>,
    /// The names of its asynchronous functions, in the order in which they
    /// were registered.
    pub async_functions: Seq<Seq<char>>,
}

/// A module of native functions that scripts can call: the crate that it
/// stands for and the names that it offers. What runs behind a name is the
/// host's.
#[derive(Clone, Debug, PartialEq, Eq)]
pub struct Module {
    item: String,
    async_functions: Vec<String>,
}

impl View for Module {
    type V = ModuleView;

    closed spec fn view(&self) -> ModuleView {
        ModuleView {
            item: self.item@,
            async_functions: self.async_functions@.map_values(|name: String| name@),
        }
    }
}

impl Module {
    /// A module without functions that stands for the crate `name`.
    pub fn with_crate(name: &str) -> (module: Self)
        ensures
            module@ == (ModuleView { item: name@, async_functions: Seq::empty() }),
    {
        let module = Module { item: name.to_owned(), async_functions: Vec::new() };
        assert(module@.async_functions =~= Seq::empty());
        module
    }

    /// The name of the crate that the module stands for.
    pub fn item(&self) -> (item: &str)
        ensures
            item@ == self@.item,
    {
        self.item.as_str()
    }

    /// Whether the module offers an asynchronous function under `name`.
    pub fn has_async_function(&self, name: &str) -> (found: bool)
        ensures
            found == self@.async_functions.contains(name@),
    {
        let wanted = name.to_owned();
        let mut i: usize = 0;
        while i < self.async_functions.len()
            invariant
                i <= self.async_functions.len(),
                wanted@ == name@,
                forall|j: int| 0 <= j < i ==> self@.async_functions[j] != name@,
            decreases self.async_functions.len() - i,
        {
            if self.async_functions[i] == wanted {
                assert(self@.async_functions[i as int] == name@);
                return true;
            }
            i = i + 1;
        }
        false
    }

    /// Registers an asynchronous function under `name`. A name that is taken
    /// is an error, and the module stays as it was.
    pub fn async_function(&mut self, name: &str) -> (result: Result<(), ContextError>)
        ensures
            old(self)@.async_functions.contains(name@) ==> {
                &&& final(self)@ == old(self)@
                &&& result is Err
                &&& result->Err_0->name@ == name@
            },
            !old(self)@.async_functions.contains(name@) ==> {
                &&& result is Ok
                &&& final(self)@ == (ModuleView {
                    async_functions: old(self)@.async_functions.push(name@),
                    ..old(self)@
                })
            },
    {
        if self.has_async_function(name) {
            return Err(ContextError::ConflictingFunctionName { name: name.to_owned() });
        }
        self.async_functions.push(name.to_owned());
        assert(self@.async_functions =~= old(self)@.async_functions.push(name@));
        Ok(())
    }
}

/// The module `fs`, which offers scripts the asynchronous function
/// `read_to_string`.
pub fn module(_stdio: bool) -> (result: Result<Module, ContextError>)
    ensures
        result is Ok,
        result->Ok_0@ == (ModuleView {
            item: "fs"@,
            async_functions: seq!["read_to_string"@],
        }),
{
    let mut module = Module::with_crate("fs");
    match module.async_function("read_to_string") {
        Ok(_) => {
            assert(module@.async_functions =~= seq!["read_to_string"@]);
            Ok(module)
        },
        Err(error) => Err(error),
    }
}

} // verus!
