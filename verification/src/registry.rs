//! The table of compiled scripts: from a script to its bytecode, and from bytecode back to
//! the script and its display name.

use vstd::prelude::*;
use vstd::string::StringExecFns;

use crate::bytes::bytes_equal;
use crate::stdlib_script::{
    lemma_from_index_of_index, lemma_index_injective, StdlibScript, SCRIPT_COUNT,
};

verus! {

/// The byte sequences that a list of blobs holds, in order.
pub open spec fn table_of(blobs: Seq<Vec<u8>>) -> Seq<Seq<u8>> {
    blobs.map_values(|blob: Vec<u8>| blob@)
}

/// Whether some entry of the table is empty.
pub open spec fn has_empty_entry(table: Seq<Seq<u8>>) -> bool {
    exists|i: int| 0 <= i < table.len() && (#[trigger] table[i]).len() == 0
}

/// Whether two entries of the table are equal.
pub open spec fn has_equal_entries(table: Seq<Seq<u8>>) -> bool {
    exists|i: int, j: int| 0 <= i < j < table.len() && #[trigger] table[i] == #[trigger] table[j]
}

/// A table that can serve as a registry: one bytecode for each script, none of them empty,
/// no two of them equal.
pub open spec fn valid_table(table: Seq<Seq<u8>>) -> bool {
    &&& table.len() == SCRIPT_COUNT
    &&& !has_empty_entry(table)
    &&& !has_equal_entries(table)
}

/// Why a list of blobs was not accepted as a registry.
#[derive(Clone, Copy, Debug, PartialEq, Eq, Structural, Hash)]
pub enum RegistryError {
    /// The list does not hold exactly one blob for each script.
    WrongCount,
    /// A script has no bytecode.
    EmptyBytecode,
    /// Two scripts have the same bytecode.
    DuplicateBytecode,
}

/// The compiled bytecode of every script, fixed when the registry is made.
#[derive(Debug, PartialEq, Eq)]
pub struct ScriptRegistry {
    blobs: Vec<Vec<u8>>,
}

impl View for ScriptRegistry {
    type V = Seq<Seq<u8>>;

    closed spec fn view(&self) -> Seq<Seq<u8>> {
        table_of(self.blobs@)
    }
}

/// Whether the blob at `index` differs from every blob before it.
fn differs_from_earlier(blobs: &Vec<Vec<u8>>, index: usize) -> (fresh: bool)
    requires
        index < blobs@.len(),
    ensures
        fresh == forall|i: int|
            0 <= i < index ==> #[trigger] table_of(blobs@)[i] != table_of(blobs@)[index as int],
{
    let mut i: usize = 0;
    while i < index
        invariant
            i <= index < blobs@.len(),
            forall|k: int|
                0 <= k < i ==> #[trigger] table_of(blobs@)[k] != table_of(blobs@)[index as int],
        decreases index - i,
    {
        if bytes_equal(blobs[i].as_slice(), blobs[index].as_slice()) {
            assert(table_of(blobs@)[i as int] == table_of(blobs@)[index as int]);
            return false;
        }
        i += 1;
    }
    true
}

impl ScriptRegistry {
    /// Every registry holds a valid table: `new` makes no other.
    #[verifier::type_invariant]
    spec fn sound(&self) -> bool {
        valid_table(table_of(self.blobs@))
    }

    /// The registry is sound: its table is a valid one. This holds of every registry that
    /// the program holds; proofs that speak of a registry ask for it.
    pub open spec fn wf(&self) -> bool {
        valid_table(self@)
    }

    /// The bytecode registered for `script`.
    pub open spec fn bytecode(&self, script: StdlibScript) -> Seq<u8> {
        self@[script.spec_index() as int]
    }

    /// The script whose bytecode is `code`, where there is one. In a sound registry there is
    /// at most one.
    pub open spec fn lookup(&self, code: Seq<u8>) -> Option<StdlibScript> {
        if exists|script: StdlibScript| #[trigger] self.bytecode(script) == code {
            Some(choose|script: StdlibScript| #[trigger] self.bytecode(script) == code)
        } else {
            None
        }
    }

    /// Makes a registry from one blob for each script, in the order of `StdlibScript::all`.
    /// The list is accepted exactly when it is a valid table; otherwise the first of the
    /// three defects, in the order of `RegistryError`, is reported.
    pub fn new(blobs: Vec<Vec<u8>>) -> (made: Result<ScriptRegistry, RegistryError>)
        ensures
            made is Ok <==> valid_table(table_of(blobs@)),
            made matches Ok(registry) ==> registry.wf() && registry@ == table_of(blobs@),
            made == Err::<ScriptRegistry, RegistryError>(RegistryError::WrongCount)
                <==> blobs@.len() != SCRIPT_COUNT,
            made == Err::<ScriptRegistry, RegistryError>(RegistryError::EmptyBytecode) <==> {
                &&& blobs@.len() == SCRIPT_COUNT
                &&& has_empty_entry(table_of(blobs@))
            },
            made == Err::<ScriptRegistry, RegistryError>(RegistryError::DuplicateBytecode) <==> {
                &&& blobs@.len() == SCRIPT_COUNT
                &&& !has_empty_entry(table_of(blobs@))
                &&& has_equal_entries(table_of(blobs@))
            },
    {
        let ghost table = table_of(blobs@);
        if blobs.len() != SCRIPT_COUNT {
            return Err(RegistryError::WrongCount);
        }
        let mut index: usize = 0;
        while index < SCRIPT_COUNT
            invariant
                table == table_of(blobs@),
                index <= SCRIPT_COUNT == blobs@.len(),
                forall|i: int| 0 <= i < index ==> (#[trigger] table[i]).len() > 0,
            decreases SCRIPT_COUNT - index,
        {
            if blobs[index].len() == 0 {
                assert(table[index as int].len() == 0);
                return Err(RegistryError::EmptyBytecode);
            }
            assert(table[index as int].len() > 0);
            index += 1;
        }
        index = 0;
        while index < SCRIPT_COUNT
            invariant
                table == table_of(blobs@),
                index <= SCRIPT_COUNT == blobs@.len(),
                !has_empty_entry(table),
                forall|i: int, j: int|
                    0 <= i < j < index ==> #[trigger] table[i] != #[trigger] table[j],
            decreases SCRIPT_COUNT - index,
        {
            if !differs_from_earlier(&blobs, index) {
                return Err(RegistryError::DuplicateBytecode);
            }
            index += 1;
        }
        Ok(ScriptRegistry { blobs })
    }

    /// The bytecode registered for `script`. There is one for every script.
    pub fn bytecode_for(&self, script: StdlibScript) -> (code: &[u8])
        ensures
            code@ == self.bytecode(script),
            code@.len() > 0,
    {
        proof {
            use_type_invariant(self);
        }
        assert(self@[script.spec_index() as int].len() > 0);
        self.blobs[script.index()].as_slice()
    }

    /// Finds the script that `code` is the bytecode of: that script if there is one, which
    /// is then the only one, and `None` if there is none.
    pub fn script_of(&self, code: &[u8]) -> (found: Option<StdlibScript>)
        ensures
            found == self.lookup(code@),
            found matches Some(script) ==> self.bytecode(script) == code@,
            forall|script: StdlibScript|
                #[trigger] self.bytecode(script) == code@ ==> found == Some(script),
    {
        proof {
            use_type_invariant(self);
        }
        let mut index: usize = 0;
        while index < SCRIPT_COUNT
            invariant
                self.wf(),
                index <= SCRIPT_COUNT,
                forall|i: int| 0 <= i < index ==> #[trigger] self@[i] != code@,
            decreases SCRIPT_COUNT - index,
        {
            if bytes_equal(self.blobs[index].as_slice(), code) {
                let found = StdlibScript::from_index(index);
                proof {
                    assert(self.bytecode(found.unwrap()) == code@);
                    lemma_lookup_unique(*self, found.unwrap(), code@);
                    assert forall|script: StdlibScript| #[trigger]
                        self.bytecode(script) == code@ implies found == Some(script) by {
                        lemma_lookup_unique(*self, script, code@);
                    }
                }
                return found;
            }
            index += 1;
        }
        proof {
            assert forall|script: StdlibScript| #[trigger] self.bytecode(script) != code@ by {
                lemma_from_index_of_index(script);
            }
        }
        None
    }

    /// The display name of the script that `code` is the bytecode of, and `None` if `code`
    /// is no script's bytecode.
    pub fn display_name_for(&self, code: &[u8]) -> (name: Option<&'static str>)
        ensures
            name is Some <==> self.lookup(code@) is Some,
            name matches Some(text) ==> text@ == self.lookup(code@).unwrap().spec_name(),
            forall|script: StdlibScript|
                #[trigger] self.bytecode(script) == code@ ==> name is Some && name.unwrap()@
                    == script.spec_name(),
    {
        match self.script_of(code) {
            Some(script) => Some(script.name()),
            None => None,
        }
    }
}

/// The name shown for a transaction whose script was looked up with the result `found`.
pub open spec fn transaction_name(found: Option<StdlibScript>) -> Seq<char> {
    match found {
        Some(script) => script.spec_name() + "_transaction"@,
        None => "<unknown transaction>"@,
    }
}

/// A readable name for the transaction that runs `code`: the script's name followed by
/// `_transaction` where the registry knows the bytecode, `<unknown transaction>` otherwise.
pub fn get_transaction_name(registry: &ScriptRegistry, code: &[u8]) -> (name: String)
    ensures
        name@ == transaction_name(registry.lookup(code@)),
        forall|script: StdlibScript|
            #[trigger] registry.bytecode(script) == code@ ==> name@ == script.spec_name()
                + "_transaction"@,
        (forall|script: StdlibScript| #[trigger] registry.bytecode(script) != code@) ==> name@
            == "<unknown transaction>"@,
        code@.len() == 0 ==> name@ == "<unknown transaction>"@,
{
    let found = registry.script_of(code);
    proof {
        if code@.len() == 0 {
            use_type_invariant(registry);
            assert(code@ =~= Seq::<u8>::empty());
            lemma_empty_is_unknown(*registry);
        }
    }
    match found {
        Some(script) => {
            let mut name = script.name().to_owned();
            name.append("_transaction");
            name
        },
        None => "<unknown transaction>".to_owned(),
    }
}

/// In a sound registry a bytecode belongs to at most one script: a script whose bytecode is
/// `code` is the one that `lookup` finds.
pub proof fn lemma_lookup_unique(registry: ScriptRegistry, script: StdlibScript, code: Seq<u8>)
    requires
        registry.wf(),
        registry.bytecode(script) == code,
    ensures
        registry.lookup(code) == Some(script),
{
    let found = choose|other: StdlibScript| #[trigger] registry.bytecode(other) == code;
    lemma_from_index_of_index(script);
    lemma_from_index_of_index(found);
    if found.spec_index() != script.spec_index() {
        let i = found.spec_index() as int;
        let j = script.spec_index() as int;
        if i < j {
            assert(registry@[i] != registry@[j]);
        } else {
            assert(registry@[j] != registry@[i]);
        }
    }
    lemma_index_injective(found, script);
}

/// Looking up the bytecode registered for a script gives that script back, so the
/// transaction is named after it.
pub proof fn lemma_registered_is_named(registry: ScriptRegistry, script: StdlibScript)
    requires
        registry.wf(),
    ensures
        registry.lookup(registry.bytecode(script)) == Some(script),
        transaction_name(registry.lookup(registry.bytecode(script))) == script.spec_name()
            + "_transaction"@,
{
    lemma_lookup_unique(registry, script, registry.bytecode(script));
}

/// A byte sequence that is no script's bytecode is not found, so the transaction is named
/// `<unknown transaction>`.
pub proof fn lemma_unregistered_is_unknown(registry: ScriptRegistry, code: Seq<u8>)
    requires
        forall|script: StdlibScript| #[trigger] registry.bytecode(script) != code,
    ensures
        registry.lookup(code) is None,
        transaction_name(registry.lookup(code)) == "<unknown transaction>"@,
{
}

/// The empty byte sequence is no script's bytecode in a sound registry.
pub proof fn lemma_empty_is_unknown(registry: ScriptRegistry)
    requires
        registry.wf(),
    ensures
        registry.lookup(Seq::<u8>::empty()) is None,
        transaction_name(registry.lookup(Seq::<u8>::empty())) == "<unknown transaction>"@,
{
    assert forall|script: StdlibScript| #[trigger]
        registry.bytecode(script) != Seq::<u8>::empty() by {
        lemma_from_index_of_index(script);
        assert(registry@[script.spec_index() as int].len() > 0);
    }
}

} // verus!
