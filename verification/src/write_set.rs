//! Write sets and change sets, and the change set that publishes a set of library modules.

use move_core_types::language_storage::TypeTag;
use vstd::prelude::*;

use crate::account_address::AccountAddress;
use crate::bytes::bytes_equal;

verus! {

/// The key of one slot of storage: an account and a path below it.
#[derive(Clone, Debug, PartialEq, Eq, Hash)]
pub struct AccessPath {
    pub address: AccountAddress,
    pub path: Vec<u8>,
}

/// What an `AccessPath` stands for.
pub struct AccessPathView {
    pub address: Seq<u8>,
    pub path: Seq<u8>,
}

impl View for AccessPath {
    type V = AccessPathView;

    open spec fn view(&self) -> AccessPathView {
        AccessPathView { address: self.address@, path: self.path@ }
    }
}

impl AccessPath {
    /// The path `path` below the account `address`.
    pub fn new(address: AccountAddress, path: Vec<u8>) -> (access_path: AccessPath)
        ensures
            access_path@ == (AccessPathView { address: address@, path: path@ }),
    {
        AccessPath { address, path }
    }

    /// Whether two access paths name the same slot.
    pub fn same_as(&self, other: &AccessPath) -> (same: bool)
        ensures
            same == (self@ == other@),
    {
        self.address.same_as(&other.address) && bytes_equal(
            self.path.as_slice(),
            other.path.as_slice(),
        )
    }
}

/// One change to a slot of storage.
#[derive(Clone, Debug, PartialEq, Eq, Hash)]
pub enum WriteOp {
    /// Remove the value.
    Deletion,
    /// Set the value to these bytes.
    Value(Vec<u8>),
}

/// What a `WriteOp` stands for.
pub enum WriteOpView {
    Deletion,
    Value(Seq<u8>),
}

impl View for WriteOp {
    type V = WriteOpView;

    open spec fn view(&self) -> WriteOpView {
        match *self {
            WriteOp::Deletion => WriteOpView::Deletion,
            WriteOp::Value(bytes) => WriteOpView::Value(bytes@),
        }
    }
}

/// What a list of keyed write operations stands for, in order.
pub open spec fn writes_view(writes: Seq<(AccessPath, WriteOp)>) -> Seq<
    (AccessPathView, WriteOpView),
> {
    writes.map_values(|write: (AccessPath, WriteOp)| (write.0@, write.1@))
}

/// No two of the writes have the same access path.
pub open spec fn distinct_paths(writes: Seq<(AccessPathView, WriteOpView)>) -> bool {
    forall|i: int, j: int|
        0 <= i < j < writes.len() ==> (#[trigger] writes[i]).0 != (#[trigger] writes[j]).0
}

/// Why a list of writes is not a write set.
#[derive(Clone, Copy, Debug, PartialEq, Eq, Structural, Hash)]
pub enum WriteSetError {
    /// Two writes have the same access path.
    DuplicateAccessPath,
}

/// A list of keyed write operations that is still being put together.
#[derive(Clone, Debug, PartialEq, Eq, Hash)]
pub struct WriteSetMut {
    write_set: Vec<(AccessPath, WriteOp)>,
}

impl View for WriteSetMut {
    type V = Seq<(AccessPathView, WriteOpView)>;

    closed spec fn view(&self) -> Seq<(AccessPathView, WriteOpView)> {
        writes_view(self.write_set@)
    }
}

/// An ordered batch of keyed write operations in which every access path occurs once.
#[derive(Clone, Debug, PartialEq, Eq, Hash)]
pub struct WriteSet {
    writes: Vec<(AccessPath, WriteOp)>,
}

impl View for WriteSet {
    type V = Seq<(AccessPathView, WriteOpView)>;

    closed spec fn view(&self) -> Seq<(AccessPathView, WriteOpView)> {
        writes_view(self.writes@)
    }
}

/// Whether the write at `index` has an access path that no earlier write has.
fn path_is_new(writes: &Vec<(AccessPath, WriteOp)>, index: usize) -> (fresh: bool)
    requires
        index < writes@.len(),
    ensures
        fresh == forall|i: int|
            0 <= i < index ==> (#[trigger] writes_view(writes@)[i]).0 != writes_view(
                writes@,
            )[index as int].0,
{
    let ghost view = writes_view(writes@);
    let mut i: usize = 0;
    while i < index
        invariant
            view == writes_view(writes@),
            i <= index < writes@.len(),
            forall|k: int| 0 <= k < i ==> (#[trigger] view[k]).0 != view[index as int].0,
        decreases index - i,
    {
        if writes[i].0.same_as(&writes[index].0) {
            assert(view[i as int].0 == view[index as int].0);
            return false;
        }
        assert(view[i as int].0 != view[index as int].0);
        i += 1;
    }
    true
}

impl WriteSetMut {
    /// Starts from the given writes.
    pub fn new(write_set: Vec<(AccessPath, WriteOp)>) -> (made: WriteSetMut)
        ensures
            made@ == writes_view(write_set@),
    {
        WriteSetMut { write_set }
    }

    /// Number of writes.
    pub fn len(&self) -> (len: usize)
        ensures
            len == self@.len(),
    {
        self.write_set.len()
    }

    /// Adds one write at the end.
    pub fn push(&mut self, item: (AccessPath, WriteOp))
        ensures
            final(self)@ == old(self)@.push((item.0@, item.1@)),
    {
        self.write_set.push(item);
        assert(writes_view(self.write_set@) =~= writes_view(old(self).write_set@).push(
            (item.0@, item.1@),
        ));
    }

    /// Closes the list. It becomes a write set exactly when no access path occurs twice,
    /// and then holds the same writes in the same order.
    pub fn freeze(self) -> (frozen: Result<WriteSet, WriteSetError>)
        ensures
            frozen is Ok <==> distinct_paths(self@),
            frozen matches Ok(write_set) ==> write_set@ == self@ && write_set.wf(),
            frozen matches Err(error) ==> error == WriteSetError::DuplicateAccessPath,
    {
        let ghost view = self@;
        let mut index: usize = 0;
        while index < self.write_set.len()
            invariant
                view == writes_view(self.write_set@),
                index <= self.write_set@.len(),
                forall|i: int, j: int|
                    0 <= i < j < index ==> (#[trigger] view[i]).0 != (#[trigger] view[j]).0,
            decreases self.write_set@.len() - index,
        {
            if !path_is_new(&self.write_set, index) {
                return Err(WriteSetError::DuplicateAccessPath);
            }
            index += 1;
        }
        Ok(WriteSet { writes: self.write_set })
    }
}

impl WriteSet {
    /// The write set is sound: every access path occurs once.
    pub open spec fn wf(&self) -> bool {
        distinct_paths(self@)
    }

    /// Number of writes.
    pub fn len(&self) -> (len: usize)
        ensures
            len == self@.len(),
    {
        self.writes.len()
    }

    /// Whether there is no write.
    pub fn is_empty(&self) -> (empty: bool)
        ensures
            empty == (self@.len() == 0),
    {
        self.writes.len() == 0
    }

    /// The write at position `index`.
    pub fn get(&self, index: usize) -> (write: &(AccessPath, WriteOp))
        requires
            index < self@.len(),
        ensures
            (write.0@, write.1@) == self@[index as int],
    {
        &self.writes[index]
    }

    /// Opens the write set again, with the same writes in the same order.
    pub fn into_mut(self) -> (opened: WriteSetMut)
        ensures
            opened@ == self@,
    {
        WriteSetMut { write_set: self.writes }
    }
}

/// An event that a transaction emitted.
#[derive(Clone, Debug, PartialEq, Eq, Hash)]
pub struct ContractEvent {
    pub key: Vec<u8>,
    pub sequence_number: u64,
    pub type_tag: TypeTag,
    pub event_data: Vec<u8>,
}

/// What a `ChangeSet` stands for.
pub struct ChangeSetView {
    pub write_set: Seq<(AccessPathView, WriteOpView)>,
    pub events: Seq<ContractEvent>,
}

/// An atomic batch of writes with the events that go with it.
#[derive(Clone, Debug, PartialEq, Eq, Hash)]
pub struct ChangeSet {
    write_set: WriteSet,
    events: Vec<ContractEvent>,
}

impl View for ChangeSet {
    type V = ChangeSetView;

    closed spec fn view(&self) -> ChangeSetView {
        ChangeSetView { write_set: self.write_set@, events: self.events@ }
    }
}

impl ChangeSet {
    /// The change set is sound: its write set is.
    pub open spec fn wf(&self) -> bool {
        distinct_paths(self@.write_set)
    }

    /// The change set made of the write set and the events.
    pub fn new(write_set: WriteSet, events: Vec<ContractEvent>) -> (change_set: ChangeSet)
        ensures
            change_set@ == (ChangeSetView { write_set: write_set@, events: events@ }),
    {
        ChangeSet { write_set, events }
    }

    /// The writes.
    pub fn write_set(&self) -> (write_set: &WriteSet)
        ensures
            write_set@ == self@.write_set,
    {
        &self.write_set
    }

    /// The events.
    pub fn events(&self) -> (events: &[ContractEvent])
        ensures
            events@ == self@.events,
    {
        self.events.as_slice()
    }

    /// The two parts of the change set.
    pub fn into_inner(self) -> (parts: (WriteSet, Vec<ContractEvent>))
        ensures
            parts.0@ == self@.write_set,
            parts.1@ == self@.events,
    {
        (self.write_set, self.events)
    }
}

/// A library module as it is published: the access path that its identifier resolves to,
/// and its serialized code.
#[derive(Clone, Debug, PartialEq, Eq, Hash)]
pub struct SerializedModule {
    pub access_path: AccessPath,
    pub code: Vec<u8>,
}

/// What a `SerializedModule` stands for.
pub struct ModuleView {
    pub access_path: AccessPathView,
    pub code: Seq<u8>,
}

impl View for SerializedModule {
    type V = ModuleView;

    open spec fn view(&self) -> ModuleView {
        ModuleView { access_path: self.access_path@, code: self.code@ }
    }
}

/// The write that publishes one module: its code as the value at its access path.
pub open spec fn publication(module: ModuleView) -> (AccessPathView, WriteOpView) {
    (module.access_path, WriteOpView::Value(module.code))
}

/// The writes that publish the modules, one for each module and in the order of the modules.
pub open spec fn publications(modules: Seq<SerializedModule>) -> Seq<
    (AccessPathView, WriteOpView),
> {
    modules.map_values(|module: SerializedModule| publication(module@))
}

/// Whether no two of the modules resolve to the same access path.
pub fn paths_are_distinct(modules: &[SerializedModule]) -> (distinct: bool)
    ensures
        distinct == distinct_paths(publications(modules@)),
{
    let ghost writes = publications(modules@);
    let mut index: usize = 0;
    while index < modules.len()
        invariant
            writes == publications(modules@),
            index <= modules@.len(),
            forall|i: int, j: int|
                0 <= i < j < index ==> (#[trigger] writes[i]).0 != (#[trigger] writes[j]).0,
        decreases modules@.len() - index,
    {
        let mut earlier: usize = 0;
        while earlier < index
            invariant
                writes == publications(modules@),
                earlier <= index < modules@.len(),
                forall|i: int|
                    0 <= i < earlier ==> (#[trigger] writes[i]).0 != writes[index as int].0,
            decreases index - earlier,
        {
            if modules[earlier].access_path.same_as(&modules[index].access_path) {
                assert(writes[earlier as int].0 == writes[index as int].0);
                return false;
            }
            assert(writes[earlier as int].0 != writes[index as int].0);
            earlier += 1;
        }
        index += 1;
    }
    true
}

/// Builds the change set that publishes the library modules: for each module, in the given
/// order, one write that sets the value at the module's access path to the module's code,
/// and no event. Two modules at one access path are a defect of the module set and are
/// ruled out before the call.
pub fn encode_stdlib_upgrade_transaction(modules: Vec<SerializedModule>) -> (change_set:
    ChangeSet)
    requires
        distinct_paths(publications(modules@)),
    ensures
        change_set@.write_set == publications(modules@),
        change_set@.write_set.len() == modules@.len(),
        forall|i: int|
            0 <= i < modules@.len() ==> #[trigger] change_set@.write_set[i] == (
                modules@[i]@.access_path,
                WriteOpView::Value(modules@[i]@.code),
            ),
        forall|i: int, j: int|
            0 <= i < j < modules@.len() ==> (#[trigger] change_set@.write_set[i]).0 != (
            #[trigger] change_set@.write_set[j]).0,
        change_set@.events == Seq::<ContractEvent>::empty(),
        change_set.wf(),
{
    let ghost all = modules@;
    let mut write_set = WriteSetMut::new(Vec::new());
    assert(write_set@ =~= publications(all.take(0)));
    for module in iter: modules
        invariant
            iter.seq() == all,
            write_set@ == publications(all.take(iter.index() as int)),
    {
        let ghost index = iter.index() as int;
        let SerializedModule { access_path, code } = module;
        write_set.push((access_path, WriteOp::Value(code)));
        assert(write_set@ =~= publications(all.take(index + 1))) by {
            assert(all.take(index + 1) =~= all.take(index).push(all[index]));
        }
    }
    assert(all.take(all.len() as int) =~= all);
    ChangeSet::new(write_set.freeze().unwrap(), Vec::new())
}

} // verus!
